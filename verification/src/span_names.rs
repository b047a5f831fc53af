//! The consumer-side span-name table: local span id to the display
//! name stored on new-span, copied on id-change, erased on close. It
//! annotates enter and exit records.

use vstd::prelude::*;

use crate::assoc::assoc_index;
use crate::assoc::assoc_insert;
use crate::assoc::assoc_lookup;
use crate::assoc::assoc_remove;
use crate::assoc::assoc_unique;
use crate::assoc::lemma_assoc_absent;
use crate::assoc::lemma_assoc_found;
use crate::assoc::lemma_assoc_index;
use crate::assoc::lemma_assoc_insert_effect;
use crate::assoc::lemma_assoc_remove_effect;
use crate::ingest::SpanId;

verus! {

/// The names of the spans the consumer has seen open.
pub struct SpanNameTable {
    entries: Vec<(SpanId, String)>,
}

impl SpanNameTable {
    /// The entries in order, as (span id, name) pairs over views.
    pub closed spec fn view(&self) -> Seq<(SpanId, Seq<char>)> {
        Seq::new(self.entries@.len(), |i: int| (self.entries@[i].0, self.entries@[i].1@))
    }

    /// The name stored for `span`, if any.
    pub open spec fn spec_get(&self, span: SpanId) -> Option<Seq<char>> {
        assoc_lookup(self@, span)
    }

    /// No span id occurs twice.
    pub open spec fn wf(&self) -> bool {
        assoc_unique(self@)
    }

    pub fn new() -> (r: Self)
        ensures
            r.wf(),
            r@ =~= Seq::<(SpanId, Seq<char>)>::empty(),
    {
        SpanNameTable { entries: Vec::new() }
    }

    /// Store `name` for `span`, overwriting an earlier entry in place.
    pub fn insert(&mut self, span: SpanId, name: String)
        requires
            old(self).wf(),
        ensures
            final(self).wf(),
            final(self)@ == assoc_insert(old(self)@, span, name@),
            final(self).spec_get(span) == Some(name@),
            forall|s: SpanId| s != span ==> final(self).spec_get(s) == old(self).spec_get(s),
    {
        let ghost pre = old(self)@;
        let n: usize = self.entries.len();
        let mut i: usize = 0;
        while i < n
            invariant
                n == self.entries.len(),
                i <= n,
                old(self).wf(),
                *self == *old(self),
                pre == old(self)@,
                forall|j: int| 0 <= j < i ==> self.entries@[j].0 != span,
            decreases n - i,
        {
            if self.entries[i].0 == span {
                proof {
                    lemma_assoc_index(pre, span, i as int);
                    lemma_assoc_found(pre, span, i as int);
                }
                self.entries[i] = (span, name);
                proof {
                    assert(self@ =~= pre.update(i as int, (span, name@)));
                    lemma_assoc_insert_effect(pre, self@, span, name@);
                }
                return ;
            }
            i = i + 1;
        }
        proof {
            lemma_assoc_absent(pre, span);
        }
        self.entries.push((span, name));
        proof {
            assert(self@ =~= pre.push((span, name@)));
            lemma_assoc_insert_effect(pre, self@, span, name@);
        }
    }

    /// The name stored for `span`, if any.
    pub fn get(&self, span: SpanId) -> (r: Option<&String>)
        requires
            self.wf(),
        ensures
            match r {
                Some(name) => self.spec_get(span) == Some(name@),
                None => self.spec_get(span) is None,
            },
    {
        let n: usize = self.entries.len();
        let mut i: usize = 0;
        while i < n
            invariant
                n == self.entries.len(),
                i <= n,
                self.wf(),
                forall|j: int| 0 <= j < i ==> self.entries@[j].0 != span,
            decreases n - i,
        {
            if self.entries[i].0 == span {
                proof {
                    lemma_assoc_found(self@, span, i as int);
                }
                return Some(&self.entries[i].1);
            }
            i = i + 1;
        }
        proof {
            lemma_assoc_absent(self@, span);
        }
        None
    }

    /// Erase the entry for `span`, if any.
    pub fn remove(&mut self, span: SpanId)
        requires
            old(self).wf(),
        ensures
            final(self).wf(),
            final(self)@ == assoc_remove(old(self)@, span),
            final(self).spec_get(span) is None,
            forall|s: SpanId| s != span ==> final(self).spec_get(s) == old(self).spec_get(s),
    {
        let ghost pre = old(self)@;
        let n: usize = self.entries.len();
        let mut i: usize = 0;
        while i < n
            invariant
                n == self.entries.len(),
                i <= n,
                old(self).wf(),
                *self == *old(self),
                pre == old(self)@,
                forall|j: int| 0 <= j < i ==> self.entries@[j].0 != span,
            decreases n - i,
        {
            if self.entries[i].0 == span {
                proof {
                    lemma_assoc_index(pre, span, i as int);
                    lemma_assoc_found(pre, span, i as int);
                }
                self.entries.remove(i);
                proof {
                    assert(self@ =~= pre.remove(i as int));
                    lemma_assoc_remove_effect(pre, self@, span, i as int);
                }
                return ;
            }
            i = i + 1;
        }
        proof {
            lemma_assoc_absent(pre, span);
        }
    }
}

} // verus!
