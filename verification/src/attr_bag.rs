//! The per-record attribute bag: remote key to remote value, built
//! while a record is translated, then flushed in insertion order.

use vstd::prelude::*;

use crate::assoc::assoc_index;
use crate::assoc::assoc_lookup;
use crate::assoc::assoc_unique;
use crate::assoc::lemma_assoc_absent;
use crate::assoc::lemma_assoc_found;
use crate::assoc::lemma_assoc_index;
use crate::assoc::lemma_assoc_insert_effect;
use crate::types::AttrVal;
use crate::types::AttrValV;

verus! {

/// The bag after storing `value` under `key`: an in-place overwrite if
/// the key is present, else an append.
pub open spec fn spec_bag_insert(
    s: Seq<(Seq<char>, AttrValV)>,
    key: Seq<char>,
    value: AttrValV,
) -> Seq<(Seq<char>, AttrValV)> {
    if assoc_lookup(s, key) is Some {
        s.update(assoc_index(s, key), (key, value))
    } else {
        s.push((key, value))
    }
}

/// The bag after storing `value` under `key` only if the key is
/// absent.
pub open spec fn spec_bag_insert_absent(
    s: Seq<(Seq<char>, AttrValV)>,
    key: Seq<char>,
    value: AttrValV,
) -> Seq<(Seq<char>, AttrValV)> {
    if assoc_lookup(s, key) is Some {
        s
    } else {
        s.push((key, value))
    }
}

/// What `spec_bag_insert_absent` does to every lookup: the key is
/// present afterwards, with its old value if it had one and with the
/// inserted value otherwise; all other keys are untouched.
pub proof fn lemma_bag_insert_absent_lookup(
    b: Seq<(Seq<char>, AttrValV)>,
    key: Seq<char>,
    value: AttrValV,
    k: Seq<char>,
)
    ensures
        assoc_lookup(spec_bag_insert_absent(b, key, value), key) is Some,
        assoc_lookup(b, key) is Some ==> assoc_lookup(spec_bag_insert_absent(b, key, value), key)
            == assoc_lookup(b, key),
        assoc_lookup(b, key) is None ==> assoc_lookup(spec_bag_insert_absent(b, key, value), key)
            == Some(value),
        k != key ==> assoc_lookup(spec_bag_insert_absent(b, key, value), k) == assoc_lookup(
            b,
            k,
        ),
{
    if assoc_lookup(b, key) is None {
        crate::assoc::lemma_assoc_absent_push(b, key, value);
    }
}

/// A keyed bag of remote attributes under construction.
pub struct AttrBag {
    entries: Vec<(String, AttrVal)>,
}

impl AttrBag {
    /// The entries in order, as (key, value) pairs over views.
    pub closed spec fn view(&self) -> Seq<(Seq<char>, AttrValV)> {
        Seq::new(self.entries@.len(), |i: int| (self.entries@[i].0@, self.entries@[i].1@))
    }

    /// The value stored under `key`, if any.
    pub open spec fn spec_get(&self, key: Seq<char>) -> Option<AttrValV> {
        assoc_lookup(self@, key)
    }

    /// No key occurs twice.
    pub open spec fn wf(&self) -> bool {
        assoc_unique(self@)
    }

    pub fn new() -> (r: Self)
        ensures
            r.wf(),
            r@ =~= Seq::<(Seq<char>, AttrValV)>::empty(),
    {
        AttrBag { entries: Vec::new() }
    }

    /// Store `value` under `key`, overwriting in place if present.
    pub fn insert(&mut self, key: String, value: AttrVal)
        requires
            old(self).wf(),
        ensures
            final(self).wf(),
            final(self)@ == spec_bag_insert(old(self)@, key@, value@),
            final(self).spec_get(key@) == Some(value@),
            forall|k: Seq<char>| k != key@ ==> final(self).spec_get(k) == old(
                self,
            ).spec_get(k),
    {
        let ghost pre = old(self)@;
        let n: usize = self.entries.len();
        let mut i: usize = 0;
        while i < n
            invariant
                n == self.entries.len(),
                i <= n,
                old(self).wf(),
                *self == *old(self),
                pre == old(self)@,
                forall|j: int| 0 <= j < i ==> self.entries@[j].0@ != key@,
            decreases n - i,
        {
            if crate::fields::string_eq(&self.entries[i].0, &key) {
                proof {
                    lemma_assoc_index(pre, key@, i as int);
                    lemma_assoc_found(pre, key@, i as int);
                }
                self.entries[i] = (key, value);
                proof {
                    assert(self@ =~= pre.update(i as int, (key@, value@)));
                    lemma_assoc_insert_effect(pre, self@, key@, value@);
                }
                return ;
            }
            i = i + 1;
        }
        proof {
            lemma_assoc_absent(pre, key@);
        }
        self.entries.push((key, value));
        proof {
            assert(self@ =~= pre.push((key@, value@)));
            lemma_assoc_insert_effect(pre, self@, key@, value@);
        }
    }

    /// Store `value` under `key` only if no entry has that key yet.
    pub fn insert_if_absent(&mut self, key: String, value: AttrVal)
        requires
            old(self).wf(),
        ensures
            final(self).wf(),
            final(self)@ == spec_bag_insert_absent(old(self)@, key@, value@),
            final(self).spec_get(key@) is Some,
            old(self).spec_get(key@) is Some ==> final(self).spec_get(key@) == old(
                self,
            ).spec_get(key@),
            old(self).spec_get(key@) is None ==> final(self).spec_get(key@) == Some(value@),
            forall|k: Seq<char>| k != key@ ==> final(self).spec_get(k) == old(
                self,
            ).spec_get(k),
    {
        let ghost pre = old(self)@;
        let n: usize = self.entries.len();
        let mut i: usize = 0;
        while i < n
            invariant
                n == self.entries.len(),
                i <= n,
                old(self).wf(),
                *self == *old(self),
                pre == old(self)@,
                forall|j: int| 0 <= j < i ==> self.entries@[j].0@ != key@,
            decreases n - i,
        {
            if crate::fields::string_eq(&self.entries[i].0, &key) {
                proof {
                    lemma_assoc_found(pre, key@, i as int);
                }
                return ;
            }
            i = i + 1;
        }
        proof {
            lemma_assoc_absent(pre, key@);
        }
        self.entries.push((key, value));
        proof {
            assert(self@ =~= pre.push((key@, value@)));
            lemma_assoc_insert_effect(pre, self@, key@, value@);
        }
    }

    /// The number of attributes in the bag.
    pub fn len(&self) -> (r: usize)
        ensures
            r == self@.len(),
    {
        self.entries.len()
    }

    /// Give up the bag as the ordered attribute list it holds.
    pub fn into_entries(self) -> (r: Vec<(String, AttrVal)>)
        ensures
            r@.len() == self@.len(),
            forall|i: int| 0 <= i < r@.len() ==> (r@[i].0@, r@[i].1@) == self@[i],
    {
        self.entries
    }
}

} // verus!
