//! Attribute-key interning: a process-lifetime memo of the opaque
//! handles the remote session assigns to attribute key strings.
//!
//! The cache itself never talks to the session. A lookup that misses
//! tells the caller to request a handle and store it back; within a
//! session, equal key strings therefore map to equal handles.

use vstd::prelude::*;

use crate::assoc::assoc_lookup;
use crate::assoc::assoc_unique;
use crate::assoc::lemma_assoc_absent;
use crate::assoc::lemma_assoc_absent_push;
use crate::assoc::lemma_assoc_found;

verus! {

/// The opaque handle the remote session assigns to an attribute key.
pub type AttrKeyHandle = u32;

/// One scope's key cache: key string to remote handle.
pub struct KeyCache {
    entries: Vec<(String, AttrKeyHandle)>,
}

impl KeyCache {
    /// The entries in order, as (key, handle) pairs over views.
    pub closed spec fn view(&self) -> Seq<(Seq<char>, AttrKeyHandle)> {
        Seq::new(self.entries@.len(), |i: int| (self.entries@[i].0@, self.entries@[i].1))
    }

    /// The handle memoized for `key`, if any.
    pub open spec fn spec_get(&self, key: Seq<char>) -> Option<AttrKeyHandle> {
        assoc_lookup(self@, key)
    }

    /// No key string occurs twice.
    pub open spec fn wf(&self) -> bool {
        assoc_unique(self@)
    }

    pub fn new() -> (r: Self)
        ensures
            r.wf(),
            r@ =~= Seq::<(Seq<char>, AttrKeyHandle)>::empty(),
    {
        KeyCache { entries: Vec::new() }
    }

    /// The memoized handle for `key`, if one was stored before.
    pub fn get(&self, key: &String) -> (r: Option<AttrKeyHandle>)
        requires
            self.wf(),
        ensures
            r == self.spec_get(key@),
    {
        let n: usize = self.entries.len();
        let mut i: usize = 0;
        while i < n
            invariant
                n == self.entries.len(),
                i <= n,
                self.wf(),
                forall|j: int| 0 <= j < i ==> self.entries@[j].0@ != key@,
            decreases n - i,
        {
            if crate::fields::string_eq(&self.entries[i].0, key) {
                proof {
                    lemma_assoc_found(self@, key@, i as int);
                }
                return Some(self.entries[i].1);
            }
            i = i + 1;
        }
        proof {
            lemma_assoc_absent(self@, key@);
        }
        None
    }

    /// Memoize `handle` for the fresh key `key`. Every later `get` of
    /// the same key returns this handle.
    pub fn store(&mut self, key: String, handle: AttrKeyHandle)
        requires
            old(self).wf(),
            old(self).spec_get(key@) is None,
        ensures
            final(self).wf(),
            final(self)@ =~= old(self)@.push((key@, handle)),
            final(self).spec_get(key@) == Some(handle),
            forall|k: Seq<char>| k != key@ ==> final(self).spec_get(k) == old(
                self,
            ).spec_get(k),
    {
        let ghost pre = old(self)@;
        self.entries.push((key, handle));
        proof {
            assert(self@ =~= pre.push((key@, handle)));
            lemma_assoc_absent_push(pre, key@, handle);
            assert forall|p: int, q: int| 0 <= p < q < self@.len() implies self@[p].0
                != self@[q].0 by {
                if q == self@.len() - 1 {
                    if pre[p].0 == key@ {
                        crate::assoc::lemma_assoc_contains_some(pre, key@);
                    }
                }
            }
        }
    }
}

} // verus!
