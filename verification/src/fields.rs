//! Field capture: the typed bag of (field name, value) pairs collected
//! from one span or event callback.
//!
//! The bag keeps one entry per field name; a later assignment to the
//! same name within one record overwrites the earlier one. Entries keep
//! their first-insertion order.

use vstd::prelude::*;

use crate::assoc::assoc_index;
use crate::assoc::assoc_lookup;
use crate::assoc::assoc_unique;
use crate::assoc::lemma_assoc_absent;
use crate::assoc::lemma_assoc_found;
use crate::assoc::lemma_assoc_index;
use crate::assoc::lemma_assoc_insert_effect;
use crate::assoc::lemma_assoc_remove_effect;

verus! {

/// A single captured field value.
///
/// Floating-point values are carried as their raw 64-bit encoding; the
/// pipeline never computes on them, it only passes them through.
#[derive(Clone, Debug, PartialEq)]
pub enum TracingValue {
    String(String),
    /// The bit pattern of a 64-bit floating-point value.
    F64(u64),
    I64(i64),
    U64(u64),
    Bool(bool),
}

/// The specification-level form of a captured field value: strings as
/// character sequences.
pub enum TracingValueV {
    String(Seq<char>),
    F64(u64),
    I64(i64),
    U64(u64),
    Bool(bool),
}

impl View for TracingValue {
    type V = TracingValueV;

    open spec fn view(&self) -> TracingValueV {
        match self {
            TracingValue::String(s) => TracingValueV::String(s@),
            TracingValue::F64(bits) => TracingValueV::F64(*bits),
            TracingValue::I64(n) => TracingValueV::I64(*n),
            TracingValue::U64(n) => TracingValueV::U64(*n),
            TracingValue::Bool(b) => TracingValueV::Bool(*b),
        }
    }
}

impl TracingValue {
    /// An equal copy of the value.
    pub fn dup(&self) -> (r: TracingValue)
        ensures
            r == *self,
    {
        match self {
            TracingValue::String(s) => TracingValue::String(s.clone()),
            TracingValue::F64(bits) => TracingValue::F64(*bits),
            TracingValue::I64(n) => TracingValue::I64(*n),
            TracingValue::U64(n) => TracingValue::U64(*n),
            TracingValue::Bool(b) => TracingValue::Bool(*b),
        }
    }
}

/// The captured fields of one record, keyed by field name.
pub struct FieldBag {
    entries: Vec<(String, TracingValue)>,
}

impl FieldBag {
    /// The entries in order, as (name, value) pairs over views.
    pub closed spec fn view(&self) -> Seq<(Seq<char>, TracingValueV)> {
        Seq::new(self.entries@.len(), |i: int| (self.entries@[i].0@, self.entries@[i].1@))
    }

    /// The value stored under `key`, if any.
    pub open spec fn spec_get(&self, key: Seq<char>) -> Option<TracingValueV> {
        assoc_lookup(self@, key)
    }

    /// No field name occurs twice.
    pub open spec fn wf(&self) -> bool {
        assoc_unique(self@)
    }

    pub fn new() -> (r: Self)
        ensures
            r@ =~= Seq::<(Seq<char>, TracingValueV)>::empty(),
            r.wf(),
    {
        FieldBag { entries: Vec::new() }
    }

    /// Store `value` under `name`, overwriting an earlier entry of the
    /// same name in place.
    pub fn insert(&mut self, name: String, value: TracingValue)
        requires
            old(self).wf(),
        ensures
            final(self).wf(),
            old(self).spec_get(name@) is Some ==> final(self)@ =~= old(self)@.update(
                assoc_index(old(self)@, name@),
                (name@, value@),
            ),
            old(self).spec_get(name@) is None ==> final(self)@ =~= old(self)@.push(
                (name@, value@),
            ),
            final(self).spec_get(name@) == Some(value@),
            forall|k: Seq<char>| k != name@ ==> final(self).spec_get(k) == old(
                self,
            ).spec_get(k),
    {
        let ghost pre = old(self)@;
        let n: usize = self.entries.len();
        let mut i: usize = 0;
        while i < n
            invariant
                n == self.entries.len(),
                i <= n,
                old(self).wf(),
                *self == *old(self),
                pre == old(self)@,
                forall|j: int| 0 <= j < i ==> self.entries@[j].0@ != name@,
            decreases n - i,
        {
            if string_eq(&self.entries[i].0, &name) {
                proof {
                    lemma_assoc_index(pre, name@, i as int);
                    lemma_assoc_found(pre, name@, i as int);
                }
                self.entries[i] = (name, value);
                proof {
                    assert(self@ =~= pre.update(i as int, (name@, value@)));
                    lemma_assoc_insert_effect(pre, self@, name@, value@);
                }
                return ;
            }
            i = i + 1;
        }
        proof {
            lemma_assoc_absent(pre, name@);
        }
        self.entries.push((name, value));
        proof {
            assert(self@ =~= pre.push((name@, value@)));
            lemma_assoc_insert_effect(pre, self@, name@, value@);
        }
    }

    /// The value stored under `key`, if any.
    pub fn get(&self, key: &str) -> (r: Option<&TracingValue>)
        requires
            self.wf(),
        ensures
            match r {
                Some(v) => self.spec_get(key@) == Some(v@),
                None => self.spec_get(key@) is None,
            },
    {
        let n: usize = self.entries.len();
        let mut i: usize = 0;
        while i < n
            invariant
                n == self.entries.len(),
                i <= n,
                self.wf(),
                forall|j: int| 0 <= j < i ==> self.entries@[j].0@ != key@,
            decreases n - i,
        {
            if str_eq(self.entries[i].0.as_str(), key) {
                proof {
                    lemma_assoc_found(self@, key@, i as int);
                }
                return Some(&self.entries[i].1);
            }
            i = i + 1;
        }
        proof {
            lemma_assoc_absent(self@, key@);
        }
        None
    }

    /// Remove and return the value stored under `key`, if any. The
    /// remaining entries keep their order.
    pub fn remove(&mut self, key: &str) -> (r: Option<TracingValue>)
        requires
            old(self).wf(),
        ensures
            final(self).wf(),
            final(self).spec_get(key@) is None,
            forall|k: Seq<char>| k != key@ ==> final(self).spec_get(k) == old(
                self,
            ).spec_get(k),
            match r {
                Some(v) => {
                    &&& old(self).spec_get(key@) == Some(v@)
                    &&& final(self)@ =~= old(self)@.remove(assoc_index(old(self)@, key@))
                },
                None => {
                    &&& old(self).spec_get(key@) is None
                    &&& final(self)@ =~= old(self)@
                },
            },
    {
        let ghost pre = old(self)@;
        let n: usize = self.entries.len();
        let mut i: usize = 0;
        while i < n
            invariant
                n == self.entries.len(),
                i <= n,
                old(self).wf(),
                *self == *old(self),
                pre == old(self)@,
                forall|j: int| 0 <= j < i ==> self.entries@[j].0@ != key@,
            decreases n - i,
        {
            if str_eq(self.entries[i].0.as_str(), key) {
                proof {
                    lemma_assoc_index(pre, key@, i as int);
                    lemma_assoc_found(pre, key@, i as int);
                }
                let pair = self.entries.remove(i);
                proof {
                    assert(self@ =~= pre.remove(i as int));
                    lemma_assoc_remove_effect(pre, self@, key@, i as int);
                }
                return Some(pair.1);
            }
            i = i + 1;
        }
        proof {
            lemma_assoc_absent(pre, key@);
        }
        None
    }

    /// The number of captured fields.
    pub fn len(&self) -> (r: usize)
        ensures
            r == self@.len(),
    {
        self.entries.len()
    }

    /// The entry at position `i`.
    pub fn entry_at(&self, i: usize) -> (r: (&String, &TracingValue))
        requires
            i < self@.len(),
        ensures
            r.0@ == self@[i as int].0,
            r.1@ == self@[i as int].1,
    {
        let pair = &self.entries[i];
        (&pair.0, &pair.1)
    }

    /// Record a string-valued field.
    pub fn record_str(&mut self, name: String, value: String)
        requires
            old(self).wf(),
        ensures
            final(self).wf(),
            final(self).spec_get(name@) == Some(TracingValueV::String(value@)),
            forall|k: Seq<char>| k != name@ ==> final(self).spec_get(k) == old(
                self,
            ).spec_get(k),
    {
        self.insert(name, TracingValue::String(value));
    }

    /// Record a 64-bit float field by its bit pattern.
    pub fn record_f64_bits(&mut self, name: String, bits: u64)
        requires
            old(self).wf(),
        ensures
            final(self).wf(),
            final(self).spec_get(name@) == Some(TracingValueV::F64(bits)),
            forall|k: Seq<char>| k != name@ ==> final(self).spec_get(k) == old(
                self,
            ).spec_get(k),
    {
        self.insert(name, TracingValue::F64(bits));
    }

    /// Record a signed integer field.
    pub fn record_i64(&mut self, name: String, value: i64)
        requires
            old(self).wf(),
        ensures
            final(self).wf(),
            final(self).spec_get(name@) == Some(TracingValueV::I64(value)),
            forall|k: Seq<char>| k != name@ ==> final(self).spec_get(k) == old(
                self,
            ).spec_get(k),
    {
        self.insert(name, TracingValue::I64(value));
    }

    /// Record an unsigned integer field.
    pub fn record_u64(&mut self, name: String, value: u64)
        requires
            old(self).wf(),
        ensures
            final(self).wf(),
            final(self).spec_get(name@) == Some(TracingValueV::U64(value)),
            forall|k: Seq<char>| k != name@ ==> final(self).spec_get(k) == old(
                self,
            ).spec_get(k),
    {
        self.insert(name, TracingValue::U64(value));
    }

    /// Record a boolean field.
    pub fn record_bool(&mut self, name: String, value: bool)
        requires
            old(self).wf(),
        ensures
            final(self).wf(),
            final(self).spec_get(name@) == Some(TracingValueV::Bool(value)),
            forall|k: Seq<char>| k != name@ ==> final(self).spec_get(k) == old(
                self,
            ).spec_get(k),
    {
        self.insert(name, TracingValue::Bool(value));
    }
}

/// Compare two strings for character equality.
pub fn string_eq(a: &String, b: &String) -> (r: bool)
    ensures
        r == (a@ == b@),
{
    *a == *b
}

/// Compare two string slices for character equality.
pub fn str_eq(a: &str, b: &str) -> (r: bool)
    ensures
        r == (a@ == b@),
{
    let sa = String::from_str(a);
    let sb = String::from_str(b);
    sa == sb
}

} // verus!
