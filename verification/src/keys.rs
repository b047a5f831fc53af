//! Attribute key normalization.
//!
//! Event-scoped keys live under the `event.` prefix and timeline
//! metadata keys under the `timeline.` prefix; a key that already
//! carries its prefix is left alone.

use vstd::prelude::*;

verus! {

/// Whether `s` begins with `p`.
pub open spec fn spec_starts_with(s: Seq<char>, p: Seq<char>) -> bool {
    p.len() <= s.len() && s.subrange(0, p.len() as int) == p
}

/// The normal form of a key under `prefix`: the key itself if it
/// already starts with the prefix, else the prefix glued on.
pub open spec fn spec_prefixed(s: Seq<char>, p: Seq<char>) -> Seq<char> {
    if spec_starts_with(s, p) {
        s
    } else {
        p + s
    }
}

/// Whether the string slice `s` begins with `p`, by characters.
pub fn str_starts_with(s: &str, p: &str) -> (r: bool)
    ensures
        r == spec_starts_with(s@, p@),
{
    let np: usize = p.unicode_len();
    let ns: usize = s.unicode_len();
    if ns < np {
        return false;
    }
    let mut i: usize = 0;
    while i < np
        invariant
            np == p@.len(),
            ns == s@.len(),
            np <= ns,
            i <= np,
            forall|j: int| 0 <= j < i ==> s@[j] == p@[j],
        decreases np - i,
    {
        if s.get_char(i) != p.get_char(i) {
            assert(s@.subrange(0, p@.len() as int)[i as int] != p@[i as int]);
            return false;
        }
        i = i + 1;
    }
    assert(s@.subrange(0, p@.len() as int) =~= p@);
    true
}

/// Normalize an event-scoped key: prefix it with `event.` unless it
/// already starts so.
pub fn normalize_event_key(key: &String) -> (r: String)
    ensures
        r@ == spec_prefixed(key@, "event."@),
{
    if str_starts_with(key.as_str(), "event.") {
        key.clone()
    } else {
        String::from_str("event.").concat(key.as_str())
    }
}

/// Normalize a timeline metadata key: prefix it with `timeline.`
/// unless it already starts so.
pub fn normalize_timeline_key(key: &String) -> (r: String)
    ensures
        r@ == spec_prefixed(key@, "timeline."@),
{
    if str_starts_with(key.as_str(), "timeline.") {
        key.clone()
    } else {
        String::from_str("timeline.").concat(key.as_str())
    }
}

} // verus!
