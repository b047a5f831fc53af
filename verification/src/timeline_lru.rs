//! The timeline residency cache: a fixed-capacity, least-recently-used
//! map from user timeline id to remote timeline id.
//!
//! The two-phase query/insert protocol avoids a lookup/borrow race: a
//! miss hands back an opaque token naming the slot to fill, and the
//! caller completes the miss path with `insert` once the timeline's
//! metadata has been registered.
//!
//! Recency is tracked with a logical use counter rather than a wall
//! clock: only the relative order of touches matters to eviction. On
//! equal counters the lowest slot index is evicted first, scanning in
//! order.

use vstd::prelude::*;

use crate::types::TimelineId;

verus! {

/// One resident timeline: (user id, remote timeline id, last use).
pub type LruItem = (u64, TimelineId, u64);

/// Whether `uid` is resident in the item sequence.
pub open spec fn lru_contains(s: Seq<LruItem>, uid: u64) -> bool {
    exists|j: int| 0 <= j < s.len() && s[j].0 == uid
}

/// The position of `uid` in the item sequence, assuming residency.
pub open spec fn lru_index(s: Seq<LruItem>, uid: u64) -> int {
    choose|j: int| 0 <= j < s.len() && s[j].0 == uid
}

/// Whether slot `i` is the eviction victim: its use counter is
/// minimal, and no earlier slot shares that minimum.
pub open spec fn is_evict_slot(s: Seq<LruItem>, i: int) -> bool {
    &&& 0 <= i < s.len()
    &&& forall|j: int| 0 <= j < s.len() ==> s[i].2 <= s[j].2
    &&& forall|j: int| 0 <= j < i ==> s[j].2 > s[i].2
}

struct LruEntry {
    user_id: u64,
    timeline_id: TimelineId,
    last_use: u64,
}

/// The token a miss hands back: where the insertion will go.
#[derive(Debug, PartialEq)]
pub struct LruToken {
    // The field stays private so that `insert` can only complete a
    // miss path that `query` began.
    slot: LruSlot,
}

#[derive(Debug, PartialEq)]
enum LruSlot {
    Append,
    Replace(usize),
}

impl LruToken {
    /// `None` for an append into a cache that is not full; `Some(i)`
    /// for an overwrite of slot `i`.
    pub closed spec fn spec_slot(&self) -> Option<int> {
        match self.slot {
            LruSlot::Append => None,
            LruSlot::Replace(i) => Some(i as int),
        }
    }
}

/// A least-recently-used cache of timeline residency.
pub struct TimelineLru {
    data: Vec<LruEntry>,
    cap: usize,
    clock: u64,
}

impl TimelineLru {
    /// The resident items in slot order.
    pub closed spec fn view(&self) -> Seq<LruItem> {
        Seq::new(
            self.data@.len(),
            |i: int| (self.data@[i].user_id, self.data@[i].timeline_id, self.data@[i].last_use),
        )
    }

    /// The fixed capacity.
    pub closed spec fn spec_cap(&self) -> int {
        self.cap as int
    }

    /// The logical use counter; it saturates rather than wraps.
    pub closed spec fn spec_clock(&self) -> u64 {
        self.clock
    }

    /// Residency is bounded by the capacity, user ids are unique, and
    /// no use counter is ahead of the clock.
    pub closed spec fn wf(&self) -> bool {
        &&& self.data@.len() <= self.cap
        &&& forall|i: int, j: int|
            0 <= i < j < self.data@.len() ==> self.data@[i].user_id != self.data@[j].user_id
        &&& forall|i: int| 0 <= i < self.data@.len() ==> self.data@[i].last_use <= self.clock
    }

    /// Create a cache that will hold at most `cap` timelines.
    pub fn with_capacity(cap: usize) -> (r: Self)
        ensures
            r.wf(),
            r@ =~= Seq::<LruItem>::empty(),
            r.spec_cap() == cap,
    {
        TimelineLru { data: Vec::new(), cap, clock: 0 }
    }

    fn bump(&mut self)
        ensures
            final(self).data == old(self).data,
            final(self).cap == old(self).cap,
            final(self).clock == if old(self).clock < u64::MAX {
                (old(self).clock + 1) as u64
            } else {
                u64::MAX
            },
    {
        if self.clock < u64::MAX {
            self.clock = self.clock + 1;
        }
    }

    /// Look up `user_id`.
    ///
    /// On a hit the entry's use counter moves to the present and the
    /// cached remote id comes back. On a miss the cache is unchanged
    /// and the token says where an insertion would go: an append while
    /// the cache is not full, otherwise the slot whose use counter is
    /// smallest, the lowest such slot first.
    pub fn query(&mut self, user_id: u64) -> (r: Result<TimelineId, LruToken>)
        requires
            old(self).wf(),
        ensures
            final(self).wf(),
            final(self).spec_cap() == old(self).spec_cap(),
            match r {
                Ok(tid) => {
                    &&& lru_contains(old(self)@, user_id)
                    &&& tid == old(self)@[lru_index(old(self)@, user_id)].1
                    &&& final(self)@ =~= old(self)@.update(
                        lru_index(old(self)@, user_id),
                        (user_id, tid, old(self).spec_clock()),
                    )
                },
                Err(token) => {
                    &&& !lru_contains(old(self)@, user_id)
                    &&& final(self)@ =~= old(self)@
                    &&& final(self).spec_clock() == old(self).spec_clock()
                    &&& if old(self)@.len() < old(self).spec_cap() {
                        token.spec_slot() is None
                    } else if old(self)@.len() > 0 {
                        match token.spec_slot() {
                            Some(i) => is_evict_slot(old(self)@, i),
                            None => false,
                        }
                    } else {
                        token.spec_slot() == Some(0int)
                    }
                },
            },
    {
        let n: usize = self.data.len();
        let full: bool = n >= self.cap;

        if !full {
            let mut i: usize = 0;
            while i < n
                invariant
                    old(self).wf(),
                    *self == *old(self),
                    n == self.data.len(),
                    i <= n,
                    forall|j: int| 0 <= j < i ==> self.data@[j].user_id != user_id,
                decreases n - i,
            {
                if self.data[i].user_id == user_id {
                    proof {
                        lemma_lru_index(old(self)@, user_id, i as int);
                    }
                    let tid = self.data[i].timeline_id;
                    let use_now = self.clock;
                    self.data[i] = LruEntry { user_id, timeline_id: tid, last_use: use_now };
                    self.bump();
                    proof {
                        assert(self@ =~= old(self)@.update(
                            i as int,
                            (user_id, tid, old(self).spec_clock()),
                        ));
                    }
                    return Ok(tid);
                }
                i = i + 1;
            }
            return Err(LruToken { slot: LruSlot::Append });
        }

        if n == 0 {
            return Err(LruToken { slot: LruSlot::Replace(0) });
        }

        let mut oldest_slot: usize = 0;
        let mut oldest_time: u64 = self.data[0].last_use;
        let mut i: usize = 0;
        while i < n
            invariant
                old(self).wf(),
                *self == *old(self),
                n == self.data.len(),
                0 < n,
                i <= n,
                forall|j: int| 0 <= j < i ==> self.data@[j].user_id != user_id,
                oldest_slot < n,
                oldest_time == self.data@[oldest_slot as int].last_use,
                forall|j: int| 0 <= j < i ==> oldest_time <= self.data@[j].last_use,
                forall|j: int| 0 <= j < oldest_slot ==> self.data@[j].last_use > oldest_time,
                oldest_slot < i || oldest_slot == 0,
            decreases n - i,
        {
            if self.data[i].user_id == user_id {
                proof {
                    lemma_lru_index(old(self)@, user_id, i as int);
                }
                let tid = self.data[i].timeline_id;
                let use_now = self.clock;
                self.data[i] = LruEntry { user_id, timeline_id: tid, last_use: use_now };
                self.bump();
                proof {
                    assert(self@ =~= old(self)@.update(
                        i as int,
                        (user_id, tid, old(self).spec_clock()),
                    ));
                }
                return Ok(tid);
            }

            if self.data[i].last_use < oldest_time {
                oldest_time = self.data[i].last_use;
                oldest_slot = i;
            }
            i = i + 1;
        }

        proof {
            assert(is_evict_slot(self@, oldest_slot as int));
        }
        Err(LruToken { slot: LruSlot::Replace(oldest_slot) })
    }

    /// Complete the miss path that `query` began: append or overwrite
    /// the slot the token names, binding `user_id` to `timeline_id`.
    ///
    /// A replace token whose slot is out of range refers to a cache
    /// state this cache no longer has; it is ignored.
    pub fn insert(&mut self, user_id: u64, timeline_id: TimelineId, token: LruToken)
        requires
            old(self).wf(),
            !lru_contains(old(self)@, user_id),
            token.spec_slot() is None ==> old(self)@.len() < old(self).spec_cap(),
        ensures
            final(self).wf(),
            final(self).spec_cap() == old(self).spec_cap(),
            match token.spec_slot() {
                None => final(self)@ =~= old(self)@.push(
                    (user_id, timeline_id, old(self).spec_clock()),
                ),
                Some(i) => {
                    &&& 0 <= i < old(self)@.len() ==> final(self)@ =~= old(self)@.update(
                        i,
                        (user_id, timeline_id, old(self).spec_clock()),
                    )
                    &&& !(0 <= i < old(self)@.len()) ==> final(self)@ =~= old(self)@
                },
            },
            lru_contains(final(self)@, user_id) || (token.spec_slot() matches Some(i)
                && !(0 <= i < old(self)@.len())),
    {
        let use_now = self.clock;
        match token.slot {
            LruSlot::Append => {
                self.data.push(LruEntry { user_id, timeline_id, last_use: use_now });
                self.bump();
                proof {
                    assert(self@ =~= old(self)@.push((user_id, timeline_id, use_now)));
                    assert(self@[old(self)@.len() as int].0 == user_id);
                    assert forall|p: int, q: int|
                        0 <= p < q < self.data@.len() implies self.data@[p].user_id
                        != self.data@[q].user_id by {
                        if q == self.data@.len() - 1 {
                            assert(old(self)@[p].0 == old(self).data@[p].user_id);
                            assert(old(self)@[p].0 != user_id);
                        }
                    }
                }
            },
            LruSlot::Replace(idx) => {
                if idx < self.data.len() {
                    self.data[idx] = LruEntry { user_id, timeline_id, last_use: use_now };
                    self.bump();
                    proof {
                        assert(self@ =~= old(self)@.update(
                            idx as int,
                            (user_id, timeline_id, use_now),
                        ));
                        assert(self@[idx as int].0 == user_id);
                        assert forall|p: int, q: int|
                            0 <= p < q < self.data@.len() implies self.data@[p].user_id
                            != self.data@[q].user_id by {
                            if p == idx as int || q == idx as int {
                                assert(old(self)@[p].0 == old(self).data@[p].user_id);
                                assert(old(self)@[q].0 == old(self).data@[q].user_id);
                                assert(old(self)@[p].0 != user_id);
                                assert(old(self)@[q].0 != user_id);
                            }
                        }
                    }
                }
            },
        }
    }
}

/// With unique user ids, a match at position `i` pins `lru_index`.
proof fn lemma_lru_index(s: Seq<LruItem>, uid: u64, i: int)
    requires
        0 <= i < s.len(),
        s[i].0 == uid,
        forall|p: int, q: int| 0 <= p < q < s.len() ==> s[p].0 != s[q].0,
    ensures
        lru_contains(s, uid),
        lru_index(s, uid) == i,
{
    assert(0 <= i < s.len() && s[i].0 == uid);
    let j = lru_index(s, uid);
    assert(0 <= j < s.len() && s[j].0 == uid);
    if i < j {
        assert(s[i].0 != s[j].0);
    } else if j < i {
        assert(s[j].0 != s[i].0);
    }
}

} // verus!
