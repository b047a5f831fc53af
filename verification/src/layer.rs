//! The producer front end's decisions: wrap one captured message into
//! the envelope the consumer receives, allocate local span ids, and
//! accept every record regardless of level.

use vstd::prelude::*;

use crate::common::UserTimelineInfo;
use crate::ingest::Message;
use crate::ingest::SpanId;
use crate::ingest::WrappedMessage;

verus! {

/// Whether a record should be captured at all: always. The pipeline
/// does no level filtering; filtering belongs to the facade.
pub fn enabled() -> (r: bool)
    ensures
        r,
{
    true
}

/// Wrap one captured message into the envelope the consumer receives:
/// the message itself, its tick stamp, and the producer context's
/// timeline identity.
pub fn wrap_message(message: Message, tick_ns: u128, info: UserTimelineInfo) -> (r:
    WrappedMessage)
    ensures
        r.message == message,
        r.tick_ns == tick_ns,
        r.timeline_name@ == info.name@,
        r.user_timeline_id == info.user_id,
{
    WrappedMessage {
        message,
        tick_ns,
        timeline_name: info.name,
        user_timeline_id: info.user_id,
    }
}

/// The next local span id from the producer's counter value: counter
/// values are handed out in order and zero is never a span id, so a
/// zero counter (a wrapped counter) yields no id.
pub fn span_id_from_counter(counter: u64) -> (r: Option<SpanId>)
    ensures
        counter != 0 ==> r == Some(counter),
        counter == 0 ==> r is None,
{
    if counter != 0 {
        Some(counter)
    } else {
        None
    }
}

} // verus!
