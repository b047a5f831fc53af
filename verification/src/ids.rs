//! Remote identifier derivation.
//!
//! A remote timeline id is derived deterministically from the run id
//! and a user timeline id by the namespaced (version 5) UUID
//! construction; the run id itself is a random (version 4) UUID. Both
//! come from the `uuid` crate and are carried as 128-bit integers in
//! the byte order of `Uuid::as_u128`.

use vstd::bytes::u64_to_le_bytes;
use vstd::bytes::spec_u64_to_le_bytes;
use vstd::prelude::*;

use crate::types::RunId;
use crate::types::TimelineId;

verus! {

/// The value of the namespaced (version 5) UUID over the given
/// namespace and name bytes, as a 128-bit big-endian integer.
pub uninterp spec fn uuid_v5_of(namespace: u128, name: Seq<u8>) -> u128;

/// The hyphenated lowercase text form of the UUID with the given
/// 128-bit big-endian value.
pub uninterp spec fn uuid_text_of(id: u128) -> Seq<char>;

/// Relies on `uuid::Uuid::new_v4`: a random UUID; nothing is promised
/// of its value.
#[verifier::external_body]
fn uuid_new_v4() -> u128 {
    uuid::Uuid::new_v4().as_u128()
}

/// Relies on `uuid::Uuid::new_v5`: a UUID computed by hashing the
/// namespace and name bytes, a function of those bytes alone.
#[verifier::external_body]
fn uuid_new_v5(namespace: u128, name: &Vec<u8>) -> (r: u128)
    ensures
        r == uuid_v5_of(namespace, name@),
{
    uuid::Uuid::new_v5(&uuid::Uuid::from_u128(namespace), name.as_slice()).as_u128()
}

/// Relies on `uuid::Uuid`'s `Display` form: the hyphenated lowercase
/// encoding, 36 characters, a function of the UUID value alone.
#[verifier::external_body]
fn uuid_to_text(id: u128) -> (r: String)
    ensures
        r@ == uuid_text_of(id),
        r@.len() == 36,
{
    uuid::Uuid::from_u128(id).to_string()
}

/// Generate the process-wide run identifier: a fresh random UUID.
pub fn generate_run_id() -> RunId {
    RunId { id: uuid_new_v4() }
}

/// The remote timeline id derived from a run id and a user timeline
/// id: the v5 UUID over the run id namespace and the id's eight
/// little-endian bytes.
pub open spec fn spec_timeline_id(run_id: RunId, user_timeline_id: u64) -> TimelineId {
    TimelineId { id: uuid_v5_of(run_id.id, spec_u64_to_le_bytes(user_timeline_id)) }
}

/// Convert a run id and a user timeline id into the remote timeline
/// id. The same pair always yields the same remote id.
pub fn timeline_id(run_id: &RunId, user_timeline_id: u64) -> (r: TimelineId)
    ensures
        r == spec_timeline_id(*run_id, user_timeline_id),
{
    let name = u64_to_le_bytes(user_timeline_id);
    TimelineId { id: uuid_new_v5(run_id.id, &name) }
}

/// The hyphenated text form of a run id, published as timeline
/// metadata.
pub fn run_id_text(run_id: &RunId) -> (r: String)
    ensures
        r@ == uuid_text_of(run_id.id),
        r@.len() == 36,
{
    uuid_to_text(run_id.id)
}

} // verus!
