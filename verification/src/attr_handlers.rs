//! Attribute handlers: per-key transformers applied to captured fields
//! before a record goes out.
//!
//! A handler is matched on a field's exact name and yields the remote
//! key and value to emit in its place. The default table renames the
//! conventional keys (`name`, `message`, `severity`, source locations),
//! promotes timestamps, and turns a remote timeline reference into a
//! derived remote timeline id. A field no handler matches falls back to
//! a by-type conversion under the `event.` prefix.

use vstd::prelude::*;

use crate::fields::TracingValue;
use crate::fields::TracingValueV;
use crate::ids::spec_timeline_id;
use crate::ids::timeline_id;
use crate::ingest::spec_value_to_attr_val;
use crate::ingest::tracing_value_to_attr_val;
use crate::keys::normalize_event_key;
use crate::keys::spec_prefixed;
use crate::types::AttrVal;
use crate::types::AttrValV;
use crate::types::RunId;

verus! {

/// The transformation a configured handler applies.
///
/// The default handlers are enumerated; a caller may also configure a
/// handler that replaces the field with a fixed key/value pair.
#[derive(Clone, Debug)]
pub enum HandlerKind {
    /// Promote to `event.timestamp`.
    Timestamp,
    /// Promote to `event.interaction.remote_timestamp`.
    RemoteTimestamp,
    /// Derive `event.interaction.remote_timeline_id` from an unsigned
    /// 64-bit user timeline id.
    RemoteTimelineId,
    /// Rename to `event.name`, value converted by type.
    Name,
    /// Rename to `event.severity`, value converted by type.
    Severity,
    /// Rename to `event.source.module`, value converted by type.
    SourceModule,
    /// Rename to `event.source.file`, value converted by type.
    SourceFile,
    /// Replace the field with this fixed key and value.
    Fixed(String, AttrVal),
}

/// A handler bound to the exact field name it matches.
#[derive(Clone, Debug)]
pub struct AttributeHandler {
    pub key: String,
    pub handler: HandlerKind,
}

/// Whether `hs` is the default handler table.
pub open spec fn spec_default_handler_table(hs: Seq<AttributeHandler>) -> bool {
    &&& hs.len() == 8
    &&& hs[0].key@ == "timestamp"@ && hs[0].handler is Timestamp
    &&& hs[1].key@ == "interaction.remote_timestamp"@ && hs[1].handler is RemoteTimestamp
    &&& hs[2].key@ == "interaction.remote_timeline_id"@ && hs[2].handler is RemoteTimelineId
    &&& hs[3].key@ == "name"@ && hs[3].handler is Name
    &&& hs[4].key@ == "message"@ && hs[4].handler is Name
    &&& hs[5].key@ == "severity"@ && hs[5].handler is Severity
    &&& hs[6].key@ == "source.module"@ && hs[6].handler is SourceModule
    &&& hs[7].key@ == "source.file"@ && hs[7].handler is SourceFile
}

impl AttributeHandler {
    /// Bind `handler` to the field name `key`.
    pub fn new(key: String, handler: HandlerKind) -> (r: Self)
        ensures
            r.key@ == key@,
            r.handler == handler,
    {
        Self { key, handler }
    }

    /// The default handler table.
    pub fn default_handlers() -> (r: Vec<AttributeHandler>)
        ensures
            spec_default_handler_table(r@),
    {
        let mut v: Vec<AttributeHandler> = Vec::new();
        v.push(AttributeHandler::new(String::from_str("timestamp"), HandlerKind::Timestamp));
        v.push(
            AttributeHandler::new(
                String::from_str("interaction.remote_timestamp"),
                HandlerKind::RemoteTimestamp,
            ),
        );
        v.push(
            AttributeHandler::new(
                String::from_str("interaction.remote_timeline_id"),
                HandlerKind::RemoteTimelineId,
            ),
        );
        v.push(AttributeHandler::new(String::from_str("name"), HandlerKind::Name));
        v.push(AttributeHandler::new(String::from_str("message"), HandlerKind::Name));
        v.push(AttributeHandler::new(String::from_str("severity"), HandlerKind::Severity));
        v.push(
            AttributeHandler::new(String::from_str("source.module"), HandlerKind::SourceModule),
        );
        v.push(AttributeHandler::new(String::from_str("source.file"), HandlerKind::SourceFile));
        v
    }
}

/// Timestamp promotion: a non-negative integer or a big integer in
/// unsigned 64-bit range becomes a timestamp; an existing timestamp
/// stays; everything else passes through unchanged.
pub open spec fn spec_promote_timestamp(v: AttrValV) -> AttrValV {
    match v {
        AttrValV::Integer(i) => if i >= 0 {
            AttrValV::Timestamp(i as u64)
        } else {
            AttrValV::Integer(i)
        },
        AttrValV::BigInt(i) => if 0 <= i <= u64::MAX {
            AttrValV::Timestamp(i as u64)
        } else {
            AttrValV::BigInt(i)
        },
        other => other,
    }
}

fn timestamp_inner(tracing_val: TracingValue) -> (r: AttrVal)
    ensures
        r@ == spec_promote_timestamp(spec_value_to_attr_val(tracing_val@)),
{
    let attrval = tracing_value_to_attr_val(tracing_val);
    match attrval {
        AttrVal::Integer(i) => if i >= 0 {
            AttrVal::Timestamp(i as u64)
        } else {
            AttrVal::Integer(i)
        },
        AttrVal::BigInt(i) => if 0 <= i && i <= u64::MAX as i128 {
            AttrVal::Timestamp(i as u64)
        } else {
            AttrVal::BigInt(i)
        },
        x => x,
    }
}

/// What applying `handler` to field (`key`, `value`) yields under run
/// id `run`: the remote key and the remote value.
pub open spec fn spec_apply_handler(
    handler: HandlerKind,
    key: Seq<char>,
    value: TracingValueV,
    run: RunId,
) -> (Seq<char>, AttrValV) {
    match handler {
        HandlerKind::Timestamp => (
            "event.timestamp"@,
            spec_promote_timestamp(spec_value_to_attr_val(value)),
        ),
        HandlerKind::RemoteTimestamp => (
            "event.interaction.remote_timestamp"@,
            spec_promote_timestamp(spec_value_to_attr_val(value)),
        ),
        HandlerKind::RemoteTimelineId => (
            "event.interaction.remote_timeline_id"@,
            match value {
                TracingValueV::U64(id) => AttrValV::TimelineId(spec_timeline_id(run, id)),
                other => spec_value_to_attr_val(other),
            },
        ),
        HandlerKind::Name => ("event.name"@, spec_value_to_attr_val(value)),
        HandlerKind::Severity => ("event.severity"@, spec_value_to_attr_val(value)),
        HandlerKind::SourceModule => ("event.source.module"@, spec_value_to_attr_val(value)),
        HandlerKind::SourceFile => ("event.source.file"@, spec_value_to_attr_val(value)),
        HandlerKind::Fixed(k, v) => (k@, v@),
    }
}

/// Apply a handler to a captured field.
pub fn apply_handler(
    handler: &HandlerKind,
    key: &String,
    value: TracingValue,
    run: &RunId,
) -> (r: (String, AttrVal))
    ensures
        (r.0@, r.1@) == spec_apply_handler(*handler, key@, value@, *run),
{
    match handler {
        HandlerKind::Timestamp => (
            String::from_str("event.timestamp"),
            timestamp_inner(value),
        ),
        HandlerKind::RemoteTimestamp => (
            String::from_str("event.interaction.remote_timestamp"),
            timestamp_inner(value),
        ),
        HandlerKind::RemoteTimelineId => {
            let attrval = match value {
                TracingValue::U64(id) => AttrVal::TimelineId(timeline_id(run, id)),
                other => tracing_value_to_attr_val(other),
            };
            (String::from_str("event.interaction.remote_timeline_id"), attrval)
        },
        HandlerKind::Name => (String::from_str("event.name"), tracing_value_to_attr_val(value)),
        HandlerKind::Severity => (
            String::from_str("event.severity"),
            tracing_value_to_attr_val(value),
        ),
        HandlerKind::SourceModule => (
            String::from_str("event.source.module"),
            tracing_value_to_attr_val(value),
        ),
        HandlerKind::SourceFile => (
            String::from_str("event.source.file"),
            tracing_value_to_attr_val(value),
        ),
        HandlerKind::Fixed(k, v) => (k.clone(), v.dup()),
    }
}

/// What the fallback yields for an unmatched field: the value
/// converted by type, under the key normalized into event scope.
pub open spec fn spec_event_fallback(key: Seq<char>, value: TracingValueV) -> (
    Seq<char>,
    AttrValV,
) {
    (spec_prefixed(key, "event."@), spec_value_to_attr_val(value))
}

/// The fallback conversion for a field no handler matches.
pub fn event_fallback(tracing_key: String, tracing_val: TracingValue) -> (r: (String, AttrVal))
    ensures
        (r.0@, r.1@) == spec_event_fallback(tracing_key@, tracing_val@),
{
    let attrval = tracing_value_to_attr_val(tracing_val);
    let key = normalize_event_key(&tracing_key);
    (key, attrval)
}

/// The handler configured for exact field name `key`, if any; the
/// first match in table order wins.
pub open spec fn spec_handler_for(hs: Seq<AttributeHandler>, key: Seq<char>) -> Option<
    HandlerKind,
>
    decreases hs.len(),
{
    if hs.len() == 0 {
        None
    } else if hs[0].key@ == key {
        Some(hs[0].handler)
    } else {
        spec_handler_for(hs.drop_first(), key)
    }
}

/// What the handler-or-fallback step yields for one captured field.
pub open spec fn spec_route_field(
    hs: Seq<AttributeHandler>,
    key: Seq<char>,
    value: TracingValueV,
    run: RunId,
) -> (Seq<char>, AttrValV) {
    match spec_handler_for(hs, key) {
        Some(h) => spec_apply_handler(h, key, value, run),
        None => spec_event_fallback(key, value),
    }
}

/// Run one captured field through its configured handler, or through
/// the fallback if none matches.
pub fn route_field(
    handlers: &Vec<AttributeHandler>,
    key: String,
    value: TracingValue,
    run: &RunId,
) -> (r: (String, AttrVal))
    ensures
        (r.0@, r.1@) == spec_route_field(handlers@, key@, value@, *run),
{
    let n: usize = handlers.len();
    let mut i: usize = 0;
    while i < n
        invariant
            n == handlers@.len(),
            i <= n,
            forall|j: int| 0 <= j < i ==> handlers@[j].key@ != key@,
        decreases n - i,
    {
        if crate::fields::string_eq(&handlers[i].key, &key) {
            proof {
                lemma_handler_for_found(handlers@, key@, i as int);
            }
            return apply_handler(&handlers[i].handler, &key, value, run);
        }
        i = i + 1;
    }
    proof {
        lemma_handler_for_absent(handlers@, key@);
    }
    event_fallback(key, value)
}

/// A first match at position `i` determines the configured handler.
proof fn lemma_handler_for_found(hs: Seq<AttributeHandler>, key: Seq<char>, i: int)
    requires
        0 <= i < hs.len(),
        hs[i].key@ == key,
        forall|j: int| 0 <= j < i ==> hs[j].key@ != key,
    ensures
        spec_handler_for(hs, key) == Some(hs[i].handler),
    decreases hs.len(),
{
    if i > 0 {
        assert(hs.drop_first()[i - 1] == hs[i]);
        lemma_handler_for_found(hs.drop_first(), key, i - 1);
    }
}

/// If no entry matches, no handler is configured.
proof fn lemma_handler_for_absent(hs: Seq<AttributeHandler>, key: Seq<char>)
    requires
        forall|j: int| 0 <= j < hs.len() ==> hs[j].key@ != key,
    ensures
        spec_handler_for(hs, key) is None,
    decreases hs.len(),
{
    if hs.len() > 0 {
        lemma_handler_for_absent(hs.drop_first(), key);
    }
}

/// Promote a captured timestamp field (nanoseconds) to the
/// `event.timestamp` attribute; see the timestamp promotion rule.
pub fn timestamp(
    tracing_key: &str,
    tracing_val: TracingValue,
    run_id: &RunId,
) -> (r: (String, AttrVal))
    ensures
        (r.0@, r.1@) == spec_apply_handler(
            HandlerKind::Timestamp,
            tracing_key@,
            tracing_val@,
            *run_id,
        ),
{
    apply_handler(&HandlerKind::Timestamp, &String::from_str(tracing_key), tracing_val, run_id)
}

/// Promote a captured remote timestamp field to the
/// `event.interaction.remote_timestamp` attribute.
pub fn remote_timestamp(
    tracing_key: &str,
    tracing_val: TracingValue,
    run_id: &RunId,
) -> (r: (String, AttrVal))
    ensures
        (r.0@, r.1@) == spec_apply_handler(
            HandlerKind::RemoteTimestamp,
            tracing_key@,
            tracing_val@,
            *run_id,
        ),
{
    apply_handler(
        &HandlerKind::RemoteTimestamp,
        &String::from_str(tracing_key),
        tracing_val,
        run_id,
    )
}

/// Derive the `event.interaction.remote_timeline_id` attribute from an
/// unsigned 64-bit user timeline id; other value types convert by
/// type.
pub fn remote_timeline_id(
    tracing_key: &str,
    tracing_val: TracingValue,
    run_id: &RunId,
) -> (r: (String, AttrVal))
    ensures
        (r.0@, r.1@) == spec_apply_handler(
            HandlerKind::RemoteTimelineId,
            tracing_key@,
            tracing_val@,
            *run_id,
        ),
{
    apply_handler(
        &HandlerKind::RemoteTimelineId,
        &String::from_str(tracing_key),
        tracing_val,
        run_id,
    )
}

/// Rename a captured name (or message) field to `event.name`.
pub fn name(
    tracing_key: &str,
    tracing_val: TracingValue,
    run_id: &RunId,
) -> (r: (String, AttrVal))
    ensures
        (r.0@, r.1@) == spec_apply_handler(
            HandlerKind::Name,
            tracing_key@,
            tracing_val@,
            *run_id,
        ),
{
    apply_handler(&HandlerKind::Name, &String::from_str(tracing_key), tracing_val, run_id)
}

/// Rename a captured severity field to `event.severity`.
pub fn severity(
    tracing_key: &str,
    tracing_val: TracingValue,
    run_id: &RunId,
) -> (r: (String, AttrVal))
    ensures
        (r.0@, r.1@) == spec_apply_handler(
            HandlerKind::Severity,
            tracing_key@,
            tracing_val@,
            *run_id,
        ),
{
    apply_handler(&HandlerKind::Severity, &String::from_str(tracing_key), tracing_val, run_id)
}

/// Rename a captured source-module field to `event.source.module`.
pub fn source_module(
    tracing_key: &str,
    tracing_val: TracingValue,
    run_id: &RunId,
) -> (r: (String, AttrVal))
    ensures
        (r.0@, r.1@) == spec_apply_handler(
            HandlerKind::SourceModule,
            tracing_key@,
            tracing_val@,
            *run_id,
        ),
{
    apply_handler(
        &HandlerKind::SourceModule,
        &String::from_str(tracing_key),
        tracing_val,
        run_id,
    )
}

/// Rename a captured source-file field to `event.source.file`.
pub fn source_file(
    tracing_key: &str,
    tracing_val: TracingValue,
    run_id: &RunId,
) -> (r: (String, AttrVal))
    ensures
        (r.0@, r.1@) == spec_apply_handler(
            HandlerKind::SourceFile,
            tracing_key@,
            tracing_val@,
            *run_id,
        ),
{
    apply_handler(&HandlerKind::SourceFile, &String::from_str(tracing_key), tracing_val, run_id)
}

} // verus!
