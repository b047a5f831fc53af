//! The ingest consumer's data model: the record envelope produced by
//! the facade callbacks, the error taxonomy, and the conversion from
//! captured field values to remote attribute values.

use vstd::prelude::*;

use crate::assoc::assoc_lookup;
use crate::attr_bag::spec_bag_insert;
use crate::attr_bag::spec_bag_insert_absent;
use crate::attr_bag::AttrBag;
use crate::attr_handlers::spec_route_field;
use crate::attr_handlers::route_field;
use crate::attr_handlers::AttributeHandler;
use crate::fields::FieldBag;
use crate::fields::TracingValue;
use crate::fields::TracingValueV;
use crate::interner::AttrKeyHandle;
use crate::interner::KeyCache;
use crate::keys::normalize_event_key;
use crate::keys::spec_prefixed;
use crate::options::Options;
use crate::span_names::SpanNameTable;
use crate::timeline_lru::TimelineLru;
use crate::types::AttrVal;
use crate::types::AttrValV;
use crate::types::RunId;
use crate::types::SpanMetadata;
use crate::types::TimelineId;

verus! {

/// A local span id: a process-wide non-zero 64-bit counter value.
pub type SpanId = u64;

/// A failure while establishing the remote session.
#[derive(Debug)]
pub enum ConnectError {
    /// No auth token was provided.
    AuthRequired,
    /// The session refused the provided auth token; the detail text
    /// comes from the session.
    AuthFailed(String),
    /// Any other failure, carrying its detail text; there is no way to
    /// handle it without human intervention.
    UnexpectedFailure(String),
}

/// A failure while ingesting one record; the consumer logs and drops
/// the record and continues.
#[derive(Debug)]
pub enum IngestError {
    /// Any failure from the session, carrying its detail text.
    UnexpectedFailure(String),
}

/// One callback's worth of captured data.
pub enum Message {
    NewSpan { id: SpanId, metadata: SpanMetadata, records: FieldBag },
    Record { span: SpanId, records: FieldBag },
    RecordFollowsFrom { span: SpanId, follows: SpanId },
    Event { metadata: SpanMetadata, records: FieldBag },
    Enter { span: SpanId },
    Exit { span: SpanId },
    Close { span: SpanId },
    IdChange { old_id: SpanId, new_id: SpanId },
}

/// Whether a message's captured fields are well-formed.
pub open spec fn spec_message_wf(m: Message) -> bool {
    match m {
        Message::NewSpan { records, .. } => records.wf(),
        Message::Record { records, .. } => records.wf(),
        Message::Event { records, .. } => records.wf(),
        _ => true,
    }
}

/// The queued envelope: a message stamped with its tick and the
/// producer's timeline identity.
pub struct WrappedMessage {
    pub message: Message,
    /// Nanoseconds of monotonic time since process start.
    pub tick_ns: u128,
    pub timeline_name: String,
    pub user_timeline_id: u64,
}

/// How a captured field value turns into a remote attribute value:
/// strings, signed integers and booleans keep their type, an unsigned
/// integer widens to a big integer, a float stays a float.
pub open spec fn spec_value_to_attr_val(v: TracingValueV) -> AttrValV {
    match v {
        TracingValueV::String(s) => AttrValV::String(s),
        TracingValueV::F64(bits) => AttrValV::Float(bits),
        TracingValueV::I64(n) => AttrValV::Integer(n),
        TracingValueV::U64(n) => AttrValV::BigInt(n as i128),
        TracingValueV::Bool(b) => AttrValV::Bool(b),
    }
}

/// Convert a captured field value to a remote attribute value.
pub fn tracing_value_to_attr_val(value: TracingValue) -> (r: AttrVal)
    ensures
        r@ == spec_value_to_attr_val(value@),
{
    match value {
        TracingValue::String(s) => AttrVal::String(s),
        TracingValue::F64(bits) => AttrVal::Float(bits),
        TracingValue::I64(n) => AttrVal::Integer(n),
        TracingValue::U64(n) => AttrVal::BigInt(n as i128),
        TracingValue::Bool(b) => AttrVal::Bool(b),
    }
}

/// The view of an ordered attribute list.
pub open spec fn kvs_view(s: Seq<(String, AttrVal)>) -> Seq<(Seq<char>, AttrValV)> {
    Seq::new(s.len(), |i: int| (s[i].0@, s[i].1@))
}

/// One translated record, ready for interning and transmission: its
/// tick and its ordered attribute list, keyed by key string.
pub struct EventRecord {
    pub tick_ns: u128,
    pub attrs: Vec<(String, AttrVal)>,
}

impl EventRecord {
    /// The attribute list over views.
    pub open spec fn attrs_v(&self) -> Seq<(Seq<char>, AttrValV)> {
        kvs_view(self.attrs@)
    }
}

/// The attribute bag after routing every captured field through its
/// handler or the fallback, in capture order.
pub open spec fn spec_route_records(
    hs: Seq<AttributeHandler>,
    run: RunId,
    records: Seq<(Seq<char>, TracingValueV)>,
    bag: Seq<(Seq<char>, AttrValV)>,
) -> Seq<(Seq<char>, AttrValV)>
    decreases records.len(),
{
    if records.len() == 0 {
        bag
    } else {
        spec_route_records(
            hs,
            run,
            records.drop_first(),
            spec_bag_insert(
                bag,
                spec_route_field(hs, records[0].0, records[0].1, run).0,
                spec_route_field(hs, records[0].0, records[0].1, run).1,
            ),
        )
    }
}

/// The attribute bag after filling the reserved attributes that the
/// captured fields did not provide: name and severity from the
/// metadata, source location when known, the tick while it fits an
/// unsigned 64-bit value, and the wall-clock timestamp when one could
/// be read.
pub open spec fn spec_fill_defaults(
    bag: Seq<(Seq<char>, AttrValV)>,
    metadata: SpanMetadata,
    tick_ns: u128,
    wallclock_ns: Option<u64>,
) -> Seq<(Seq<char>, AttrValV)> {
    let b = spec_bag_insert_absent(bag, "event.name"@, AttrValV::String(metadata.name@));
    let b = spec_bag_insert_absent(
        b,
        "event.severity"@,
        AttrValV::String(metadata.level.spec_severity()),
    );
    let b = match metadata.module {
        Some(m) => spec_bag_insert_absent(b, "event.source.module"@, AttrValV::String(m@)),
        None => b,
    };
    let b = match metadata.file {
        Some(f) => spec_bag_insert_absent(b, "event.source.file"@, AttrValV::String(f@)),
        None => b,
    };
    let b = match metadata.line {
        Some(l) => spec_bag_insert_absent(b, "event.source.line"@, AttrValV::Integer(l as i64)),
        None => b,
    };
    let b = if tick_ns <= u64::MAX {
        spec_bag_insert_absent(b, "event.internal.rs.tick"@, AttrValV::LogicalTime(tick_ns as u64))
    } else {
        b
    };
    match wallclock_ns {
        Some(w) => spec_bag_insert_absent(b, "event.timestamp"@, AttrValV::Timestamp(w)),
        None => b,
    }
}

/// The common attribute packing: route every captured field, then fill
/// the reserved attributes that are still absent.
pub open spec fn spec_pack_common(
    hs: Seq<AttributeHandler>,
    run: RunId,
    records: Seq<(Seq<char>, TracingValueV)>,
    metadata: SpanMetadata,
    tick_ns: u128,
    wallclock_ns: Option<u64>,
) -> Seq<(Seq<char>, AttrValV)> {
    spec_fill_defaults(
        spec_route_records(hs, run, records, Seq::empty()),
        metadata,
        tick_ns,
        wallclock_ns,
    )
}

/// The ingest consumer's state: the caches and tables it owns, the run
/// id, and a mirror of the timeline the session is currently bound to.
/// The network session itself lives with the caller, which performs the
/// session calls this state machine asks for.
pub struct ModalityIngest {
    pub global_metadata: Vec<(String, AttrVal)>,
    pub event_keys: KeyCache,
    pub timeline_keys: KeyCache,
    pub span_names: SpanNameTable,
    pub run_id: RunId,
    pub timeline_map: TimelineLru,
    pub report_handlers: Vec<AttributeHandler>,
    pub bound_timeline: TimelineId,
}

impl ModalityIngest {
    /// Caches and tables are well-formed.
    pub open spec fn wf(&self) -> bool {
        &&& self.event_keys.wf()
        &&& self.timeline_keys.wf()
        &&& self.span_names.wf()
        &&& self.timeline_map.wf()
    }

    /// Everything but the event-key cache is unchanged.
    pub open spec fn frame_except_event_keys(pre: Self, post: Self) -> bool {
        &&& post.global_metadata == pre.global_metadata
        &&& post.timeline_keys == pre.timeline_keys
        &&& post.span_names == pre.span_names
        &&& post.run_id == pre.run_id
        &&& post.timeline_map == pre.timeline_map
        &&& post.report_handlers == pre.report_handlers
        &&& post.bound_timeline == pre.bound_timeline
    }

    /// Everything but the timeline-key cache is unchanged.
    pub open spec fn frame_except_timeline_keys(pre: Self, post: Self) -> bool {
        &&& post.global_metadata == pre.global_metadata
        &&& post.event_keys == pre.event_keys
        &&& post.span_names == pre.span_names
        &&& post.run_id == pre.run_id
        &&& post.timeline_map == pre.timeline_map
        &&& post.report_handlers == pre.report_handlers
        &&& post.bound_timeline == pre.bound_timeline
    }

    /// Everything but the span-name table is unchanged.
    pub open spec fn frame_except_span_names(pre: Self, post: Self) -> bool {
        &&& post.global_metadata == pre.global_metadata
        &&& post.event_keys == pre.event_keys
        &&& post.timeline_keys == pre.timeline_keys
        &&& post.run_id == pre.run_id
        &&& post.timeline_map == pre.timeline_map
        &&& post.report_handlers == pre.report_handlers
        &&& post.bound_timeline == pre.bound_timeline
    }

    /// Everything but the timeline residency cache is unchanged.
    pub open spec fn frame_except_lru(pre: Self, post: Self) -> bool {
        &&& post.global_metadata == pre.global_metadata
        &&& post.event_keys == pre.event_keys
        &&& post.timeline_keys == pre.timeline_keys
        &&& post.span_names == pre.span_names
        &&& post.run_id == pre.run_id
        &&& post.report_handlers == pre.report_handlers
        &&& post.bound_timeline == pre.bound_timeline
    }

    /// Look up the interned handle for an event-scoped key.
    ///
    /// The key is first normalized into event scope. A hit returns the
    /// memoized handle. A miss returns the normalized key string: the
    /// caller must request a handle from the session and store it back
    /// with `event_key_store`.
    pub fn event_key_lookup(&self, key: &String) -> (r: Result<AttrKeyHandle, String>)
        requires
            self.wf(),
        ensures
            match r {
                Ok(h) => self.event_keys.spec_get(spec_prefixed(key@, "event."@)) == Some(h),
                Err(nk) => {
                    &&& nk@ == spec_prefixed(key@, "event."@)
                    &&& self.event_keys.spec_get(nk@) is None
                },
            },
    {
        let nk = normalize_event_key(key);
        match self.event_keys.get(&nk) {
            Some(h) => Ok(h),
            None => Err(nk),
        }
    }

    /// Memoize the handle the session assigned to a normalized
    /// event-scoped key.
    pub fn event_key_store(&mut self, normalized: String, handle: AttrKeyHandle)
        requires
            old(self).wf(),
            old(self).event_keys.spec_get(normalized@) is None,
        ensures
            final(self).wf(),
            Self::frame_except_event_keys(*old(self), *final(self)),
            final(self).event_keys@ == old(self).event_keys@.push((normalized@, handle)),
            final(self).event_keys.spec_get(normalized@) == Some(handle),
            forall|k: Seq<char>| k != normalized@ ==> final(self).event_keys.spec_get(k) == old(
                self,
            ).event_keys.spec_get(k),
    {
        self.event_keys.store(normalized, handle);
    }

    /// Look up the interned handle for a timeline-scoped key.
    pub fn timeline_key_lookup(&self, key: &String) -> (r: Result<AttrKeyHandle, String>)
        requires
            self.wf(),
        ensures
            match r {
                Ok(h) => self.timeline_keys.spec_get(key@) == Some(h),
                Err(nk) => {
                    &&& nk@ == key@
                    &&& self.timeline_keys.spec_get(key@) is None
                },
            },
    {
        match self.timeline_keys.get(key) {
            Some(h) => Ok(h),
            None => Err(key.clone()),
        }
    }

    /// Memoize the handle the session assigned to a timeline-scoped
    /// key.
    pub fn timeline_key_store(&mut self, key: String, handle: AttrKeyHandle)
        requires
            old(self).wf(),
            old(self).timeline_keys.spec_get(key@) is None,
        ensures
            final(self).wf(),
            Self::frame_except_timeline_keys(*old(self), *final(self)),
            final(self).timeline_keys@ == old(self).timeline_keys@.push((key@, handle)),
            final(self).timeline_keys.spec_get(key@) == Some(handle),
            forall|k: Seq<char>| k != key@ ==> final(self).timeline_keys.spec_get(k) == old(
                self,
            ).timeline_keys.spec_get(k),
    {
        self.timeline_keys.store(key, handle);
    }

    /// Route every captured field through handler-or-fallback into a
    /// fresh bag, then fill the reserved attributes that are still
    /// absent from the metadata, the tick, and the wall clock read the
    /// caller took at translation time.
    pub fn pack_common_attrs(
        &self,
        records: FieldBag,
        metadata: &SpanMetadata,
        tick_ns: u128,
        wallclock_ns: Option<u64>,
    ) -> (r: AttrBag)
        requires
            records.wf(),
        ensures
            r.wf(),
            r@ == spec_pack_common(
                self.report_handlers@,
                self.run_id,
                records@,
                *metadata,
                tick_ns,
                wallclock_ns,
            ),
    {
        let ghost hs = self.report_handlers@;
        let ghost run = self.run_id;
        let ghost all = records@;

        let mut bag = AttrBag::new();
        proof {
            assert(all.skip(0) =~= all);
        }
        let n: usize = records.len();
        let mut i: usize = 0;
        while i < n
            invariant
                n == records@.len(),
                i <= n,
                records.wf(),
                bag.wf(),
                hs == self.report_handlers@,
                run == self.run_id,
                all == records@,
                spec_route_records(hs, run, all.skip(i as int), bag@) == spec_route_records(
                    hs,
                    run,
                    all,
                    Seq::empty(),
                ),
            decreases n - i,
        {
            let entry = records.entry_at(i);
            let name = entry.0.clone();
            let value = entry.1.dup();
            let ghost before = bag@;
            let kv = route_field(&self.report_handlers, name, value, &self.run_id);
            bag.insert(kv.0, kv.1);
            proof {
                assert(all.skip(i as int)[0] == all[i as int]);
                assert(all.skip(i as int).drop_first() =~= all.skip(i as int + 1));
                assert(bag@ == spec_bag_insert(
                    before,
                    spec_route_field(hs, all[i as int].0, all[i as int].1, run).0,
                    spec_route_field(hs, all[i as int].0, all[i as int].1, run).1,
                ));
            }
            i = i + 1;
        }
        proof {
            assert(all.skip(n as int) =~= Seq::<(Seq<char>, TracingValueV)>::empty());
            assert(bag@ == spec_route_records(hs, run, all, Seq::empty()));
        }

        bag.insert_if_absent(
            String::from_str("event.name"),
            AttrVal::String(metadata.name.clone()),
        );
        bag.insert_if_absent(
            String::from_str("event.severity"),
            AttrVal::String(metadata.level.severity()),
        );
        match &metadata.module {
            Some(m) => bag.insert_if_absent(
                String::from_str("event.source.module"),
                AttrVal::String(m.clone()),
            ),
            None => {},
        }
        match &metadata.file {
            Some(f) => bag.insert_if_absent(
                String::from_str("event.source.file"),
                AttrVal::String(f.clone()),
            ),
            None => {},
        }
        match metadata.line {
            Some(l) => bag.insert_if_absent(
                String::from_str("event.source.line"),
                AttrVal::Integer(l as i64),
            ),
            None => {},
        }
        if tick_ns <= u64::MAX as u128 {
            bag.insert_if_absent(
                String::from_str("event.internal.rs.tick"),
                AttrVal::LogicalTime(tick_ns as u64),
            );
        }
        match wallclock_ns {
            Some(w) => bag.insert_if_absent(
                String::from_str("event.timestamp"),
                AttrVal::Timestamp(w),
            ),
            None => {},
        }
        bag
    }
}

/// The display name a new span gets: the first string-valued `name` or
/// `message` field, else the metadata name.
pub open spec fn spec_span_display_name(
    records: Seq<(Seq<char>, TracingValueV)>,
    meta_name: Seq<char>,
) -> Seq<char> {
    match assoc_lookup(records, "name"@) {
        Some(TracingValueV::String(s)) => s,
        _ => match assoc_lookup(records, "message"@) {
            Some(TracingValueV::String(s)) => s,
            _ => meta_name,
        },
    }
}

/// The record-kind attribute value: a captured `modality.kind` field
/// converted by type, else the given literal.
pub open spec fn spec_kind_attr(
    records: Seq<(Seq<char>, TracingValueV)>,
    label: Seq<char>,
) -> AttrValV {
    match assoc_lookup(records, "modality.kind"@) {
        Some(v) => spec_value_to_attr_val(v),
        None => AttrValV::String(label),
    }
}

/// The span-id attribute value: a captured `modality.span_id` field
/// converted by type, else the local id as a big integer.
pub open spec fn spec_span_id_attr(
    records: Seq<(Seq<char>, TracingValueV)>,
    id: SpanId,
) -> AttrValV {
    match assoc_lookup(records, "modality.span_id"@) {
        Some(v) => spec_value_to_attr_val(v),
        None => AttrValV::BigInt(id as i128),
    }
}

/// The attribute list of a new-span record: its display name, kind and
/// span id, then the common packing of the remaining captured fields.
pub open spec fn spec_new_span_attrs(
    hs: Seq<AttributeHandler>,
    run: RunId,
    id: SpanId,
    metadata: SpanMetadata,
    records: Seq<(Seq<char>, TracingValueV)>,
    tick_ns: u128,
    wallclock_ns: Option<u64>,
) -> Seq<(Seq<char>, AttrValV)> {
    seq![
        ("event.name"@, AttrValV::String(spec_span_display_name(records, metadata.name@))),
        ("event.internal.rs.kind"@, spec_kind_attr(records, "span:defined"@)),
        ("event.internal.rs.span_id"@, spec_span_id_attr(records, id)),
    ] + spec_pack_common(
        hs,
        run,
        crate::assoc::assoc_remove(
            crate::assoc::assoc_remove(records, "modality.kind"@),
            "modality.span_id"@,
        ),
        metadata,
        tick_ns,
        wallclock_ns,
    )
}

/// The attribute list of an event record: its kind, then the common
/// packing of the remaining captured fields.
pub open spec fn spec_event_attrs(
    hs: Seq<AttributeHandler>,
    run: RunId,
    metadata: SpanMetadata,
    records: Seq<(Seq<char>, TracingValueV)>,
    tick_ns: u128,
    wallclock_ns: Option<u64>,
) -> Seq<(Seq<char>, AttrValV)> {
    seq![("event.internal.rs.kind"@, spec_kind_attr(records, "event"@))] + spec_pack_common(
        hs,
        run,
        crate::assoc::assoc_remove(records, "modality.kind"@),
        metadata,
        tick_ns,
        wallclock_ns,
    )
}

/// The attribute list of an enter or exit record: the stored span name
/// under the given prefix when the span is known, the kind label, the
/// span id, and the tick while it fits an unsigned 64-bit value. These
/// records deliberately omit the metadata-derived attributes.
pub open spec fn spec_enter_exit_attrs(
    names: Seq<(SpanId, Seq<char>)>,
    span: SpanId,
    label: Seq<char>,
    name_prefix: Seq<char>,
    tick_ns: u128,
) -> Seq<(Seq<char>, AttrValV)> {
    (match assoc_lookup(names, span) {
        Some(n) => seq![("event.name"@, AttrValV::String(name_prefix + n))],
        None => Seq::<(Seq<char>, AttrValV)>::empty(),
    }) + seq![
        ("event.internal.rs.kind"@, AttrValV::String(label)),
        ("event.internal.rs.span_id"@, AttrValV::BigInt(span as i128)),
    ] + (if tick_ns <= u64::MAX {
        seq![("event.internal.rs.tick"@, AttrValV::LogicalTime(tick_ns as u64))]
    } else {
        Seq::<(Seq<char>, AttrValV)>::empty()
    })
}

/// One step of the consumer's translation stage: from the span-name
/// table and one message to the new table and the attribute list of the
/// record to transmit, if the message transmits one.
///
/// New-span stores the display name; close erases it; an id change
/// copies it to the new id; record and follows-from annotations are not
/// transmitted in this schema version.
pub open spec fn spec_step(
    hs: Seq<AttributeHandler>,
    run: RunId,
    names: Seq<(SpanId, Seq<char>)>,
    message: Message,
    tick_ns: u128,
    wallclock_ns: Option<u64>,
) -> (Seq<(SpanId, Seq<char>)>, Option<Seq<(Seq<char>, AttrValV)>>) {
    match message {
        Message::NewSpan { id, metadata, records } => (
            crate::assoc::assoc_insert(
                names,
                id,
                spec_span_display_name(records@, metadata.name@),
            ),
            Some(spec_new_span_attrs(hs, run, id, metadata, records@, tick_ns, wallclock_ns)),
        ),
        Message::Record { .. } => (names, None),
        Message::RecordFollowsFrom { .. } => (names, None),
        Message::Event { metadata, records } => (
            names,
            Some(spec_event_attrs(hs, run, metadata, records@, tick_ns, wallclock_ns)),
        ),
        Message::Enter { span } => (
            names,
            Some(spec_enter_exit_attrs(names, span, "span:enter"@, "enter: "@, tick_ns)),
        ),
        Message::Exit { span } => (
            names,
            Some(spec_enter_exit_attrs(names, span, "span:exit"@, "exit: "@, tick_ns)),
        ),
        Message::Close { span } => (crate::assoc::assoc_remove(names, span), None),
        Message::IdChange { old_id, new_id } => (
            match assoc_lookup(names, old_id) {
                Some(nm) => crate::assoc::assoc_insert(names, new_id, nm),
                None => names,
            },
            None,
        ),
    }
}

/// The display name a new span gets: the first string-valued `name` or
/// `message` field, else the metadata name.
fn span_display_name(records: &FieldBag, metadata: &SpanMetadata) -> (r: String)
    requires
        records.wf(),
    ensures
        r@ == spec_span_display_name(records@, metadata.name@),
{
    if let Some(TracingValue::String(s)) = records.get("name") {
        return s.clone();
    }
    if let Some(TracingValue::String(s)) = records.get("message") {
        return s.clone();
    }
    metadata.name.clone()
}

impl ModalityIngest {
    /// The translation stage of packet handling: update the span-name
    /// table and produce the record to transmit, if this message
    /// transmits one.
    ///
    /// `wallclock_ns` is the caller's reading of the system clock at
    /// translation time, nanoseconds since the UNIX epoch, or `None`
    /// when the reading failed or did not fit.
    pub fn translate_packet(
        &mut self,
        message: Message,
        tick_ns: u128,
        wallclock_ns: Option<u64>,
    ) -> (r: Option<EventRecord>)
        requires
            old(self).wf(),
            spec_message_wf(message),
        ensures
            final(self).wf(),
            Self::frame_except_span_names(*old(self), *final(self)),
            final(self).span_names@ == spec_step(
                old(self).report_handlers@,
                old(self).run_id,
                old(self).span_names@,
                message,
                tick_ns,
                wallclock_ns,
            ).0,
            match r {
                Some(rec) => {
                    &&& rec.tick_ns == tick_ns
                    &&& spec_step(
                        old(self).report_handlers@,
                        old(self).run_id,
                        old(self).span_names@,
                        message,
                        tick_ns,
                        wallclock_ns,
                    ).1 == Some(rec.attrs_v())
                },
                None => spec_step(
                    old(self).report_handlers@,
                    old(self).run_id,
                    old(self).span_names@,
                    message,
                    tick_ns,
                    wallclock_ns,
                ).1 is None,
            },
    {
        match message {
            Message::NewSpan { id, metadata, records } => {
                let mut records = records;
                let name = span_display_name(&records, &metadata);
                self.span_names.insert(id, name.clone());

                let mut attrs: Vec<(String, AttrVal)> = Vec::new();
                attrs.push((String::from_str("event.name"), AttrVal::String(name)));

                let ghost records0 = records@;
                let kind = match records.remove("modality.kind") {
                    Some(v) => tracing_value_to_attr_val(v),
                    None => AttrVal::String(String::from_str("span:defined")),
                };
                attrs.push((String::from_str("event.internal.rs.kind"), kind));

                let ghost records1 = records@;
                let span_id_attr = match records.remove("modality.span_id") {
                    Some(v) => tracing_value_to_attr_val(v),
                    None => AttrVal::BigInt(id as i128),
                };
                attrs.push((String::from_str("event.internal.rs.span_id"), span_id_attr));

                proof {
                    reveal_strlit("modality.kind");
                    reveal_strlit("modality.span_id");
                    assert("modality.kind"@.len() == 13);
                    assert("modality.span_id"@.len() == 16);
                    crate::assoc::lemma_assoc_remove_lookup(
                        records0,
                        "modality.kind"@,
                        "modality.span_id"@,
                    );
                    assert(records1 == crate::assoc::assoc_remove(records0, "modality.kind"@));
                    assert(records@ == crate::assoc::assoc_remove(records1, "modality.span_id"@));
                    assert(kind@ == spec_kind_attr(records0, "span:defined"@));
                    assert(span_id_attr@ == spec_span_id_attr(records0, id));
                }

                let bag = self.pack_common_attrs(records, &metadata, tick_ns, wallclock_ns);
                let mut rest = bag.into_entries();
                attrs.append(&mut rest);

                proof {
                    assert(kvs_view(attrs@) =~= spec_new_span_attrs(
                        self.report_handlers@,
                        self.run_id,
                        id,
                        metadata,
                        records0,
                        tick_ns,
                        wallclock_ns,
                    ));
                }
                Some(EventRecord { tick_ns, attrs })
            },
            Message::Record { span, records } => {
                let _ = span;
                let _ = records;
                None
            },
            Message::RecordFollowsFrom { span, follows } => {
                let _ = span;
                let _ = follows;
                None
            },
            Message::Event { metadata, records } => {
                let mut records = records;
                let mut attrs: Vec<(String, AttrVal)> = Vec::new();

                let ghost records0 = records@;
                let kind = match records.remove("modality.kind") {
                    Some(v) => tracing_value_to_attr_val(v),
                    None => AttrVal::String(String::from_str("event")),
                };
                attrs.push((String::from_str("event.internal.rs.kind"), kind));

                proof {
                    assert(records@ == crate::assoc::assoc_remove(records0, "modality.kind"@));
                    assert(kind@ == spec_kind_attr(records0, "event"@));
                }

                let bag = self.pack_common_attrs(records, &metadata, tick_ns, wallclock_ns);
                let mut rest = bag.into_entries();
                attrs.append(&mut rest);

                proof {
                    assert(kvs_view(attrs@) =~= spec_event_attrs(
                        self.report_handlers@,
                        self.run_id,
                        metadata,
                        records0,
                        tick_ns,
                        wallclock_ns,
                    ));
                }
                Some(EventRecord { tick_ns, attrs })
            },
            Message::Enter { span } => {
                Some(self.enter_exit_record(span, true, tick_ns))
            },
            Message::Exit { span } => {
                Some(self.enter_exit_record(span, false, tick_ns))
            },
            Message::Close { span } => {
                self.span_names.remove(span);
                None
            },
            Message::IdChange { old_id, new_id } => {
                let stored = match self.span_names.get(old_id) {
                    Some(n) => Some(n.clone()),
                    None => None,
                };
                match stored {
                    Some(nm) => self.span_names.insert(new_id, nm),
                    None => {},
                }
                None
            },
        }
    }

    /// The enter or exit record for `span`: the stored span name under
    /// its prefix when known, the kind label, the span id, and the tick
    /// while it fits an unsigned 64-bit value.
    fn enter_exit_record(&self, span: SpanId, entering: bool, tick_ns: u128) -> (r: EventRecord)
        requires
            self.wf(),
        ensures
            r.tick_ns == tick_ns,
            entering ==> r.attrs_v() == spec_enter_exit_attrs(
                self.span_names@,
                span,
                "span:enter"@,
                "enter: "@,
                tick_ns,
            ),
            !entering ==> r.attrs_v() == spec_enter_exit_attrs(
                self.span_names@,
                span,
                "span:exit"@,
                "exit: "@,
                tick_ns,
            ),
    {
        let mut attrs: Vec<(String, AttrVal)> = Vec::new();

        match self.span_names.get(span) {
            Some(n) => {
                let name = if entering {
                    String::from_str("enter: ").concat(n.as_str())
                } else {
                    String::from_str("exit: ").concat(n.as_str())
                };
                attrs.push((String::from_str("event.name"), AttrVal::String(name)));
            },
            None => {},
        }

        let label = if entering {
            String::from_str("span:enter")
        } else {
            String::from_str("span:exit")
        };
        attrs.push((String::from_str("event.internal.rs.kind"), AttrVal::String(label)));
        attrs.push((
            String::from_str("event.internal.rs.span_id"),
            AttrVal::BigInt(span as i128),
        ));

        if tick_ns <= u64::MAX as u128 {
            attrs.push((
                String::from_str("event.internal.rs.tick"),
                AttrVal::LogicalTime(tick_ns as u64),
            ));
        }

        proof {
            if entering {
                assert(kvs_view(attrs@) =~= spec_enter_exit_attrs(
                    self.span_names@,
                    span,
                    "span:enter"@,
                    "enter: "@,
                    tick_ns,
                ));
            } else {
                assert(kvs_view(attrs@) =~= spec_enter_exit_attrs(
                    self.span_names@,
                    span,
                    "span:exit"@,
                    "exit: "@,
                    tick_ns,
                ));
            }
        }
        EventRecord { tick_ns, attrs }
    }
}

/// What the timeline binder asks of the session before a record can be
/// transmitted.
#[derive(Debug)]
pub enum BindOutcome {
    /// The timeline is resident and the session is already bound to
    /// it: nothing to do.
    AlreadyBound,
    /// The timeline is resident but the session is bound elsewhere:
    /// open this timeline on the session, then confirm with
    /// `bind_opened`.
    Open(TimelineId),
    /// The timeline is not resident: register its metadata on the
    /// session, confirm with `bind_registered`, and open it unless the
    /// session is already bound to it.
    Register { timeline_id: TimelineId, token: crate::timeline_lru::LruToken },
}

impl ModalityIngest {
    /// The binder's query step: make sure the envelope's user timeline
    /// is resident, and say what the session must do before the record
    /// can be transmitted.
    ///
    /// A residency hit moves the entry's use counter to the present. A
    /// miss derives the remote timeline id from the run id and hands
    /// back the token that completes the miss path.
    pub fn bind_query(&mut self, user_id: u64) -> (r: BindOutcome)
        requires
            old(self).wf(),
        ensures
            final(self).wf(),
            Self::frame_except_lru(*old(self), *final(self)),
            final(self).timeline_map.spec_cap() == old(self).timeline_map.spec_cap(),
            match r {
                BindOutcome::AlreadyBound => {
                    &&& crate::timeline_lru::lru_contains(old(self).timeline_map@, user_id)
                    &&& old(self).timeline_map@[crate::timeline_lru::lru_index(
                        old(self).timeline_map@,
                        user_id,
                    )].1 == old(self).bound_timeline
                    &&& final(self).timeline_map@ =~= old(self).timeline_map@.update(
                        crate::timeline_lru::lru_index(old(self).timeline_map@, user_id),
                        (user_id, old(self).bound_timeline, old(self).timeline_map.spec_clock()),
                    )
                },
                BindOutcome::Open(tid) => {
                    &&& crate::timeline_lru::lru_contains(old(self).timeline_map@, user_id)
                    &&& tid == old(self).timeline_map@[crate::timeline_lru::lru_index(
                        old(self).timeline_map@,
                        user_id,
                    )].1
                    &&& tid != old(self).bound_timeline
                    &&& final(self).timeline_map@ =~= old(self).timeline_map@.update(
                        crate::timeline_lru::lru_index(old(self).timeline_map@, user_id),
                        (user_id, tid, old(self).timeline_map.spec_clock()),
                    )
                },
                BindOutcome::Register { timeline_id, token } => {
                    &&& !crate::timeline_lru::lru_contains(old(self).timeline_map@, user_id)
                    &&& final(self).timeline_map@ =~= old(self).timeline_map@
                    &&& timeline_id == crate::ids::spec_timeline_id(old(self).run_id, user_id)
                    &&& token.spec_slot() is None ==> old(self).timeline_map@.len() < old(
                        self,
                    ).timeline_map.spec_cap()
                },
            },
    {
        match self.timeline_map.query(user_id) {
            Ok(tid) => {
                if tid == self.bound_timeline {
                    BindOutcome::AlreadyBound
                } else {
                    BindOutcome::Open(tid)
                }
            },
            Err(token) => {
                let tid = crate::ids::timeline_id(&self.run_id, user_id);
                BindOutcome::Register { timeline_id: tid, token }
            },
        }
    }

    /// The binder's commit step after a miss: the timeline's metadata
    /// has been registered on the session, so record its residency.
    pub fn bind_registered(
        &mut self,
        user_id: u64,
        timeline_id: TimelineId,
        token: crate::timeline_lru::LruToken,
    )
        requires
            old(self).wf(),
            !crate::timeline_lru::lru_contains(old(self).timeline_map@, user_id),
            token.spec_slot() is None ==> old(self).timeline_map@.len() < old(
                self,
            ).timeline_map.spec_cap(),
        ensures
            final(self).wf(),
            Self::frame_except_lru(*old(self), *final(self)),
            final(self).timeline_map.spec_cap() == old(self).timeline_map.spec_cap(),
            match token.spec_slot() {
                None => final(self).timeline_map@ =~= old(self).timeline_map@.push(
                    (user_id, timeline_id, old(self).timeline_map.spec_clock()),
                ),
                Some(i) => {
                    &&& 0 <= i < old(self).timeline_map@.len() ==> final(self).timeline_map@
                        =~= old(self).timeline_map@.update(
                        i,
                        (user_id, timeline_id, old(self).timeline_map.spec_clock()),
                    )
                    &&& !(0 <= i < old(self).timeline_map@.len()) ==> final(self).timeline_map@
                        =~= old(self).timeline_map@
                },
            },
    {
        self.timeline_map.insert(user_id, timeline_id, token);
    }

    /// The binder's confirmation that the session is now bound to
    /// `timeline_id`.
    pub fn bind_opened(&mut self, timeline_id: TimelineId)
        requires
            old(self).wf(),
        ensures
            final(self).wf(),
            final(self).bound_timeline == timeline_id,
            final(self).global_metadata == old(self).global_metadata,
            final(self).event_keys == old(self).event_keys,
            final(self).timeline_keys == old(self).timeline_keys,
            final(self).span_names == old(self).span_names,
            final(self).run_id == old(self).run_id,
            final(self).timeline_map == old(self).timeline_map,
            final(self).report_handlers == old(self).report_handlers,
    {
        self.bound_timeline = timeline_id;
    }

    /// The metadata pairs to register for a timeline: the configured
    /// global pairs, then `timeline.name` set to the envelope's
    /// timeline name.
    pub fn timeline_metadata_for(&self, name: &String) -> (r: Vec<(String, AttrVal)>)
        ensures
            kvs_view(r@) == kvs_view(self.global_metadata@) + seq![
                ("timeline.name"@, AttrValV::String(name@)),
            ],
    {
        let mut out: Vec<(String, AttrVal)> = Vec::new();
        let n: usize = self.global_metadata.len();
        let mut i: usize = 0;
        while i < n
            invariant
                n == self.global_metadata@.len(),
                i <= n,
                out@.len() == i,
                forall|j: int| 0 <= j < i ==> (out@[j].0@, out@[j].1@) == (
                    self.global_metadata@[j].0@,
                    self.global_metadata@[j].1@,
                ),
            decreases n - i,
        {
            let pair = (self.global_metadata[i].0.clone(), self.global_metadata[i].1.dup());
            out.push(pair);
            i = i + 1;
        }
        out.push((String::from_str("timeline.name"), AttrVal::String(name.clone())));
        proof {
            assert(kvs_view(out@) =~= kvs_view(self.global_metadata@) + seq![
                ("timeline.name"@, AttrValV::String(name@)),
            ]);
        }
        out
    }
}

/// What the session needs to be established: the endpoint to connect
/// to, the auth token to authenticate with, and the timeline to open
/// first so later open-timeline calls are legal.
pub struct ConnectPlan {
    pub endpoint: String,
    pub auth_token: Vec<u8>,
    pub initial_timeline: TimelineId,
}

impl ModalityIngest {
    /// Decide everything about session establishment that does not
    /// need the network: check that an auth token is configured,
    /// generate the run id, publish it in the timeline metadata, and
    /// derive the initial timeline from the caller's current timeline
    /// identity. The caller then connects, authenticates and opens the
    /// initial timeline as the plan says.
    ///
    /// Fails with `AuthRequired`, exactly when no auth token is
    /// configured.
    pub fn prepare_connect(options: Options, initial_user_id: u64) -> (r: Result<
        (Self, ConnectPlan),
        ConnectError,
    >)
        ensures
            match r {
                Ok(pair) => {
                    &&& options.auth matches Some(tok) && pair.1.auth_token@ == tok@
                    &&& pair.1.endpoint@ == "modality-ingest://"@ + options.server_addr@
                        + "/"@
                    &&& pair.1.initial_timeline == crate::ids::spec_timeline_id(
                        pair.0.run_id,
                        initial_user_id,
                    )
                    &&& pair.0.wf()
                    &&& kvs_view(pair.0.global_metadata@) == kvs_view(options.metadata@)
                        + seq![
                        (
                            "timeline.run_id"@,
                            AttrValV::String(crate::ids::uuid_text_of(pair.0.run_id.id)),
                        ),
                    ]
                    &&& pair.0.report_handlers == options.attribute_handlers
                    &&& pair.0.event_keys@ =~= Seq::<(Seq<char>, AttrKeyHandle)>::empty()
                    &&& pair.0.timeline_keys@ =~= Seq::<(Seq<char>, AttrKeyHandle)>::empty()
                    &&& pair.0.span_names@ =~= Seq::<(SpanId, Seq<char>)>::empty()
                    &&& pair.0.timeline_map@ =~= Seq::<crate::timeline_lru::LruItem>::empty()
                    &&& pair.0.timeline_map.spec_cap() == options.lru_cache_size
                    &&& pair.0.bound_timeline == pair.1.initial_timeline
                },
                Err(e) => e is AuthRequired && options.auth is None,
            },
    {
        let Options { auth, metadata, server_addr, lru_cache_size, attribute_handlers } =
            options;
        let auth_token = match auth {
            Some(tok) => tok,
            None => {
                return Err(ConnectError::AuthRequired);
            },
        };

        let run_id = crate::ids::generate_run_id();

        let mut global_metadata = metadata;
        global_metadata.push(
            (
                String::from_str("timeline.run_id"),
                AttrVal::String(crate::ids::run_id_text(&run_id)),
            ),
        );

        let endpoint = String::from_str("modality-ingest://").concat(server_addr.as_str()).concat(
            "/",
        );
        let initial_timeline = crate::ids::timeline_id(&run_id, initial_user_id);

        let ingest = ModalityIngest {
            global_metadata,
            event_keys: KeyCache::new(),
            timeline_keys: KeyCache::new(),
            span_names: SpanNameTable::new(),
            run_id,
            timeline_map: TimelineLru::with_capacity(lru_cache_size),
            report_handlers: attribute_handlers,
            bound_timeline: initial_timeline,
        };
        proof {
            assert(kvs_view(ingest.global_metadata@) =~= kvs_view(options.metadata@) + seq![
                ("timeline.run_id"@, AttrValV::String(crate::ids::uuid_text_of(run_id.id))),
            ]);
        }
        Ok((ingest, ConnectPlan { endpoint, auth_token, initial_timeline }))
    }
}

} // verus!
