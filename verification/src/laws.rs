//! The pipeline's invariants, stated and proved over the translation
//! specification: what every transmitted record carries, and how a
//! serial consumer preserves the order of its inputs.

use vstd::prelude::*;

use crate::assoc::assoc_lookup;
use crate::assoc::lemma_assoc_lookup_concat;
use crate::assoc::lemma_assoc_some_index;
use crate::attr_bag::lemma_bag_insert_absent_lookup;
use crate::attr_bag::spec_bag_insert_absent;
use crate::attr_handlers::AttributeHandler;
use crate::ingest::spec_enter_exit_attrs;
use crate::ingest::spec_fill_defaults;
use crate::ingest::spec_pack_common;
use crate::ingest::spec_route_records;
use crate::ingest::spec_step;
use crate::ingest::Message;
use crate::ingest::SpanId;
use crate::types::AttrValV;
use crate::types::RunId;
use crate::types::SpanMetadata;

verus! {

/// The reserved record-kind labels.
pub open spec fn spec_reserved_kind(label: Seq<char>) -> bool {
    ||| label == "span:defined"@
    ||| label == "span:enter"@
    ||| label == "span:exit"@
    ||| label == "event"@
    ||| label == "message_discarded"@
}

/// Whether a message transmits a record.
pub open spec fn spec_transmits(m: Message) -> bool {
    match m {
        Message::NewSpan { .. } => true,
        Message::Event { .. } => true,
        Message::Enter { .. } => true,
        Message::Exit { .. } => true,
        _ => false,
    }
}

/// The lengths of the reserved attribute keys, and the one pair the
/// lengths do not separate.
proof fn reserved_key_facts()
    ensures
        "event.name"@.len() == 10,
        "event.severity"@.len() == 14,
        "event.source.module"@.len() == 19,
        "event.source.file"@.len() == 17,
        "event.source.line"@.len() == 17,
        "event.internal.rs.tick"@.len() == 22,
        "event.internal.rs.kind"@.len() == 22,
        "event.internal.rs.span_id"@.len() == 25,
        "event.timestamp"@.len() == 15,
        "event.source.file"@ != "event.source.line"@,
        "event.internal.rs.tick"@ != "event.internal.rs.kind"@,
{
    reveal_strlit("event.name");
    reveal_strlit("event.severity");
    reveal_strlit("event.source.module");
    reveal_strlit("event.source.file");
    reveal_strlit("event.source.line");
    reveal_strlit("event.internal.rs.tick");
    reveal_strlit("event.internal.rs.kind");
    reveal_strlit("event.internal.rs.span_id");
    reveal_strlit("event.timestamp");
    assert("event.source.file"@[13] != "event.source.line"@[13]);
    assert("event.internal.rs.tick"@[18] != "event.internal.rs.kind"@[18]);
}

/// After the common packing, the record carries `event.name`: either a
/// captured field routed to it, or the metadata name filled in.
proof fn lemma_pack_common_has_name(
    hs: Seq<AttributeHandler>,
    run: RunId,
    records: Seq<(Seq<char>, crate::fields::TracingValueV)>,
    metadata: SpanMetadata,
    tick_ns: u128,
    wallclock_ns: Option<u64>,
)
    ensures
        assoc_lookup(
            spec_pack_common(hs, run, records, metadata, tick_ns, wallclock_ns),
            "event.name"@,
        ) is Some,
{
    reserved_key_facts();
    let routed = spec_route_records(hs, run, records, Seq::empty());
    let nk = "event.name"@;
    let b1 = spec_bag_insert_absent(routed, nk, AttrValV::String(metadata.name@));
    lemma_bag_insert_absent_lookup(routed, nk, AttrValV::String(metadata.name@), nk);
    let b2 = spec_bag_insert_absent(
        b1,
        "event.severity"@,
        AttrValV::String(metadata.level.spec_severity()),
    );
    lemma_bag_insert_absent_lookup(
        b1,
        "event.severity"@,
        AttrValV::String(metadata.level.spec_severity()),
        nk,
    );
    let b3 = match metadata.module {
        Some(m) => {
            lemma_bag_insert_absent_lookup(
                b2,
                "event.source.module"@,
                AttrValV::String(m@),
                nk,
            );
            spec_bag_insert_absent(b2, "event.source.module"@, AttrValV::String(m@))
        },
        None => b2,
    };
    let b4 = match metadata.file {
        Some(f) => {
            lemma_bag_insert_absent_lookup(b3, "event.source.file"@, AttrValV::String(f@), nk);
            spec_bag_insert_absent(b3, "event.source.file"@, AttrValV::String(f@))
        },
        None => b3,
    };
    let b5 = match metadata.line {
        Some(l) => {
            lemma_bag_insert_absent_lookup(
                b4,
                "event.source.line"@,
                AttrValV::Integer(l as i64),
                nk,
            );
            spec_bag_insert_absent(b4, "event.source.line"@, AttrValV::Integer(l as i64))
        },
        None => b4,
    };
    let b6 = if tick_ns <= u64::MAX {
        lemma_bag_insert_absent_lookup(
            b5,
            "event.internal.rs.tick"@,
            AttrValV::LogicalTime(tick_ns as u64),
            nk,
        );
        spec_bag_insert_absent(
            b5,
            "event.internal.rs.tick"@,
            AttrValV::LogicalTime(tick_ns as u64),
        )
    } else {
        b5
    };
    match wallclock_ns {
        Some(w) => {
            lemma_bag_insert_absent_lookup(b6, "event.timestamp"@, AttrValV::Timestamp(w), nk);
        },
        None => {},
    }
}

/// After the common packing, the tick attribute equals the wrapped
/// tick as a unary logical time when the tick fits an unsigned 64-bit
/// value, and is absent otherwise — provided no captured field routed
/// to the tick key.
proof fn lemma_pack_common_tick(
    hs: Seq<AttributeHandler>,
    run: RunId,
    records: Seq<(Seq<char>, crate::fields::TracingValueV)>,
    metadata: SpanMetadata,
    tick_ns: u128,
    wallclock_ns: Option<u64>,
)
    requires
        assoc_lookup(
            spec_route_records(hs, run, records, Seq::empty()),
            "event.internal.rs.tick"@,
        ) is None,
    ensures
        tick_ns <= u64::MAX ==> assoc_lookup(
            spec_pack_common(hs, run, records, metadata, tick_ns, wallclock_ns),
            "event.internal.rs.tick"@,
        ) == Some(AttrValV::LogicalTime(tick_ns as u64)),
        tick_ns > u64::MAX ==> assoc_lookup(
            spec_pack_common(hs, run, records, metadata, tick_ns, wallclock_ns),
            "event.internal.rs.tick"@,
        ) is None,
{
    reserved_key_facts();
    let routed = spec_route_records(hs, run, records, Seq::empty());
    let tk = "event.internal.rs.tick"@;
    let b1 = spec_bag_insert_absent(routed, "event.name"@, AttrValV::String(metadata.name@));
    lemma_bag_insert_absent_lookup(routed, "event.name"@, AttrValV::String(metadata.name@), tk);
    let b2 = spec_bag_insert_absent(
        b1,
        "event.severity"@,
        AttrValV::String(metadata.level.spec_severity()),
    );
    lemma_bag_insert_absent_lookup(
        b1,
        "event.severity"@,
        AttrValV::String(metadata.level.spec_severity()),
        tk,
    );
    let b3 = match metadata.module {
        Some(m) => {
            lemma_bag_insert_absent_lookup(
                b2,
                "event.source.module"@,
                AttrValV::String(m@),
                tk,
            );
            spec_bag_insert_absent(b2, "event.source.module"@, AttrValV::String(m@))
        },
        None => b2,
    };
    let b4 = match metadata.file {
        Some(f) => {
            lemma_bag_insert_absent_lookup(b3, "event.source.file"@, AttrValV::String(f@), tk);
            spec_bag_insert_absent(b3, "event.source.file"@, AttrValV::String(f@))
        },
        None => b3,
    };
    let b5 = match metadata.line {
        Some(l) => {
            lemma_bag_insert_absent_lookup(
                b4,
                "event.source.line"@,
                AttrValV::Integer(l as i64),
                tk,
            );
            spec_bag_insert_absent(b4, "event.source.line"@, AttrValV::Integer(l as i64))
        },
        None => b4,
    };
    assert(assoc_lookup(b5, tk) is None);
    let b6 = if tick_ns <= u64::MAX {
        lemma_bag_insert_absent_lookup(
            b5,
            tk,
            AttrValV::LogicalTime(tick_ns as u64),
            tk,
        );
        spec_bag_insert_absent(b5, tk, AttrValV::LogicalTime(tick_ns as u64))
    } else {
        b5
    };
    match wallclock_ns {
        Some(w) => {
            lemma_bag_insert_absent_lookup(b6, "event.timestamp"@, AttrValV::Timestamp(w), tk);
        },
        None => {},
    }
}

/// Every transmitted record carries the reserved record-kind
/// attribute, with a label drawn from the enumerated set — provided no
/// captured `modality.kind` field overrides it.
pub proof fn lemma_record_carries_kind(
    hs: Seq<AttributeHandler>,
    run: RunId,
    names: Seq<(SpanId, Seq<char>)>,
    message: Message,
    tick_ns: u128,
    wallclock_ns: Option<u64>,
)
    requires
        spec_transmits(message),
        match message {
            Message::NewSpan { records, .. } => assoc_lookup(records@, "modality.kind"@)
                is None,
            Message::Event { records, .. } => assoc_lookup(records@, "modality.kind"@)
                is None,
            _ => true,
        },
    ensures
        match spec_step(hs, run, names, message, tick_ns, wallclock_ns).1 {
            Some(attrs) => exists|i: int|
                0 <= i < attrs.len() && attrs[i].0 == "event.internal.rs.kind"@ && (
                attrs[i].1 matches AttrValV::String(label) && spec_reserved_kind(label)),
            None => false,
        },
{
    match message {
        Message::NewSpan { .. } => {
            let attrs = spec_step(hs, run, names, message, tick_ns, wallclock_ns).1.unwrap();
            assert(attrs[1].0 == "event.internal.rs.kind"@ && attrs[1].1 == AttrValV::String(
                "span:defined"@,
            ));
        },
        Message::Event { .. } => {
            let attrs = spec_step(hs, run, names, message, tick_ns, wallclock_ns).1.unwrap();
            assert(attrs[0].0 == "event.internal.rs.kind"@ && attrs[0].1 == AttrValV::String(
                "event"@,
            ));
        },
        Message::Enter { span } => {
            let attrs = spec_step(hs, run, names, message, tick_ns, wallclock_ns).1.unwrap();
            match assoc_lookup(names, span) {
                Some(_) => {
                    assert(attrs[1].0 == "event.internal.rs.kind"@ && attrs[1].1
                        == AttrValV::String("span:enter"@));
                },
                None => {
                    assert(attrs[0].0 == "event.internal.rs.kind"@ && attrs[0].1
                        == AttrValV::String("span:enter"@));
                },
            }
        },
        Message::Exit { span } => {
            let attrs = spec_step(hs, run, names, message, tick_ns, wallclock_ns).1.unwrap();
            match assoc_lookup(names, span) {
                Some(_) => {
                    assert(attrs[1].0 == "event.internal.rs.kind"@ && attrs[1].1
                        == AttrValV::String("span:exit"@));
                },
                None => {
                    assert(attrs[0].0 == "event.internal.rs.kind"@ && attrs[0].1
                        == AttrValV::String("span:exit"@));
                },
            }
        },
        _ => {},
    }
}

/// Every transmitted record carries `event.name` — for an enter or
/// exit record, provided the span was seen by new-span and not yet
/// closed.
pub proof fn lemma_record_carries_name(
    hs: Seq<AttributeHandler>,
    run: RunId,
    names: Seq<(SpanId, Seq<char>)>,
    message: Message,
    tick_ns: u128,
    wallclock_ns: Option<u64>,
)
    requires
        spec_transmits(message),
        match message {
            Message::Enter { span } => assoc_lookup(names, span) is Some,
            Message::Exit { span } => assoc_lookup(names, span) is Some,
            _ => true,
        },
    ensures
        match spec_step(hs, run, names, message, tick_ns, wallclock_ns).1 {
            Some(attrs) => exists|i: int|
                0 <= i < attrs.len() && attrs[i].0 == "event.name"@,
            None => false,
        },
{
    match message {
        Message::NewSpan { .. } => {
            let attrs = spec_step(hs, run, names, message, tick_ns, wallclock_ns).1.unwrap();
            assert(attrs[0].0 == "event.name"@);
        },
        Message::Event { metadata, records } => {
            let attrs = spec_step(hs, run, names, message, tick_ns, wallclock_ns).1.unwrap();
            let remaining = crate::assoc::assoc_remove(records@, "modality.kind"@);
            let packed = spec_pack_common(hs, run, remaining, metadata, tick_ns, wallclock_ns);
            lemma_pack_common_has_name(hs, run, remaining, metadata, tick_ns, wallclock_ns);
            lemma_assoc_some_index(packed, "event.name"@);
            let j = choose|j: int| 0 <= j < packed.len() && packed[j].0 == "event.name"@;
            assert(attrs[j + 1].0 == "event.name"@);
        },
        Message::Enter { span } => {
            let attrs = spec_step(hs, run, names, message, tick_ns, wallclock_ns).1.unwrap();
            assert(attrs[0].0 == "event.name"@);
        },
        Message::Exit { span } => {
            let attrs = spec_step(hs, run, names, message, tick_ns, wallclock_ns).1.unwrap();
            assert(attrs[0].0 == "event.name"@);
        },
        _ => {},
    }
}

/// Wherever a transmitted record carries the tick attribute, its value
/// is the wrapped tick as a unary logical time; the attribute is
/// present exactly when the tick fits an unsigned 64-bit value — and a
/// record is transmitted either way. Captured fields must not route to
/// the tick key themselves.
pub proof fn lemma_record_tick(
    hs: Seq<AttributeHandler>,
    run: RunId,
    names: Seq<(SpanId, Seq<char>)>,
    message: Message,
    tick_ns: u128,
    wallclock_ns: Option<u64>,
)
    requires
        spec_transmits(message),
        match message {
            Message::NewSpan { records, .. } => assoc_lookup(
                spec_route_records(
                    hs,
                    run,
                    crate::assoc::assoc_remove(
                        crate::assoc::assoc_remove(records@, "modality.kind"@),
                        "modality.span_id"@,
                    ),
                    Seq::empty(),
                ),
                "event.internal.rs.tick"@,
            ) is None,
            Message::Event { records, .. } => assoc_lookup(
                spec_route_records(
                    hs,
                    run,
                    crate::assoc::assoc_remove(records@, "modality.kind"@),
                    Seq::empty(),
                ),
                "event.internal.rs.tick"@,
            ) is None,
            _ => true,
        },
    ensures
        spec_step(hs, run, names, message, tick_ns, wallclock_ns).1 is Some,
        match spec_step(hs, run, names, message, tick_ns, wallclock_ns).1 {
            Some(attrs) => {
                &&& tick_ns <= u64::MAX ==> assoc_lookup(attrs, "event.internal.rs.tick"@)
                    == Some(AttrValV::LogicalTime(tick_ns as u64))
                &&& tick_ns > u64::MAX ==> assoc_lookup(attrs, "event.internal.rs.tick"@)
                    is None
            },
            None => false,
        },
{
    reserved_key_facts();
    reveal_strlit("enter: ");
    reveal_strlit("exit: ");
    reveal_strlit("span:enter");
    reveal_strlit("span:exit");
    let tk = "event.internal.rs.tick"@;
    match message {
        Message::NewSpan { id, metadata, records } => {
            let attrs = spec_step(hs, run, names, message, tick_ns, wallclock_ns).1.unwrap();
            let remaining = crate::assoc::assoc_remove(
                crate::assoc::assoc_remove(records@, "modality.kind"@),
                "modality.span_id"@,
            );
            let prefix = seq![
                (
                    "event.name"@,
                    AttrValV::String(
                        crate::ingest::spec_span_display_name(records@, metadata.name@),
                    ),
                ),
                (
                    "event.internal.rs.kind"@,
                    crate::ingest::spec_kind_attr(records@, "span:defined"@),
                ),
                (
                    "event.internal.rs.span_id"@,
                    crate::ingest::spec_span_id_attr(records@, id),
                ),
            ];
            let packed = spec_pack_common(hs, run, remaining, metadata, tick_ns, wallclock_ns);
            assert(attrs == prefix + packed);
            assert(forall|i: int| 0 <= i < prefix.len() ==> prefix[i].0 != tk);
            lemma_assoc_lookup_concat(prefix, packed, tk);
            lemma_pack_common_tick(hs, run, remaining, metadata, tick_ns, wallclock_ns);
        },
        Message::Event { metadata, records } => {
            let attrs = spec_step(hs, run, names, message, tick_ns, wallclock_ns).1.unwrap();
            let remaining = crate::assoc::assoc_remove(records@, "modality.kind"@);
            let prefix = seq![
                (
                    "event.internal.rs.kind"@,
                    crate::ingest::spec_kind_attr(records@, "event"@),
                ),
            ];
            let packed = spec_pack_common(hs, run, remaining, metadata, tick_ns, wallclock_ns);
            assert(attrs == prefix + packed);
            assert(forall|i: int| 0 <= i < prefix.len() ==> prefix[i].0 != tk);
            lemma_assoc_lookup_concat(prefix, packed, tk);
            lemma_pack_common_tick(hs, run, remaining, metadata, tick_ns, wallclock_ns);
        },
        Message::Enter { span } => {
            lemma_enter_exit_tick(names, span, "span:enter"@, "enter: "@, tick_ns);
        },
        Message::Exit { span } => {
            lemma_enter_exit_tick(names, span, "span:exit"@, "exit: "@, tick_ns);
        },
        _ => {},
    }
}

/// The tick attribute of an enter or exit record: present with the
/// wrapped tick exactly while the tick fits an unsigned 64-bit value.
proof fn lemma_enter_exit_tick(
    names: Seq<(SpanId, Seq<char>)>,
    span: SpanId,
    label: Seq<char>,
    name_prefix: Seq<char>,
    tick_ns: u128,
)
    requires
        label == "span:enter"@ || label == "span:exit"@,
    ensures
        tick_ns <= u64::MAX ==> assoc_lookup(
            spec_enter_exit_attrs(names, span, label, name_prefix, tick_ns),
            "event.internal.rs.tick"@,
        ) == Some(AttrValV::LogicalTime(tick_ns as u64)),
        tick_ns > u64::MAX ==> assoc_lookup(
            spec_enter_exit_attrs(names, span, label, name_prefix, tick_ns),
            "event.internal.rs.tick"@,
        ) is None,
{
    reserved_key_facts();
    let tk = "event.internal.rs.tick"@;
    let head = match assoc_lookup(names, span) {
        Some(n) => seq![("event.name"@, AttrValV::String(name_prefix + n))],
        None => Seq::<(Seq<char>, AttrValV)>::empty(),
    };
    let mid = seq![
        ("event.internal.rs.kind"@, AttrValV::String(label)),
        ("event.internal.rs.span_id"@, AttrValV::BigInt(span as i128)),
    ];
    let tail = if tick_ns <= u64::MAX {
        seq![(tk, AttrValV::LogicalTime(tick_ns as u64))]
    } else {
        Seq::<(Seq<char>, AttrValV)>::empty()
    };
    assert(spec_enter_exit_attrs(names, span, label, name_prefix, tick_ns) == head + mid
        + tail);
    assert(forall|i: int| 0 <= i < head.len() ==> head[i].0 != tk);
    assert(forall|i: int| 0 <= i < mid.len() ==> mid[i].0 != tk);
    assert(forall|i: int| 0 <= i < (head + mid).len() ==> (head + mid)[i].0 != tk);
    lemma_assoc_lookup_concat(head + mid, tail, tk);
    if tick_ns > u64::MAX {
        assert(assoc_lookup(tail, tk) is None);
    }
}

/// The span-name table a serial consumer holds after translating a
/// sequence of inputs, each an envelope's message, tick and wall-clock
/// reading.
pub open spec fn spec_step_names(
    hs: Seq<AttributeHandler>,
    run: RunId,
    names: Seq<(SpanId, Seq<char>)>,
    inputs: Seq<(Message, u128, Option<u64>)>,
) -> Seq<(SpanId, Seq<char>)>
    decreases inputs.len(),
{
    if inputs.len() == 0 {
        names
    } else {
        spec_step_names(
            hs,
            run,
            spec_step(hs, run, names, inputs[0].0, inputs[0].1, inputs[0].2).0,
            inputs.drop_first(),
        )
    }
}

/// The records a serial consumer transmits for a sequence of inputs,
/// in order.
pub open spec fn spec_step_outputs(
    hs: Seq<AttributeHandler>,
    run: RunId,
    names: Seq<(SpanId, Seq<char>)>,
    inputs: Seq<(Message, u128, Option<u64>)>,
) -> Seq<Seq<(Seq<char>, AttrValV)>>
    decreases inputs.len(),
{
    if inputs.len() == 0 {
        Seq::empty()
    } else {
        (match spec_step(hs, run, names, inputs[0].0, inputs[0].1, inputs[0].2).1 {
            Some(attrs) => seq![attrs],
            None => Seq::<Seq<(Seq<char>, AttrValV)>>::empty(),
        }) + spec_step_outputs(
            hs,
            run,
            spec_step(hs, run, names, inputs[0].0, inputs[0].1, inputs[0].2).0,
            inputs.drop_first(),
        )
    }
}

/// Order preservation under serial consumption: the records of two
/// batches processed one after the other are the records of the first
/// batch followed by the records of the second. The relative order of
/// records from one producer context is therefore kept all the way
/// through translation.
pub proof fn lemma_step_outputs_append(
    hs: Seq<AttributeHandler>,
    run: RunId,
    names: Seq<(SpanId, Seq<char>)>,
    xs: Seq<(Message, u128, Option<u64>)>,
    ys: Seq<(Message, u128, Option<u64>)>,
)
    ensures
        spec_step_outputs(hs, run, names, xs + ys) == spec_step_outputs(hs, run, names, xs)
            + spec_step_outputs(hs, run, spec_step_names(hs, run, names, xs), ys),
    decreases xs.len(),
{
    if xs.len() == 0 {
        assert(xs + ys =~= ys);
        assert(spec_step_outputs(hs, run, names, xs) =~= Seq::<
            Seq<(Seq<char>, AttrValV)>,
        >::empty());
        assert(spec_step_outputs(hs, run, names, xs) + spec_step_outputs(
            hs,
            run,
            spec_step_names(hs, run, names, xs),
            ys,
        ) =~= spec_step_outputs(hs, run, spec_step_names(hs, run, names, xs), ys));
    } else {
        assert((xs + ys)[0] == xs[0]);
        assert((xs + ys).drop_first() =~= xs.drop_first() + ys);
        let names1 = spec_step(hs, run, names, xs[0].0, xs[0].1, xs[0].2).0;
        lemma_step_outputs_append(hs, run, names1, xs.drop_first(), ys);
        let head = match spec_step(hs, run, names, xs[0].0, xs[0].1, xs[0].2).1 {
            Some(attrs) => seq![attrs],
            None => Seq::<Seq<(Seq<char>, AttrValV)>>::empty(),
        };
        assert(head + (spec_step_outputs(hs, run, names1, xs.drop_first())
            + spec_step_outputs(hs, run, spec_step_names(hs, run, names1, xs.drop_first()), ys))
            =~= (head + spec_step_outputs(hs, run, names1, xs.drop_first()))
            + spec_step_outputs(hs, run, spec_step_names(hs, run, names1, xs.drop_first()), ys));
    }
}

/// The number of inputs that transmit a record.
pub open spec fn spec_transmit_count(inputs: Seq<(Message, u128, Option<u64>)>) -> int
    decreases inputs.len(),
{
    if inputs.len() == 0 {
        0
    } else {
        (if spec_transmits(inputs[0].0) {
            1int
        } else {
            0int
        }) + spec_transmit_count(inputs.drop_first())
    }
}

/// Drain completeness under serial consumption: every input that
/// transmits yields exactly one record, so the number of records
/// equals the number of transmitting inputs — no queued envelope is
/// lost by translation.
pub proof fn lemma_step_outputs_count(
    hs: Seq<AttributeHandler>,
    run: RunId,
    names: Seq<(SpanId, Seq<char>)>,
    inputs: Seq<(Message, u128, Option<u64>)>,
)
    ensures
        spec_step_outputs(hs, run, names, inputs).len() == spec_transmit_count(inputs),
    decreases inputs.len(),
{
    if inputs.len() > 0 {
        let names1 = spec_step(hs, run, names, inputs[0].0, inputs[0].1, inputs[0].2).0;
        lemma_step_outputs_count(hs, run, names1, inputs.drop_first());
    }
}

} // verus!
