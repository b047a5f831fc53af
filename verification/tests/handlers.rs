// Attribute handlers: defaults, timestamp promotion, the remote
// timeline derivation, the fallback, and wholesale replacement.

use tracing_modality::attr_handlers::apply_handler;
use tracing_modality::attr_handlers::event_fallback;
use tracing_modality::attr_handlers::AttributeHandler;
use tracing_modality::attr_handlers::HandlerKind;
use tracing_modality::fields::FieldBag;
use tracing_modality::fields::TracingValue;
use tracing_modality::ids::timeline_id;
use tracing_modality::ingest::Message;
use tracing_modality::ingest::ModalityIngest;
use tracing_modality::interner::KeyCache;
use tracing_modality::span_names::SpanNameTable;
use tracing_modality::timeline_lru::TimelineLru;
use tracing_modality::types::AttrVal;
use tracing_modality::types::Level;
use tracing_modality::types::RunId;
use tracing_modality::types::SpanMetadata;
use tracing_modality::types::TimelineId;

const RUN: RunId = RunId { id: 0x1234 };

fn consumer_with(handlers: Vec<AttributeHandler>) -> ModalityIngest {
    ModalityIngest {
        global_metadata: Vec::new(),
        event_keys: KeyCache::new(),
        timeline_keys: KeyCache::new(),
        span_names: SpanNameTable::new(),
        run_id: RUN,
        timeline_map: TimelineLru::with_capacity(64),
        report_handlers: handlers,
        bound_timeline: TimelineId { id: 0 },
    }
}

fn metadata(name: &str) -> SpanMetadata {
    SpanMetadata {
        name: name.to_string(),
        level: Level::Info,
        module: None,
        file: None,
        line: None,
    }
}

fn find<'a>(attrs: &'a [(String, AttrVal)], key: &str) -> Option<&'a AttrVal> {
    attrs.iter().find(|kv| kv.0.as_str() == key).map(|kv| &kv.1)
}

#[test]
fn negative_integer_passes_through_timestamp_handler() {
    let (key, val) = apply_handler(
        &HandlerKind::Timestamp,
        &"timestamp".to_string(),
        TracingValue::I64(-5),
        &RUN,
    );
    assert_eq!(key, "event.timestamp".to_string());
    assert_eq!(val, AttrVal::Integer(-5));
}

#[test]
fn nonnegative_integer_promotes_to_timestamp() {
    let (key, val) = apply_handler(
        &HandlerKind::Timestamp,
        &"timestamp".to_string(),
        TracingValue::I64(5),
        &RUN,
    );
    assert_eq!(key, "event.timestamp".to_string());
    assert_eq!(val, AttrVal::Timestamp(5));

    let (_, val) = apply_handler(
        &HandlerKind::RemoteTimestamp,
        &"interaction.remote_timestamp".to_string(),
        TracingValue::U64(9),
        &RUN,
    );
    assert_eq!(val, AttrVal::Timestamp(9));
}

#[test]
fn message_field_routes_to_event_name() {
    let mut c = consumer_with(AttributeHandler::default_handlers());
    let mut fields = FieldBag::new();
    fields.record_str("message".to_string(), "hello".to_string());
    let rec = c
        .translate_packet(Message::Event { metadata: metadata("ev"), records: fields }, 1, None)
        .expect("event transmits");
    assert_eq!(
        find(&rec.attrs, "event.name"),
        Some(&AttrVal::String("hello".to_string()))
    );
    assert!(find(&rec.attrs, "event.message").is_none());
}

#[test]
fn remote_timeline_id_field_is_derived() {
    let user_b: u64 = 0xb0b;
    let mut c = consumer_with(AttributeHandler::default_handlers());
    let mut fields = FieldBag::new();
    fields.record_u64("interaction.remote_timeline_id".to_string(), user_b);
    let rec = c
        .translate_packet(Message::Event { metadata: metadata("ev"), records: fields }, 1, None)
        .expect("event transmits");
    let expected = timeline_id(&RUN, user_b);
    assert_eq!(
        find(&rec.attrs, "event.interaction.remote_timeline_id"),
        Some(&AttrVal::TimelineId(expected))
    );
}

#[test]
fn remote_timeline_id_with_other_type_converts_by_type() {
    let (key, val) = apply_handler(
        &HandlerKind::RemoteTimelineId,
        &"interaction.remote_timeline_id".to_string(),
        TracingValue::I64(3),
        &RUN,
    );
    assert_eq!(key, "event.interaction.remote_timeline_id".to_string());
    assert_eq!(val, AttrVal::Integer(3));
}

#[test]
fn named_handlers_rename_their_keys() {
    let (key, val) =
        tracing_modality::attr_handlers::timestamp("timestamp", TracingValue::I64(-5), &RUN);
    assert_eq!(key, "event.timestamp".to_string());
    assert_eq!(val, AttrVal::Integer(-5));

    let (key, val) =
        tracing_modality::attr_handlers::name("message", TracingValue::String("x".into()), &RUN);
    assert_eq!(key, "event.name".to_string());
    assert_eq!(val, AttrVal::String("x".to_string()));

    let (key, _) =
        tracing_modality::attr_handlers::severity("severity", TracingValue::I64(1), &RUN);
    assert_eq!(key, "event.severity".to_string());

    let (key, _) = tracing_modality::attr_handlers::source_module(
        "source.module",
        TracingValue::String("m".into()),
        &RUN,
    );
    assert_eq!(key, "event.source.module".to_string());

    let (key, _) = tracing_modality::attr_handlers::source_file(
        "source.file",
        TracingValue::String("f".into()),
        &RUN,
    );
    assert_eq!(key, "event.source.file".to_string());

    let (key, val) = tracing_modality::attr_handlers::remote_timestamp(
        "interaction.remote_timestamp",
        TracingValue::U64(4),
        &RUN,
    );
    assert_eq!(key, "event.interaction.remote_timestamp".to_string());
    assert_eq!(val, AttrVal::Timestamp(4));

    let (key, val) = tracing_modality::attr_handlers::remote_timeline_id(
        "interaction.remote_timeline_id",
        TracingValue::U64(8),
        &RUN,
    );
    assert_eq!(key, "event.interaction.remote_timeline_id".to_string());
    assert_eq!(val, AttrVal::TimelineId(timeline_id(&RUN, 8)));
}

#[test]
fn fallback_prefixes_and_converts_by_type() {
    let (key, val) = event_fallback("custom".to_string(), TracingValue::U64(3));
    assert_eq!(key, "event.custom".to_string());
    assert_eq!(val, AttrVal::BigInt(3));

    let (key, val) = event_fallback("event.done".to_string(), TracingValue::Bool(true));
    assert_eq!(key, "event.done".to_string());
    assert_eq!(val, AttrVal::Bool(true));
}

#[test]
fn handler_override_replaces_key_and_value() {
    let handlers = vec![AttributeHandler::new(
        "foo".to_string(),
        HandlerKind::Fixed("event.bar".to_string(), AttrVal::Integer(42)),
    )];
    let mut c = consumer_with(handlers);
    let mut fields = FieldBag::new();
    fields.record_f64_bits("foo".to_string(), 1.0f64.to_bits());
    let rec = c
        .translate_packet(Message::Event { metadata: metadata("ev"), records: fields }, 1, None)
        .expect("event transmits");
    assert_eq!(find(&rec.attrs, "event.bar"), Some(&AttrVal::Integer(42)));
    assert!(find(&rec.attrs, "event.foo").is_none());
    assert!(!matches!(find(&rec.attrs, "event.bar"), Some(AttrVal::Float(_))));
}

#[test]
fn float_field_falls_back_as_float() {
    let mut c = consumer_with(AttributeHandler::default_handlers());
    let mut fields = FieldBag::new();
    fields.record_f64_bits("ratio".to_string(), 0.5f64.to_bits());
    let rec = c
        .translate_packet(Message::Event { metadata: metadata("ev"), records: fields }, 1, None)
        .expect("event transmits");
    match find(&rec.attrs, "event.ratio") {
        Some(AttrVal::Float(bits)) => assert_eq!(f64::from_bits(*bits), 0.5),
        other => panic!("expected a float attribute, found {:?}", other),
    }
}
