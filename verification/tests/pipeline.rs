// The translation pipeline end to end: span lifecycle, id changes,
// tick handling, and drain counting.

use tracing_modality::attr_handlers::AttributeHandler;
use tracing_modality::fields::FieldBag;
use tracing_modality::ingest::Message;
use tracing_modality::ingest::ModalityIngest;
use tracing_modality::interner::KeyCache;
use tracing_modality::span_names::SpanNameTable;
use tracing_modality::timeline_lru::TimelineLru;
use tracing_modality::types::AttrVal;
use tracing_modality::types::Level;
use tracing_modality::types::RunId;
use tracing_modality::types::SpanMetadata;
use tracing_modality::types::TimelineId;

fn consumer() -> ModalityIngest {
    ModalityIngest {
        global_metadata: Vec::new(),
        event_keys: KeyCache::new(),
        timeline_keys: KeyCache::new(),
        span_names: SpanNameTable::new(),
        run_id: RunId { id: 0x42 },
        timeline_map: TimelineLru::with_capacity(64),
        report_handlers: AttributeHandler::default_handlers(),
        bound_timeline: TimelineId { id: 0 },
    }
}

fn metadata(name: &str) -> SpanMetadata {
    SpanMetadata {
        name: name.to_string(),
        level: Level::Info,
        module: None,
        file: None,
        line: None,
    }
}

fn find<'a>(attrs: &'a [(String, AttrVal)], key: &str) -> Option<&'a AttrVal> {
    attrs.iter().find(|kv| kv.0.as_str() == key).map(|kv| &kv.1)
}

#[test]
fn span_lifecycle() {
    let mut c = consumer();

    let rec1 = c
        .translate_packet(
            Message::NewSpan { id: 5, metadata: metadata("outer"), records: FieldBag::new() },
            1,
            None,
        )
        .expect("new-span transmits");
    let rec2 = c
        .translate_packet(Message::Enter { span: 5 }, 2, None)
        .expect("enter transmits");

    let mut fields = FieldBag::new();
    fields.record_str("message".to_string(), "hello".to_string());
    let rec3 = c
        .translate_packet(Message::Event { metadata: metadata("ev"), records: fields }, 3, None)
        .expect("event transmits");

    let rec4 = c
        .translate_packet(Message::Exit { span: 5 }, 4, None)
        .expect("exit transmits");
    let none = c.translate_packet(Message::Close { span: 5 }, 5, None);
    assert!(none.is_none());

    let kinds: Vec<&AttrVal> = [&rec1, &rec2, &rec3, &rec4]
        .iter()
        .map(|r| find(&r.attrs, "event.internal.rs.kind").expect("kind present"))
        .collect();
    assert_eq!(*kinds[0], AttrVal::String("span:defined".to_string()));
    assert_eq!(*kinds[1], AttrVal::String("span:enter".to_string()));
    assert_eq!(*kinds[2], AttrVal::String("event".to_string()));
    assert_eq!(*kinds[3], AttrVal::String("span:exit".to_string()));

    // Every record carries a name.
    assert_eq!(
        find(&rec1.attrs, "event.name"),
        Some(&AttrVal::String("outer".to_string()))
    );
    assert_eq!(
        find(&rec2.attrs, "event.name"),
        Some(&AttrVal::String("enter: outer".to_string()))
    );
    assert_eq!(
        find(&rec3.attrs, "event.name"),
        Some(&AttrVal::String("hello".to_string()))
    );
    assert_eq!(
        find(&rec4.attrs, "event.name"),
        Some(&AttrVal::String("exit: outer".to_string()))
    );

    // The span records share the local id.
    for rec in [&rec1, &rec2, &rec4] {
        assert_eq!(
            find(&rec.attrs, "event.internal.rs.span_id"),
            Some(&AttrVal::BigInt(5)),
        );
    }

    // Ticks are carried in order.
    assert_eq!(rec1.tick_ns, 1);
    assert_eq!(rec2.tick_ns, 2);
    assert_eq!(rec3.tick_ns, 3);
    assert_eq!(rec4.tick_ns, 4);
}

#[test]
fn id_change_renames_enter() {
    let mut c = consumer();
    let mut fields = FieldBag::new();
    fields.record_str("name".to_string(), "s".to_string());
    c.translate_packet(
        Message::NewSpan { id: 7, metadata: metadata("ignored"), records: fields },
        1,
        None,
    );
    let none = c.translate_packet(Message::IdChange { old_id: 7, new_id: 9 }, 2, None);
    assert!(none.is_none());
    let rec = c
        .translate_packet(Message::Enter { span: 9 }, 3, None)
        .expect("enter transmits");
    assert_eq!(
        find(&rec.attrs, "event.name"),
        Some(&AttrVal::String("enter: s".to_string()))
    );
}

#[test]
fn tick_present_when_it_fits() {
    let mut c = consumer();
    let rec = c
        .translate_packet(
            Message::Event { metadata: metadata("ev"), records: FieldBag::new() },
            123,
            None,
        )
        .expect("event transmits");
    assert_eq!(
        find(&rec.attrs, "event.internal.rs.tick"),
        Some(&AttrVal::LogicalTime(123))
    );
}

#[test]
fn oversized_tick_is_omitted_but_record_is_kept() {
    let big: u128 = u64::MAX as u128 + 1;
    let mut c = consumer();

    let rec = c
        .translate_packet(
            Message::Event { metadata: metadata("ev"), records: FieldBag::new() },
            big,
            None,
        )
        .expect("the record is still produced");
    assert!(find(&rec.attrs, "event.internal.rs.tick").is_none());
    assert_eq!(rec.tick_ns, big);

    c.translate_packet(
        Message::NewSpan { id: 3, metadata: metadata("s"), records: FieldBag::new() },
        1,
        None,
    );
    let rec2 = c
        .translate_packet(Message::Enter { span: 3 }, big, None)
        .expect("the record is still produced");
    assert!(find(&rec2.attrs, "event.internal.rs.tick").is_none());
}

#[test]
fn wallclock_fills_timestamp_when_absent() {
    let mut c = consumer();
    let rec = c
        .translate_packet(
            Message::Event { metadata: metadata("ev"), records: FieldBag::new() },
            1,
            Some(777),
        )
        .expect("event transmits");
    assert_eq!(find(&rec.attrs, "event.timestamp"), Some(&AttrVal::Timestamp(777)));
}

#[test]
fn metadata_defaults_fill_absent_attributes() {
    let mut c = consumer();
    let md = SpanMetadata {
        name: "ev".to_string(),
        level: Level::Warn,
        module: Some("my::module".to_string()),
        file: Some("lib.rs".to_string()),
        line: Some(17),
    };
    let rec = c
        .translate_packet(Message::Event { metadata: md, records: FieldBag::new() }, 1, None)
        .expect("event transmits");
    assert_eq!(
        find(&rec.attrs, "event.severity"),
        Some(&AttrVal::String("warn".to_string()))
    );
    assert_eq!(
        find(&rec.attrs, "event.source.module"),
        Some(&AttrVal::String("my::module".to_string()))
    );
    assert_eq!(
        find(&rec.attrs, "event.source.file"),
        Some(&AttrVal::String("lib.rs".to_string()))
    );
    assert_eq!(find(&rec.attrs, "event.source.line"), Some(&AttrVal::Integer(17)));
}

#[test]
fn record_and_follows_from_are_not_transmitted() {
    let mut c = consumer();
    let mut fields = FieldBag::new();
    fields.record_u64("x".to_string(), 1);
    assert!(c
        .translate_packet(Message::Record { span: 1, records: fields }, 1, None)
        .is_none());
    assert!(c
        .translate_packet(Message::RecordFollowsFrom { span: 1, follows: 2 }, 2, None)
        .is_none());
}

#[test]
fn drain_translates_every_event() {
    let mut c = consumer();
    let mut transmitted: usize = 0;
    for i in 0..1000u64 {
        let rec = c.translate_packet(
            Message::Event { metadata: metadata("ev"), records: FieldBag::new() },
            i as u128,
            None,
        );
        if rec.is_some() {
            transmitted += 1;
        }
    }
    assert_eq!(transmitted, 1000);
}

#[test]
fn send_failure_warns_exactly_once() {
    let mut latch = false;
    assert!(tracing_modality::common::warn_once(&mut latch));
    assert!(!tracing_modality::common::warn_once(&mut latch));
    assert!(!tracing_modality::common::warn_once(&mut latch));
}
