// The timeline residency cache and the binder's state machine.

use tracing_modality::attr_handlers::AttributeHandler;
use tracing_modality::ids::timeline_id;
use tracing_modality::ingest::BindOutcome;
use tracing_modality::ingest::ModalityIngest;
use tracing_modality::interner::KeyCache;
use tracing_modality::span_names::SpanNameTable;
use tracing_modality::timeline_lru::TimelineLru;
use tracing_modality::fields::FieldBag;
use tracing_modality::ingest::Message;
use tracing_modality::types::AttrVal;
use tracing_modality::types::Level;
use tracing_modality::types::RunId;
use tracing_modality::types::SpanMetadata;
use tracing_modality::types::TimelineId;

fn consumer(lru_capacity: usize) -> ModalityIngest {
    ModalityIngest {
        global_metadata: Vec::new(),
        event_keys: KeyCache::new(),
        timeline_keys: KeyCache::new(),
        span_names: SpanNameTable::new(),
        run_id: RunId { id: 0x77 },
        timeline_map: TimelineLru::with_capacity(lru_capacity),
        report_handlers: AttributeHandler::default_handlers(),
        bound_timeline: TimelineId { id: 0 },
    }
}

/// Complete one miss path and open the timeline, as the consumer's
/// driver would after the session calls succeeded.
fn register_and_open(c: &mut ModalityIngest, user_id: u64) -> TimelineId {
    match c.bind_query(user_id) {
        BindOutcome::Register { timeline_id, token } => {
            c.bind_registered(user_id, timeline_id, token);
            c.bind_opened(timeline_id);
            timeline_id
        }
        other => panic!("expected a miss for user {user_id}, found {other:?}"),
    }
}

#[test]
fn lru_query_then_insert_then_query_is_a_hit() {
    let mut lru = TimelineLru::with_capacity(4);
    let tid = TimelineId { id: 9 };
    let token = lru.query(7).expect_err("first query misses");
    lru.insert(7, tid, token);
    assert_eq!(lru.query(7), Ok(tid));
    // The protocol applied a second time does not insert: the query
    // hits, so there is no token to complete.
    assert_eq!(lru.query(7), Ok(tid));
}

#[test]
fn lru_evicts_least_recently_used_first() {
    let mut lru = TimelineLru::with_capacity(2);
    let t1 = TimelineId { id: 1 };
    let t2 = TimelineId { id: 2 };
    let t3 = TimelineId { id: 3 };

    let tok = lru.query(101).expect_err("miss");
    lru.insert(101, t1, tok);
    let tok = lru.query(102).expect_err("miss");
    lru.insert(102, t2, tok);

    // Touch 101 so that 102 is the least recently used.
    assert_eq!(lru.query(101), Ok(t1));

    let tok = lru.query(103).expect_err("miss: full");
    lru.insert(103, t3, tok);

    assert_eq!(lru.query(101), Ok(t1));
    assert_eq!(lru.query(103), Ok(t3));
    assert!(lru.query(102).is_err());
}

#[test]
fn binder_rebinds_evicted_timeline_and_resends_metadata() {
    let mut c = consumer(2);
    let u1: u64 = 1;
    let u2: u64 = 2;
    let u3: u64 = 3;

    let t1 = register_and_open(&mut c, u1);
    let t2 = register_and_open(&mut c, u2);
    assert_ne!(t1, t2);

    // Three distinct timelines opened so far: u3 evicts u1.
    let t3 = register_and_open(&mut c, u3);
    assert_ne!(t3, t1);
    assert_ne!(t3, t2);

    // u1 fell out of the residency set: binding it again is a fresh
    // registration (its metadata is re-sent), and re-derivation gives
    // the same remote id as before.
    let t1_again = register_and_open(&mut c, u1);
    assert_eq!(t1, t1_again);
}

#[test]
fn binder_hit_paths() {
    let mut c = consumer(4);
    let u1: u64 = 10;
    let u2: u64 = 20;

    let t1 = register_and_open(&mut c, u1);
    // Bound and resident: nothing to do.
    assert!(matches!(c.bind_query(u1), BindOutcome::AlreadyBound));

    let t2 = register_and_open(&mut c, u2);
    assert_eq!(c.bound_timeline, t2);

    // Resident but bound elsewhere: the session must open it again.
    match c.bind_query(u1) {
        BindOutcome::Open(tid) => {
            assert_eq!(tid, t1);
            c.bind_opened(tid);
        }
        other => panic!("expected an open, found {other:?}"),
    }
    assert_eq!(c.bound_timeline, t1);
}

#[test]
fn derivation_is_deterministic_and_separates_users() {
    let run = RunId { id: 0xabcd };
    let t_a = timeline_id(&run, 5);
    let t_b = timeline_id(&run, 6);
    assert_eq!(t_a, timeline_id(&run, 5));
    assert_ne!(t_a, t_b);

    let other_run = RunId { id: 0xabce };
    assert_ne!(t_a, timeline_id(&other_run, 5));
}

#[test]
fn cross_timeline_interaction_points_at_the_derived_timeline() {
    let mut c = consumer(8);
    let user_a: u64 = 0xa;
    let user_b: u64 = 0xb;

    // Producer context A binds its own timeline...
    let t_a = register_and_open(&mut c, user_a);
    assert_eq!(t_a, timeline_id(&c.run_id, user_a));
    assert_eq!(c.bound_timeline, t_a);

    // ...and emits an event that points at B's timeline by user id.
    let mut fields = FieldBag::new();
    fields.record_u64("interaction.remote_timeline_id".to_string(), user_b);
    let md = SpanMetadata {
        name: "ev".to_string(),
        level: Level::Info,
        module: None,
        file: None,
        line: None,
    };
    let rec = c
        .translate_packet(Message::Event { metadata: md, records: fields }, 1, None)
        .expect("event transmits");
    let derived = rec
        .attrs
        .iter()
        .find(|kv| kv.0.as_str() == "event.interaction.remote_timeline_id")
        .map(|kv| &kv.1);
    assert_eq!(
        derived,
        Some(&AttrVal::TimelineId(timeline_id(&c.run_id, user_b)))
    );
}

#[test]
fn timeline_metadata_carries_globals_then_name() {
    let mut c = consumer(4);
    c.global_metadata.push((
        "timeline.color".to_string(),
        tracing_modality::types::AttrVal::String("blue".to_string()),
    ));
    let pairs = c.timeline_metadata_for(&"worker-1".to_string());
    assert_eq!(pairs.len(), 2);
    assert_eq!(pairs[0].0, "timeline.color".to_string());
    assert_eq!(pairs[1].0, "timeline.name".to_string());
    assert_eq!(
        pairs[1].1,
        tracing_modality::types::AttrVal::String("worker-1".to_string())
    );
}
