// Interning, options, connection planning and the once-only
// initialization claim.

use tracing_modality::common::InitError;
use tracing_modality::common::InitGuard;
use tracing_modality::common::UserTimelineInfo;
use tracing_modality::ids::timeline_id;
use tracing_modality::ingest::ConnectError;
use tracing_modality::ingest::ModalityIngest;
use tracing_modality::interner::KeyCache;
use tracing_modality::layer::enabled;
use tracing_modality::layer::wrap_message;
use tracing_modality::options::Options;
use tracing_modality::types::AttrVal;

#[test]
fn reinterning_returns_the_assigned_handle() {
    let mut cache = KeyCache::new();
    assert_eq!(cache.get(&"event.name".to_string()), None);
    cache.store("event.name".to_string(), 7);
    assert_eq!(cache.get(&"event.name".to_string()), Some(7));
    // A by-value-equal key hits the same entry.
    let rebuilt = format!("event.{}", "name");
    assert_eq!(cache.get(&rebuilt), Some(7));
}

#[test]
fn event_key_dialogue_normalizes_and_memoizes() {
    let opts = Options::new().with_auth("00");
    let (mut c, _plan) = ModalityIngest::prepare_connect(opts, 1).expect("auth set");
    let miss = c.event_key_lookup(&"name".to_string()).expect_err("nothing interned yet");
    assert_eq!(miss, "event.name".to_string());
    c.event_key_store(miss, 42);
    assert_eq!(c.event_key_lookup(&"name".to_string()), Ok(42));
    assert_eq!(c.event_key_lookup(&"event.name".to_string()), Ok(42));
}

#[test]
fn auth_token_decodes_from_hex() {
    let mut opts = Options::new();
    assert!(opts.auth.is_none());
    opts.set_auth("1234567890abcdef");
    assert_eq!(
        opts.auth,
        Some(vec![0x12, 0x34, 0x56, 0x78, 0x90, 0xab, 0xcd, 0xef])
    );
    opts.set_auth("123");
    assert!(opts.auth.is_none());
    opts.set_auth("zz");
    assert!(opts.auth.is_none());
    opts.set_auth("ABCD");
    assert_eq!(opts.auth, Some(vec![0xab, 0xcd]));
}

#[test]
fn metadata_keys_gain_the_timeline_prefix() {
    let mut opts = Options::new();
    opts.add_metadata(&"color".to_string(), AttrVal::String("blue".to_string()));
    opts.add_metadata(
        &"timeline.shape".to_string(),
        AttrVal::String("round".to_string()),
    );
    opts.set_name("root");
    assert_eq!(opts.metadata[0].0, "timeline.color".to_string());
    assert_eq!(opts.metadata[1].0, "timeline.shape".to_string());
    assert_eq!(opts.metadata[2].0, "timeline.name".to_string());
}

#[test]
fn connect_plan_requires_auth() {
    let opts = Options::new();
    match ModalityIngest::prepare_connect(opts, 1) {
        Err(ConnectError::AuthRequired) => {}
        Err(other) => panic!("expected AuthRequired, found {other:?}"),
        Ok(_) => panic!("expected AuthRequired, found a connection plan"),
    }
}

#[test]
fn connect_plan_derives_endpoint_and_initial_timeline() {
    let opts = Options::new().with_auth("beef").with_server_address("ingest.example:9".to_string());
    let user: u64 = 0x5151;
    let (ingest, plan) = ModalityIngest::prepare_connect(opts, user).expect("auth set");
    assert_eq!(plan.endpoint, "modality-ingest://ingest.example:9/".to_string());
    assert_eq!(plan.auth_token, vec![0xbe, 0xef]);
    assert_eq!(plan.initial_timeline, timeline_id(&ingest.run_id, user));
    assert_eq!(ingest.bound_timeline, plan.initial_timeline);

    // The run id is published as timeline metadata in hyphenated form.
    let last = ingest.global_metadata.last().expect("run id entry");
    assert_eq!(last.0, "timeline.run_id".to_string());
    match &last.1 {
        AttrVal::String(text) => assert_eq!(text.len(), 36),
        other => panic!("expected a string, found {other:?}"),
    }
}

#[test]
fn second_init_claim_is_refused() {
    let mut guard = InitGuard::new();
    assert!(guard.try_claim().is_ok());
    match guard.try_claim() {
        Err(InitError::InitializedTwice) => {}
        other => panic!("expected InitializedTwice, found {other:?}"),
    }
    match guard.try_claim() {
        Err(InitError::InitializedTwice) => {}
        other => panic!("expected InitializedTwice, found {other:?}"),
    }
}

#[test]
fn producer_wraps_and_accepts_everything() {
    assert!(enabled());
    let info = UserTimelineInfo::new("worker".to_string(), 9);
    assert_eq!(info.name(), "worker");
    assert_eq!(info.user_id(), 9);
    let msg = tracing_modality::ingest::Message::Enter { span: 3 };
    let wrapped = wrap_message(msg, 55, info);
    assert_eq!(wrapped.tick_ns, 55);
    assert_eq!(wrapped.timeline_name, "worker".to_string());
    assert_eq!(wrapped.user_timeline_id, 9);
    assert!(matches!(
        wrapped.message,
        tracing_modality::ingest::Message::Enter { span: 3 }
    ));
}
