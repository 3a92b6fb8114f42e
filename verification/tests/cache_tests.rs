//! Load-once semantics of the session cache.

use std::cell::Cell;

use capi_core::SessionCache;
use capi_core::session::GenerationMetrics;
use capi_core::session::InferenceSession;
use capi_core::session::LoadError;

#[test]
fn second_lookup_for_same_id_never_reloads() {
    let calls = Cell::new(0u32);
    let mut cache = SessionCache::new();

    let first = cache.get_or_load("model-a", || {
        calls.set(calls.get() + 1);
        Ok(InferenceSession::new(None))
    });
    let first = first.expect("first load must succeed");
    assert_eq!(calls.get(), 1);

    let second = cache.get_or_load("model-a", || {
        calls.set(calls.get() + 1);
        Ok(InferenceSession::new(None))
    });
    let second = second.expect("a hit must succeed");

    // Exactly one loader invocation, and both callers observe the same
    // published entry.
    assert_eq!(calls.get(), 1);
    assert_eq!(first, second);
    assert_eq!(cache.entries.len(), 1);
}

#[test]
fn distinct_ids_load_independently() {
    let calls = Cell::new(0u32);
    let mut cache = SessionCache::new();
    let a = cache
        .get_or_load("a", || {
            calls.set(calls.get() + 1);
            Ok(InferenceSession::new(None))
        })
        .unwrap();
    let b = cache
        .get_or_load("b", || {
            calls.set(calls.get() + 1);
            Ok(InferenceSession::new(None))
        })
        .unwrap();
    assert_eq!(calls.get(), 2);
    assert_ne!(a, b);
    assert_eq!(cache.entries.len(), 2);
}

#[test]
fn failed_load_is_reraised_and_not_published() {
    let mut cache = SessionCache::new();
    let r = cache.get_or_load("broken", || {
        Err(LoadError::PipelineCreation { message: "no device".to_string() })
    });
    match r {
        Err(LoadError::PipelineCreation { message }) => assert_eq!(message, "no device"),
        _ => panic!("the loader's error must reach the caller"),
    }
    assert_eq!(cache.entries.len(), 0);
}

#[test]
fn session_state_changes_republish() {
    let mut cache = SessionCache::new();
    let idx = cache
        .get_or_load("m", || Ok(InferenceSession::new(None)))
        .unwrap();

    let mut session = cache.update_session(idx, InferenceSession::new(None));
    session.start_chat();
    session.record_generation(&GenerationMetrics {
        num_input_tokens: 10,
        num_output_tokens: 20,
        time_to_first_token_ms: 1,
        total_time_ms: 2,
    });
    cache.update_session(idx, session);

    let published = cache.session_at(idx);
    assert!(published.in_chat_mode);
    assert_eq!(published.context_tokens, 30);
}

#[test]
fn clear_returns_every_session() {
    let mut cache = SessionCache::new();
    cache.get_or_load("a", || Ok(InferenceSession::new(None))).unwrap();
    cache.get_or_load("b", || Ok(InferenceSession::new(None))).unwrap();
    let evicted = cache.clear();
    assert_eq!(evicted.len(), 2);
    assert_eq!(cache.entries.len(), 0);
    let r = cache.get_or_load("a", || Ok(InferenceSession::new(None)));
    assert!(r.is_ok());
    assert_eq!(cache.entries.len(), 1);
}
