use rocketmq_core::pending_call::CallbackDirective;
use rocketmq_core::pending_call::FailureCause;
use rocketmq_core::pending_call::Outcome;
use rocketmq_core::pending_call::PendingCall;
use rocketmq_core::registry::CorrelationRegistry;
use rocketmq_core::registry::RegistryError;

fn call(id: &str, conn: &str, created_at: u64, timeout_millis: u64) -> PendingCall {
    PendingCall::create(
        id.to_string(),
        conn.to_string(),
        created_at,
        timeout_millis,
        false,
    )
}

#[test]
fn response_is_delivered_once_and_late_frames_are_dropped() {
    // Register id C-1 with timeout 50; a response arrives at 10, a
    // duplicate of it later: the waiter sees exactly the first payload.
    let mut registry = CorrelationRegistry::new();
    registry.register(call("C-1", "conn-1", 0, 50)).unwrap();
    assert!(registry.complete_and_remove("C-1", "OK".to_string()));
    assert!(!registry.complete_and_remove("C-1", "LATE".to_string()));
    match registry.take_outcome("C-1") {
        Some(Outcome::Response(payload)) => assert_eq!(payload, "OK"),
        _ => panic!("the waiter must observe the first response"),
    }
    // Consumed for good: nothing is left to take, nothing to complete.
    assert!(registry.take_outcome("C-1").is_none());
    assert!(!registry.complete_and_remove("C-1", "AGAIN".to_string()));
    assert_eq!(registry.len(), 0);
}

#[test]
fn sweep_completes_an_expired_call_with_timeout() {
    // Register id C-2 with timeout 20 and never complete it: a sweep at 30
    // reports it and the waiter observes the timeout failure.
    let mut registry = CorrelationRegistry::new();
    registry.register(call("C-2", "conn-1", 0, 20)).unwrap();
    let early = registry.sweep(15);
    assert!(early.is_empty());
    assert!(registry.is_pending("C-2"));
    let swept = registry.sweep(30);
    assert_eq!(swept, vec!["C-2".to_string()]);
    match registry.take_outcome("C-2") {
        Some(Outcome::Failure(FailureCause::Timeout)) => (),
        _ => panic!("an expired call must fail with Timeout"),
    }
}

#[test]
fn sweep_expiry_is_strict() {
    // A call expires strictly after created_at + timeout.
    let mut registry = CorrelationRegistry::new();
    registry.register(call("C-3", "conn-1", 10, 50)).unwrap();
    assert!(registry.sweep(60).is_empty());
    assert_eq!(registry.sweep(61), vec!["C-3".to_string()]);
}

#[test]
fn duplicate_registration_is_refused() {
    let mut registry = CorrelationRegistry::new();
    registry.register(call("C-4", "conn-1", 0, 50)).unwrap();
    let second = registry.register(call("C-4", "conn-2", 5, 99));
    assert_eq!(second, Err(RegistryError::DuplicateId));
    assert_eq!(registry.len(), 1);
    // A completed-but-unconsumed call still blocks reuse of its id.
    assert!(registry.complete_and_remove("C-4", "OK".to_string()));
    assert_eq!(
        registry.register(call("C-4", "conn-1", 9, 9)),
        Err(RegistryError::DuplicateId)
    );
}

#[test]
fn unmatched_frame_is_a_silent_no_op() {
    // A frame whose id was never registered reports "not found" and
    // leaves every other call exactly as it was.
    let mut registry = CorrelationRegistry::new();
    registry.register(call("C-5", "conn-1", 0, 50)).unwrap();
    assert!(!registry.complete_and_remove("nonexistent-id", "payload".to_string()));
    assert!(!registry.cancel("nonexistent-id", FailureCause::Other));
    assert_eq!(registry.len(), 1);
    assert!(registry.is_pending("C-5"));
    assert!(registry.take_outcome("C-5").is_none());
}

#[test]
fn cancellation_fans_out_over_a_whole_connection() {
    // 100 calls under one connection id: cancelling the connection
    // completes all of them with the cause, and consuming the outcomes
    // leaves the registry empty.
    let mut registry = CorrelationRegistry::new();
    let mut ids: Vec<String> = Vec::new();
    for k in 0..100u32 {
        let id = format!("C-A-{}", k);
        registry.register(call(&id, "conn-A", 0, 1000)).unwrap();
        ids.push(id);
    }
    let cancelled = registry.cancel_all_for_connection("conn-A", FailureCause::ConnectionClosed);
    assert_eq!(cancelled, ids);
    assert_eq!(registry.pending_count(), 0);
    for id in &ids {
        match registry.take_outcome(id) {
            Some(Outcome::Failure(FailureCause::ConnectionClosed)) => (),
            _ => panic!("every call of the connection must fail with ConnectionClosed"),
        }
    }
    assert_eq!(registry.len(), 0);
}

#[test]
fn cancellation_spares_other_connections_and_completed_calls() {
    let mut registry = CorrelationRegistry::new();
    registry.register(call("C-A-1", "conn-A", 0, 1000)).unwrap();
    registry.register(call("C-B-1", "conn-B", 0, 1000)).unwrap();
    registry.register(call("C-A-2", "conn-A", 0, 1000)).unwrap();
    assert!(registry.complete_and_remove("C-A-1", "OK".to_string()));
    let cancelled = registry.cancel_all_for_connection("conn-A", FailureCause::ConnectionClosed);
    assert_eq!(cancelled, vec!["C-A-2".to_string()]);
    assert!(registry.is_pending("C-B-1"));
    match registry.take_outcome("C-A-1") {
        Some(Outcome::Response(payload)) => assert_eq!(payload, "OK"),
        _ => panic!("a completed call must keep its response"),
    }
}

#[test]
fn explicit_cancel_carries_its_cause() {
    let mut registry = CorrelationRegistry::new();
    registry.register(call("C-6", "conn-1", 0, 50)).unwrap();
    assert!(registry.cancel("C-6", FailureCause::Other));
    assert!(!registry.cancel("C-6", FailureCause::Timeout));
    match registry.take_outcome("C-6") {
        Some(Outcome::Failure(FailureCause::Other)) => (),
        _ => panic!("the first cancellation cause must stick"),
    }
}

#[test]
fn a_set_outcome_is_never_overwritten() {
    // The single-assignment cell: later writes of either kind are
    // discarded without touching the stored value.
    let mut pending = PendingCall::create("C-7".to_string(), "conn-1".to_string(), 0, 50, false);
    assert!(!pending.is_completed());
    pending.complete_with_response("FIRST".to_string());
    assert!(pending.is_completed());
    pending.complete_with_response("SECOND".to_string());
    pending.complete_with_failure(FailureCause::Timeout);
    match pending.outcome {
        Outcome::Response(ref payload) => assert_eq!(payload, "FIRST"),
        _ => panic!("the first completion must win"),
    }
}

#[test]
fn expiry_is_a_pure_strict_threshold() {
    let pending = PendingCall::create("C-8".to_string(), "conn-1".to_string(), 100, 50, false);
    assert!(!pending.is_expired(100));
    assert!(!pending.is_expired(150));
    assert!(pending.is_expired(151));
    assert!(!pending.is_expired(0));
}

#[test]
fn send_request_ok_records_the_given_value() {
    let mut pending = PendingCall::create("C-9".to_string(), "conn-1".to_string(), 0, 50, false);
    assert!(!pending.is_send_request_ok());
    pending.set_send_request_ok(true);
    assert!(pending.is_send_request_ok());
    pending.set_send_request_ok(false);
    assert!(!pending.is_send_request_ok());
}

#[test]
fn callback_directive_follows_outcome_and_send_state() {
    let mut with_callback =
        PendingCall::create("C-10".to_string(), "conn-1".to_string(), 0, 50, true);
    assert!(matches!(
        with_callback.callback_directive(),
        CallbackDirective::Skip
    ));
    with_callback.set_send_request_ok(true);
    with_callback.complete_with_response("OK".to_string());
    match with_callback.callback_directive() {
        CallbackDirective::RespondWith(payload) => assert_eq!(payload, "OK"),
        _ => panic!("a sent, answered call hands the payload to its callback"),
    }

    let mut failed = PendingCall::create("C-11".to_string(), "conn-1".to_string(), 0, 50, true);
    failed.complete_with_failure(FailureCause::Timeout);
    assert!(matches!(
        failed.callback_directive(),
        CallbackDirective::FailWith(FailureCause::Timeout)
    ));

    let mut without_callback =
        PendingCall::create("C-12".to_string(), "conn-1".to_string(), 0, 50, false);
    without_callback.complete_with_response("OK".to_string());
    assert!(matches!(
        without_callback.callback_directive(),
        CallbackDirective::Skip
    ));
}

#[test]
fn getters_report_the_registered_shape() {
    let mut pending = PendingCall::create("C-13".to_string(), "conn-9".to_string(), 7, 50, false);
    assert_eq!(pending.get_correlation_id(), "C-13");
    assert_eq!(pending.get_connection_id(), "conn-9");
    assert_eq!(pending.get_begin_timestamp(), 7);
    assert_eq!(pending.get_timeout_millis(), 50);
    pending.set_timeout_millis(80);
    assert_eq!(pending.get_timeout_millis(), 80);
}

#[test]
fn registry_queries_follow_the_lifecycle() {
    let mut registry = CorrelationRegistry::new();
    assert_eq!(registry.len(), 0);
    assert!(!registry.contains_id("C-14"));
    registry.register(call("C-14", "conn-1", 0, 50)).unwrap();
    assert!(registry.contains_id("C-14"));
    assert!(registry.is_pending("C-14"));
    assert_eq!(registry.pending_count(), 1);
    assert!(registry.complete_and_remove("C-14", "OK".to_string()));
    assert!(registry.contains_id("C-14"));
    assert!(!registry.is_pending("C-14"));
    assert_eq!(registry.pending_count(), 0);
    assert_eq!(registry.len(), 1);
}
