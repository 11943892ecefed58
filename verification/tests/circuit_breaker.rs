use swe_edge_egress_grpc::{build_circuit_breaker, BreakerState, CircuitBreaker, ConsecutiveFailureBreaker, GrpcChannelConfigError};

fn cb(threshold: u32) -> ConsecutiveFailureBreaker {
    ConsecutiveFailureBreaker::new(threshold, 60_000, 1)
}

#[test]
fn test_circuit_breaker_trait_is_object_safe() {
    fn _assert(_: &dyn CircuitBreaker) {}
}

#[test]
fn test_new_starts_closed() {
    assert!(!cb(5).is_open(0));
}

#[test]
fn test_opens_after_threshold_failures() {
    let mut c = cb(3);
    c.record_failure(0);
    c.record_failure(0);
    assert!(!c.is_open(0), "should still be closed after 2 failures");
    c.record_failure(0);
    assert!(c.is_open(0), "should be open after 3 failures");
}

#[test]
fn test_success_resets_consecutive_failures() {
    let mut c = cb(3);
    c.record_failure(0);
    c.record_failure(0);
    c.record_success(0);
    c.record_failure(0);
    assert!(!c.is_open(0), "success must reset the counter");
}

#[test]
fn test_threshold_zero_never_opens() {
    let mut c = cb(0);
    for _ in 0..100 {
        c.record_failure(0);
    }
    assert!(!c.is_open(0), "threshold=0 breaker must never open");
}

#[test]
fn test_transitions_to_half_open_after_cool_down() {
    let mut c = ConsecutiveFailureBreaker::new(1, 1, 1);
    c.record_failure(0);
    assert!(c.is_open(0));
    assert!(!c.is_open(5), "should advance to HalfOpen and no longer reject");
}

#[test]
fn test_single_probe_success_closes_when_probe_count_is_one() {
    let mut c = ConsecutiveFailureBreaker::new(1, 1, 1);
    c.record_failure(0);
    c.record_success(5);
    assert!(!c.is_open(5), "breaker should be Closed after probe success");
    assert_eq!(c.state(), BreakerState::Closed);
}

#[test]
fn test_probe_failure_reopens_the_breaker() {
    let mut c = ConsecutiveFailureBreaker::new(1, 1, 1);
    c.record_failure(0);
    assert!(!c.is_open(5));
    c.record_failure(5);
    assert!(c.is_open(5), "probe failure must re-open the breaker");
}

#[test]
fn test_multi_probe_requires_n_consecutive_successes() {
    let mut c = ConsecutiveFailureBreaker::new(1, 1, 3);
    c.record_failure(0);
    c.record_success(5);
    c.record_success(5);
    assert!(!c.is_open(5), "2 of 3 probes done — should be HalfOpen, not Open");
    assert_eq!(c.state(), BreakerState::HalfOpen, "should still be HalfOpen");
    c.record_success(5);
    assert!(!c.is_open(5));
    assert_eq!(c.state(), BreakerState::Closed, "should be Closed after 3 probes");
}

#[test]
fn test_probe_failure_resets_half_open_success_count() {
    let mut c = ConsecutiveFailureBreaker::new(1, 1, 3);
    c.record_failure(0);
    c.record_success(5);
    c.record_failure(5);
    assert!(c.is_open(5));
}

#[test]
fn test_is_open_returns_false_when_closed_and_true_when_open() {
    let mut c = cb(1);
    assert!(!c.is_open(0));
    c.record_failure(0);
    assert!(c.is_open(0));
}

#[test]
fn test_record_success_resets_failure_counter_in_closed_state() {
    let mut c = cb(3);
    c.record_failure(0);
    c.record_failure(0);
    c.record_success(0);
    c.record_failure(0);
    assert!(!c.is_open(0));
}

#[test]
fn test_record_failure_opens_at_threshold() {
    let mut c = cb(2);
    c.record_failure(0);
    assert!(!c.is_open(0));
    c.record_failure(0);
    assert!(c.is_open(0));
}

#[test]
fn open_breaker_rejects_until_exactly_the_cool_down() {
    let mut c = ConsecutiveFailureBreaker::new(1, 100, 1);
    c.record_failure(1_000);
    assert_eq!(c.state(), BreakerState::Open { opened_at_ms: 1_000 });
    assert!(c.is_open(1_099));
    assert!(!c.is_open(1_100));
    assert_eq!(c.state(), BreakerState::HalfOpen);
}

#[test]
fn clock_reading_before_opening_counts_as_no_time_elapsed() {
    let mut c = ConsecutiveFailureBreaker::new(1, 100, 1);
    c.record_failure(1_000);
    assert!(c.is_open(10));
}

#[test]
fn probe_count_zero_is_raised_to_one() {
    let mut c = ConsecutiveFailureBreaker::new(1, 0, 0);
    c.record_failure(0);
    c.record_success(0);
    assert_eq!(c.state(), BreakerState::Closed);
}

#[test]
fn build_circuit_breaker_rejects_zero_probe_count_and_scales_seconds() {
    match build_circuit_breaker(5, 30, 0) {
        Err(GrpcChannelConfigError::Config(m)) => assert_eq!(m, "half_open_probe_count must be >= 1"),
        other => panic!("expected Config error, got {other:?}", other = other.is_ok()),
    }
    let mut b = build_circuit_breaker(1, 2, 1).expect("valid");
    b.record_failure(0);
    assert!(b.is_open(1_999));
    assert!(!b.is_open(2_000));
}

#[test]
fn test_build_circuit_breaker_rejects_zero_probe_count() {
    assert!(matches!(build_circuit_breaker(5, 30, 0), Err(GrpcChannelConfigError::Config(_))));
}
