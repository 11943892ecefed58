use swe_edge_egress_grpc::{
    check_retry_limits, is_breaker_failure_error, is_retryable, retry_outcome, retry_track, GrpcChannelConfigError,
    GrpcOutboundError, GrpcStatusCode, RetryDecision, RetryOutcome, RetryPolicyBuilder, RetryPolicyPort, RetryTrack,
};

#[test]
fn test_retry_decision_do_not_retry_variant_is_constructable() {
    let _ = RetryDecision::DoNotRetry;
}

#[test]
fn test_retry_decision_retry_variant_carries_duration() {
    let d = RetryDecision::Retry(50);
    match d {
        RetryDecision::Retry(ms) => assert_eq!(ms, 50),
        RetryDecision::DoNotRetry => panic!("expected Retry"),
    }
}

#[test]
fn test_retry_outcome_do_not_retry_variant_is_constructable() {
    let _ = RetryOutcome::DoNotRetry;
}

#[test]
fn test_retry_outcome_retry_variant_carries_duration() {
    let d = RetryOutcome::Retry(50);
    match d {
        RetryOutcome::Retry(ms) => assert_eq!(ms, 50),
        RetryOutcome::DoNotRetry => panic!("expected Retry"),
    }
}

#[test]
fn test_retry_policy_port_re_export_is_object_safe() {
    fn _assert(_: &dyn RetryPolicyPort) {}
}

#[test]
fn test_retry_policy_port_is_object_safe() {
    fn _assert(_: &dyn RetryPolicyPort) {}
}

#[test]
fn test_do_not_retry_variant_is_debug() {
    let d = RetryDecision::DoNotRetry;
    assert!(format!("{d:?}").contains("DoNotRetry"));
}

#[test]
fn test_retry_variant_carries_duration() {
    let d = RetryDecision::Retry(50);
    match d {
        RetryDecision::Retry(ms) => assert_eq!(ms, 50),
        RetryDecision::DoNotRetry => panic!("expected Retry"),
    }
}

#[test]
fn test_resource_exhausted_is_retryable() {
    let err = GrpcOutboundError::Status(GrpcStatusCode::ResourceExhausted, "oom".into());
    assert!(is_retryable(&err));
}

#[test]
fn test_unavailable_status_is_retryable() {
    let err = GrpcOutboundError::Status(GrpcStatusCode::Unavailable, "down".into());
    assert!(is_retryable(&err));
}

#[test]
fn test_transport_unavailable_is_retryable() {
    assert!(is_retryable(&GrpcOutboundError::Unavailable("tcp".into())));
}

#[test]
fn test_internal_status_is_not_retryable() {
    let err = GrpcOutboundError::Status(GrpcStatusCode::Internal, "bug".into());
    assert!(!is_retryable(&err));
}

#[test]
fn test_timeout_is_not_retryable() {
    assert!(!is_retryable(&GrpcOutboundError::Timeout("late".into())));
}

#[test]
fn test_cancelled_is_not_retryable() {
    assert!(!is_retryable(&GrpcOutboundError::Cancelled("user".into())));
}

fn exhausted(msg: &str) -> GrpcOutboundError {
    GrpcOutboundError::Status(GrpcStatusCode::ResourceExhausted, msg.into())
}

#[test]
fn retry_tracks_follow_the_cause() {
    assert_eq!(retry_track(&exhausted("oom")), RetryTrack::Standard);
    assert_eq!(retry_track(&exhausted("rate limit exceeded")), RetryTrack::RateLimit);
    assert_eq!(retry_track(&exhausted("quota exceeded")), RetryTrack::Never);
    assert_eq!(retry_track(&GrpcOutboundError::ConnectionFailed("x".into())), RetryTrack::Standard);
    assert_eq!(retry_track(&GrpcOutboundError::Unavailable("x".into())), RetryTrack::Standard);
    assert_eq!(retry_track(&GrpcOutboundError::Status(GrpcStatusCode::Internal, "x".into())), RetryTrack::Never);
    assert_eq!(retry_track(&GrpcOutboundError::Timeout("x".into())), RetryTrack::Never);
}

#[test]
fn standard_track_allows_max_attempts_minus_one_retries() {
    let e = exhausted("server busy");
    assert_eq!(retry_outcome(&e, 0, 3, 1, 100, 1_000), RetryOutcome::Retry(100));
    assert_eq!(retry_outcome(&e, 1, 3, 1, 200, 1_000), RetryOutcome::Retry(200));
    assert_eq!(retry_outcome(&e, 2, 3, 1, 400, 1_000), RetryOutcome::DoNotRetry);
    assert_eq!(retry_outcome(&e, 0, 1, 5, 100, 1_000), RetryOutcome::DoNotRetry);
}

#[test]
fn rate_limit_track_uses_its_own_limit_and_backoff() {
    let e = exhausted("rate limit exceeded");
    assert_eq!(retry_outcome(&e, 0, 5, 1, 100, 1_000), RetryOutcome::Retry(1_000));
    assert_eq!(retry_outcome(&e, 1, 5, 1, 100, 1_000), RetryOutcome::DoNotRetry);
}

#[test]
fn retry_after_hint_overrides_rate_limit_backoff() {
    let e = exhausted("rate limit [retry-after=7s]");
    assert_eq!(retry_outcome(&e, 0, 5, 2, 100, 1_000), RetryOutcome::Retry(7_000));
    let huge = exhausted("throttled [retry-after=18446744073709551615s]");
    assert_eq!(retry_outcome(&huge, 0, 5, 2, 100, 1_000), RetryOutcome::Retry(u64::MAX));
}

#[test]
fn hard_quota_and_internal_are_never_retried() {
    assert_eq!(retry_outcome(&exhausted("billing limit hit"), 0, 9, 9, 1, 1), RetryOutcome::DoNotRetry);
    let internal = GrpcOutboundError::Status(GrpcStatusCode::Internal, "bug".into());
    assert_eq!(retry_outcome(&internal, 0, 9, 9, 1, 1), RetryOutcome::DoNotRetry);
}

#[test]
fn retry_limits_need_one_attempt_on_each_track() {
    assert!(check_retry_limits(3, 2).is_ok());
    match check_retry_limits(0, 2) {
        Err(GrpcChannelConfigError::Config(m)) => assert_eq!(m, "max_attempts must be >= 1"),
        other => panic!("unexpected {:?}", other.is_ok()),
    }
    match check_retry_limits(3, 0) {
        Err(GrpcChannelConfigError::Config(m)) => assert_eq!(m, "rate_limit_max_attempts must be >= 1"),
        other => panic!("unexpected {:?}", other.is_ok()),
    }
}

#[test]
fn test_build_retry_policy_rejects_zero_max_attempts() {
    assert!(matches!(check_retry_limits(0, 2), Err(GrpcChannelConfigError::Config(_))));
}

#[test]
fn test_retry_policy_builder_is_constructable() {
    let _ = RetryPolicyBuilder;
}

#[test]
fn breaker_failures_exclude_resource_exhausted() {
    for msg in ["quota exceeded", "rate limit exceeded", "oom"] {
        let e = GrpcOutboundError::Status(GrpcStatusCode::ResourceExhausted, msg.to_string());
        assert!(!is_breaker_failure_error(&e));
    }
    assert!(is_breaker_failure_error(&GrpcOutboundError::Status(GrpcStatusCode::Internal, "bug".to_string())));
    assert!(is_breaker_failure_error(&GrpcOutboundError::Unavailable("down".to_string())));
    assert!(is_breaker_failure_error(&GrpcOutboundError::Timeout("late".to_string())));
}
