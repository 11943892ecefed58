//! Drives the retry loop the way the resilient client does, with scripted
//! attempt results and a scripted clock.

use swe_edge_egress_grpc::{
    retry_outcome, CallAction, CallEvent, CircuitBreaker, ConsecutiveFailureBreaker,
    GrpcOutboundError, GrpcStatusCode, ResilientCall,
};

struct Outcome {
    result: Result<(), GrpcOutboundError>,
    calls: usize,
}

/// Run one call: `attempts[i]` is what attempt `i` returns (the last one
/// repeats); zero backoffs; the clock starts at 1 000 ms and advances
/// `tick` ms per attempt.  The loop's clock runs in nanoseconds.
fn run(
    breaker: &mut ConsecutiveFailureBreaker,
    attempts: &[Result<(), (GrpcStatusCode, &str)>],
    max_attempts: u32,
    rate_limit_max_attempts: u32,
    deadline_ms: u64,
    tick: u64,
) -> Outcome {
    let mut now: u64 = 1_000 * 1_000_000;
    let mut call = ResilientCall::new(deadline_ms as u128 * 1_000_000, now);
    let mut calls = 0usize;
    let mut action = call.step(breaker, CallEvent::Begin, now);
    loop {
        match action {
            CallAction::CallInner { deadline_ns } => {
                assert!(deadline_ns > 0);
                let r = &attempts[calls.min(attempts.len() - 1)];
                calls += 1;
                now += tick * 1_000_000;
                action = match r {
                    Ok(()) => call.step(breaker, CallEvent::AttemptSucceeded, now),
                    Err((code, msg)) => {
                        let err = GrpcOutboundError::Status(*code, msg.to_string());
                        let o = retry_outcome(&err, call.retry_index, max_attempts, rate_limit_max_attempts, 0, 0);
                        call.step(breaker, CallEvent::AttemptFailed(err, o), now)
                    }
                };
            }
            CallAction::Sleep { backoff_ms } => {
                now += backoff_ms * 1_000_000;
                action = call.step(breaker, CallEvent::BackoffElapsed, now);
            }
            CallAction::ReturnOk => return Outcome { result: Ok(()), calls },
            CallAction::ReturnErr(e) => return Outcome { result: Err(e), calls },
        }
    }
}

fn breaker(threshold: u32) -> ConsecutiveFailureBreaker {
    ConsecutiveFailureBreaker::new(threshold, 60_000, 1)
}

#[test]
fn resilient_call_succeeds_on_first_attempt() {
    let mut b = breaker(10);
    let o = run(&mut b, &[Ok(())], 3, 1, 5_000, 0);
    assert!(o.result.is_ok());
    assert_eq!(o.calls, 1);
}

#[test]
fn resilient_call_retries_capacity_exhausted_and_succeeds() {
    let mut b = breaker(10);
    let busy = Err((GrpcStatusCode::ResourceExhausted, "oom"));
    let o = run(&mut b, &[busy, busy, Ok(())], 3, 1, 5_000, 0);
    assert!(o.result.is_ok());
    assert_eq!(o.calls, 3);
}

#[test]
fn resilient_call_exhausts_retries_and_returns_last_error() {
    let mut b = breaker(10);
    let o = run(&mut b, &[Err((GrpcStatusCode::ResourceExhausted, "oom"))], 3, 1, 5_000, 0);
    assert_eq!(o.calls, 3);
    assert!(matches!(o.result, Err(GrpcOutboundError::Status(GrpcStatusCode::ResourceExhausted, _))));
}

#[test]
fn resilient_call_does_not_retry_hard_quota() {
    let mut b = breaker(99);
    let o = run(&mut b, &[Err((GrpcStatusCode::ResourceExhausted, "quota exceeded"))], 5, 1, 5_000, 0);
    assert!(o.result.is_err());
    assert_eq!(o.calls, 1, "hard quota must not retry");
}

#[test]
fn resilient_call_rate_limit_uses_its_own_track() {
    let mut b = breaker(99);
    let o = run(&mut b, &[Err((GrpcStatusCode::ResourceExhausted, "rate limit exceeded"))], 5, 1, 5_000, 0);
    assert!(o.result.is_err());
    assert_eq!(o.calls, 2, "rate-limit track: first attempt plus one retry");
}

#[test]
fn resilient_call_does_not_retry_internal() {
    let mut b = breaker(10);
    let o = run(&mut b, &[Err((GrpcStatusCode::Internal, "bug")), Ok(())], 3, 1, 5_000, 0);
    assert!(o.result.is_err());
    assert_eq!(o.calls, 1, "INTERNAL must not retry");
}

#[test]
fn resilient_call_circuit_opens_and_fails_fast() {
    let mut b = breaker(2);
    let fail = [Err((GrpcStatusCode::Internal, "bug"))];
    let _ = run(&mut b, &fail, 1, 1, 5_000, 0);
    let _ = run(&mut b, &fail, 1, 1, 5_000, 0);
    assert!(b.is_open(1_000));
    let o = run(&mut b, &fail, 1, 1, 5_000, 0);
    assert_eq!(o.calls, 0, "inner transport must not be contacted");
    match o.result {
        Err(GrpcOutboundError::Unavailable(m)) => assert!(m.contains("circuit open")),
        Err(other) => panic!("expected circuit-open Unavailable, got {other:?}"),
        Ok(()) => panic!("expected an error"),
    }
}

#[test]
fn resilient_call_stops_when_the_deadline_is_spent() {
    let mut b = breaker(10);
    let o = run(&mut b, &[Err((GrpcStatusCode::Unavailable, "down"))], 100, 1, 250, 100);
    assert_eq!(o.calls, 3);
    assert!(matches!(o.result, Err(GrpcOutboundError::Status(GrpcStatusCode::Unavailable, _))));
}

#[test]
fn zero_deadline_times_out_without_any_attempt() {
    let mut b = breaker(10);
    let o = run(&mut b, &[Ok(())], 3, 1, 0, 0);
    assert_eq!(o.calls, 0);
    match o.result {
        Err(GrpcOutboundError::Timeout(m)) => assert_eq!(m, "deadline exhausted across retry attempts"),
        Err(other) => panic!("unexpected {other:?}"),
        Ok(()) => panic!("expected a timeout"),
    }
}

#[test]
fn resource_exhausted_is_not_a_breaker_failure() {
    let mut b = breaker(1);
    let o = run(&mut b, &[Err((GrpcStatusCode::ResourceExhausted, "quota exceeded"))], 3, 1, 5_000, 0);
    assert!(o.result.is_err());
    assert!(!b.is_open(1_000), "RESOURCE_EXHAUSTED must not trip the breaker");
    let o = run(&mut b, &[Err((GrpcStatusCode::Unavailable, "down"))], 1, 1, 5_000, 0);
    assert!(o.result.is_err());
    assert!(b.is_open(1_000), "UNAVAILABLE is a breaker failure");
}
