//! Retry decisions and the retry loop of the resilient client.
//!
//! Two retry tracks: the **standard** track (`UNAVAILABLE`, connection
//! failures, `RESOURCE_EXHAUSTED` from capacity) and the **rate-limit**
//! track (`RESOURCE_EXHAUSTED` from a rate limit), whose backoff an embedded
//! `[retry-after=Ns]` hint overrides.  `RESOURCE_EXHAUSTED` from a hard
//! quota, and every other error, is never retried.
//!
//! A call that ends with an error records one circuit-breaker failure,
//! except when that error is `RESOURCE_EXHAUSTED`: the retry layer handles
//! that condition entirely, and it never counts against the breaker.
//! Every other final error counts: transport failures (`UNAVAILABLE`,
//! `INTERNAL`, connection failures) and also every other status, timeouts
//! (a spent deadline included) and cancellations.
//!
//! Computing a backoff involves a floating-point multiplier and random
//! jitter; the caller does that and hands the library the results.  The
//! library decides whether to retry, which backoff applies, and what the
//! retry loop does next.

use vstd::prelude::*;

use crate::circuit_breaker::{
    advanced, after_failure, after_success, elapsed, rejects, secs_to_ms, BreakerModel,
    CircuitBreaker, ConsecutiveFailureBreaker,
};
use crate::error::{ErrorView, GrpcChannelConfigError, GrpcOutboundError};
use crate::resource_exhausted::{
    classify_resource_exhausted, classify_spec, parse_retry_after_hint, retry_after_spec,
    ResourceExhaustedContext,
};
use crate::status_code::GrpcStatusCode;

verus! {

broadcast use vstd::string::group_string_axioms;

/// What a retry policy decided for one error: retry after the given
/// backoff in milliseconds, or propagate the error.
#[derive(Debug, Clone, Copy, PartialEq, Eq, Structural)]
pub enum RetryDecision {
    /// Retry after sleeping this many milliseconds.
    Retry(u64),
    /// Propagate the error immediately.
    DoNotRetry,
}

/// A retry decision returned by a policy through [`RetryPolicyPort`].
#[derive(Debug, Clone, Copy, PartialEq, Eq, Structural)]
pub enum RetryOutcome {
    /// Retry after sleeping this many milliseconds.
    Retry(u64),
    /// Do not retry: propagate the error.
    DoNotRetry,
}

/// Marker for the builder of retry policies.  The policies themselves
/// compute backoffs with floating-point multipliers and jitter, so the
/// caller builds them; the library's side of a policy is
/// [`RetryPolicyPort`] and [`retry_outcome`].
pub struct RetryPolicyBuilder;

/// Interface of a retry policy.
pub trait RetryPolicyPort {
    /// Decide whether to retry `err` after the attempt with 0-based retry
    /// index `retry_index`.
    fn decide(&self, err: &GrpcOutboundError, retry_index: u32) -> RetryOutcome;
}

/// Whether an error is transient: `RESOURCE_EXHAUSTED` or `UNAVAILABLE`
/// statuses, or a transport-level `Unavailable`.
pub open spec fn is_retryable_spec(e: ErrorView) -> bool {
    match e {
        ErrorView::Status(GrpcStatusCode::ResourceExhausted, _) => true,
        ErrorView::Status(GrpcStatusCode::Unavailable, _) => true,
        ErrorView::Unavailable(_) => true,
        _ => false,
    }
}

/// `true` when `err` is a transient condition worth retrying.
///
/// Not retryable: `INTERNAL` (ambiguous), deadline exceeded (the budget is
/// gone), cancellation (respect the caller), and every other status.
pub fn is_retryable(err: &GrpcOutboundError) -> (b: bool)
    ensures
        b == is_retryable_spec(err@),
{
    match err {
        GrpcOutboundError::Status(GrpcStatusCode::ResourceExhausted, _) => true,
        GrpcOutboundError::Status(GrpcStatusCode::Unavailable, _) => true,
        GrpcOutboundError::Unavailable(_) => true,
        _ => false,
    }
}

/// The track on which an error is retried.
#[derive(Debug, Clone, Copy, PartialEq, Eq, Structural)]
pub enum RetryTrack {
    /// Fast exponential backoff, bounded by `max_attempts`.
    Standard,
    /// Slower backoff, bounded by `rate_limit_max_attempts`.
    RateLimit,
    /// Never retried.
    Never,
}

/// The track of an error.
pub open spec fn track_spec(e: ErrorView) -> RetryTrack {
    match e {
        ErrorView::Status(GrpcStatusCode::ResourceExhausted, m) => match classify_spec(m) {
            ResourceExhaustedContext::HardQuota => RetryTrack::Never,
            ResourceExhaustedContext::RateLimit => RetryTrack::RateLimit,
            ResourceExhaustedContext::Capacity => RetryTrack::Standard,
        },
        ErrorView::Status(GrpcStatusCode::Unavailable, _) => RetryTrack::Standard,
        ErrorView::Unavailable(_) => RetryTrack::Standard,
        ErrorView::ConnectionFailed(_) => RetryTrack::Standard,
        _ => RetryTrack::Never,
    }
}

/// Classify an error onto its retry track.
pub fn retry_track(err: &GrpcOutboundError) -> (t: RetryTrack)
    ensures
        t == track_spec(err@),
{
    match err {
        GrpcOutboundError::Status(GrpcStatusCode::ResourceExhausted, m) => {
            match classify_resource_exhausted(m.as_str()) {
                ResourceExhaustedContext::HardQuota => RetryTrack::Never,
                ResourceExhaustedContext::RateLimit => RetryTrack::RateLimit,
                ResourceExhaustedContext::Capacity => RetryTrack::Standard,
            }
        },
        GrpcOutboundError::Status(GrpcStatusCode::Unavailable, _) => RetryTrack::Standard,
        GrpcOutboundError::Unavailable(_) => RetryTrack::Standard,
        GrpcOutboundError::ConnectionFailed(_) => RetryTrack::Standard,
        _ => RetryTrack::Never,
    }
}

/// The decision for `e` after the attempt with retry index `retry_index`.
///
/// The standard track retries while `retry_index + 1 < max_attempts`
/// (`max_attempts` counts the first call); the rate-limit track retries
/// while `retry_index < rate_limit_max_attempts`, after the embedded hint
/// when there is one, else after `rate_limit_backoff_ms`.
pub open spec fn outcome_spec(
    e: ErrorView,
    retry_index: u32,
    max_attempts: u32,
    rate_limit_max_attempts: u32,
    standard_backoff_ms: u64,
    rate_limit_backoff_ms: u64,
) -> RetryOutcome {
    match track_spec(e) {
        RetryTrack::Never => RetryOutcome::DoNotRetry,
        RetryTrack::Standard => if retry_index + 1 < max_attempts {
            RetryOutcome::Retry(standard_backoff_ms)
        } else {
            RetryOutcome::DoNotRetry
        },
        RetryTrack::RateLimit => if retry_index < rate_limit_max_attempts {
            match e {
                ErrorView::Status(_, m) => match retry_after_spec(m) {
                    Some(secs) => RetryOutcome::Retry(secs_to_ms(secs)),
                    None => RetryOutcome::Retry(rate_limit_backoff_ms),
                },
                _ => RetryOutcome::Retry(rate_limit_backoff_ms),
            }
        } else {
            RetryOutcome::DoNotRetry
        },
    }
}

/// Decide whether to retry `err`, given the limits of both tracks and the
/// backoffs the caller computed for this retry index on each track.
pub fn retry_outcome(
    err: &GrpcOutboundError,
    retry_index: u32,
    max_attempts: u32,
    rate_limit_max_attempts: u32,
    standard_backoff_ms: u64,
    rate_limit_backoff_ms: u64,
) -> (o: RetryOutcome)
    ensures
        o == outcome_spec(err@, retry_index, max_attempts, rate_limit_max_attempts,
            standard_backoff_ms, rate_limit_backoff_ms),
{
    match retry_track(err) {
        RetryTrack::Never => RetryOutcome::DoNotRetry,
        RetryTrack::Standard => {
            if (retry_index as u64) + 1 < max_attempts as u64 {
                RetryOutcome::Retry(standard_backoff_ms)
            } else {
                RetryOutcome::DoNotRetry
            }
        },
        RetryTrack::RateLimit => {
            if retry_index < rate_limit_max_attempts {
                let hint = match err {
                    GrpcOutboundError::Status(_, m) => parse_retry_after_hint(m.as_str()),
                    _ => None,
                };
                match hint {
                    Some(secs) => {
                        let ms = if secs <= u64::MAX / 1000 { secs * 1000 } else { u64::MAX };
                        RetryOutcome::Retry(ms)
                    },
                    None => RetryOutcome::Retry(rate_limit_backoff_ms),
                }
            } else {
                RetryOutcome::DoNotRetry
            }
        },
    }
}

/// Check the attempt limits of a resilience configuration: both tracks
/// need at least one attempt.
pub fn check_retry_limits(max_attempts: u32, rate_limit_max_attempts: u32) -> (r: Result<(), GrpcChannelConfigError>)
    ensures
        r is Ok <==> max_attempts >= 1 && rate_limit_max_attempts >= 1,
        max_attempts == 0 ==> (r matches Err(GrpcChannelConfigError::Config(m))
            && m@ == "max_attempts must be >= 1"@),
        max_attempts >= 1 && rate_limit_max_attempts == 0 ==> (r matches Err(GrpcChannelConfigError::Config(m))
            && m@ == "rate_limit_max_attempts must be >= 1"@),
{
    if max_attempts == 0 {
        return Err(GrpcChannelConfigError::Config("max_attempts must be >= 1".to_string()));
    }
    if rate_limit_max_attempts == 0 {
        return Err(GrpcChannelConfigError::Config("rate_limit_max_attempts must be >= 1".to_string()));
    }
    Ok(())
}

/// A hard-quota `RESOURCE_EXHAUSTED` is never retried, whatever the limits.
pub proof fn lemma_hard_quota_never_retried(m: Seq<char>, retry_index: u32, max_attempts: u32,
    rate_limit_max_attempts: u32, standard_backoff_ms: u64, rate_limit_backoff_ms: u64)
    requires
        classify_spec(m) == ResourceExhaustedContext::HardQuota,
    ensures
        outcome_spec(ErrorView::Status(GrpcStatusCode::ResourceExhausted, m), retry_index,
            max_attempts, rate_limit_max_attempts, standard_backoff_ms, rate_limit_backoff_ms)
            == RetryOutcome::DoNotRetry,
{
}

/// Retries stay within the attempt limit of their track: a retry is only
/// decided while another attempt is allowed.
pub proof fn lemma_retries_bounded(e: ErrorView, retry_index: u32, max_attempts: u32,
    rate_limit_max_attempts: u32, standard_backoff_ms: u64, rate_limit_backoff_ms: u64)
    ensures
        outcome_spec(e, retry_index, max_attempts, rate_limit_max_attempts, standard_backoff_ms,
            rate_limit_backoff_ms) is Retry ==> (
            (track_spec(e) == RetryTrack::Standard && retry_index + 1 < max_attempts)
            || (track_spec(e) == RetryTrack::RateLimit && retry_index < rate_limit_max_attempts)),
        track_spec(e) == RetryTrack::Never ==> outcome_spec(e, retry_index, max_attempts,
            rate_limit_max_attempts, standard_backoff_ms, rate_limit_backoff_ms)
            == RetryOutcome::DoNotRetry,
{
}

/// Errors outside both tracks (`INTERNAL`, timeouts, cancellations, other
/// statuses) are never retried.
pub proof fn lemma_non_transient_never_retried(e: ErrorView)
    requires
        !is_retryable_spec(e),
        !(e is ConnectionFailed),
    ensures
        track_spec(e) == RetryTrack::Never,
{
}

/// On the rate-limit track the server's hint decides the backoff of every
/// retry, whatever the retry index and the computed backoffs: a hint of
/// `s` seconds gives `s * 1000` milliseconds (saturating at `u64::MAX`).
pub proof fn lemma_hint_overrides_every_rate_limit_retry(code: GrpcStatusCode, m: Seq<char>, secs: u64,
    retry_index: u32, max_attempts: u32, rate_limit_max_attempts: u32, standard_backoff_ms: u64,
    rate_limit_backoff_ms: u64)
    requires
        track_spec(ErrorView::Status(code, m)) == RetryTrack::RateLimit,
        retry_index < rate_limit_max_attempts,
        retry_after_spec(m) == Some(secs),
    ensures
        secs * 1000 <= u64::MAX ==> outcome_spec(ErrorView::Status(code, m), retry_index, max_attempts,
            rate_limit_max_attempts, standard_backoff_ms, rate_limit_backoff_ms)
            == RetryOutcome::Retry((secs * 1000) as u64),
        secs * 1000 > u64::MAX ==> outcome_spec(ErrorView::Status(code, m), retry_index, max_attempts,
            rate_limit_max_attempts, standard_backoff_ms, rate_limit_backoff_ms)
            == RetryOutcome::Retry(u64::MAX),
{
}

/// Without a hint the rate-limit track uses the computed rate-limit
/// backoff, and the standard track always uses the standard backoff.
pub proof fn lemma_backoff_without_hint(e: ErrorView, retry_index: u32, max_attempts: u32,
    rate_limit_max_attempts: u32, standard_backoff_ms: u64, rate_limit_backoff_ms: u64)
    ensures
        track_spec(e) == RetryTrack::Standard && retry_index + 1 < max_attempts ==> outcome_spec(e,
            retry_index, max_attempts, rate_limit_max_attempts, standard_backoff_ms, rate_limit_backoff_ms)
            == RetryOutcome::Retry(standard_backoff_ms),
        track_spec(e) == RetryTrack::RateLimit && retry_index < rate_limit_max_attempts
            && (e matches ErrorView::Status(_, m) ==> retry_after_spec(m) is None) ==> outcome_spec(e,
            retry_index, max_attempts, rate_limit_max_attempts, standard_backoff_ms, rate_limit_backoff_ms)
            == RetryOutcome::Retry(rate_limit_backoff_ms),
{
}

/// The retry track of each kind of error: `UNAVAILABLE` statuses,
/// transport-level unavailability and connection failures go on the
/// standard track; `RESOURCE_EXHAUSTED` goes by its cause (capacity on the
/// standard track, a rate limit on the rate-limit track, a hard quota
/// never); timeouts, cancellations, internal errors and every other status
/// are never retried.
pub proof fn lemma_tracks_by_error_kind(code: GrpcStatusCode, m: Seq<char>)
    ensures
        track_spec(ErrorView::Status(GrpcStatusCode::Unavailable, m)) == RetryTrack::Standard,
        track_spec(ErrorView::Unavailable(m)) == RetryTrack::Standard,
        track_spec(ErrorView::ConnectionFailed(m)) == RetryTrack::Standard,
        classify_spec(m) == ResourceExhaustedContext::Capacity
            ==> track_spec(ErrorView::Status(GrpcStatusCode::ResourceExhausted, m)) == RetryTrack::Standard,
        classify_spec(m) == ResourceExhaustedContext::RateLimit
            ==> track_spec(ErrorView::Status(GrpcStatusCode::ResourceExhausted, m)) == RetryTrack::RateLimit,
        classify_spec(m) == ResourceExhaustedContext::HardQuota
            ==> track_spec(ErrorView::Status(GrpcStatusCode::ResourceExhausted, m)) == RetryTrack::Never,
        code != GrpcStatusCode::Unavailable && code != GrpcStatusCode::ResourceExhausted
            ==> track_spec(ErrorView::Status(code, m)) == RetryTrack::Never,
        track_spec(ErrorView::Timeout(m)) == RetryTrack::Never,
        track_spec(ErrorView::Cancelled(m)) == RetryTrack::Never,
        track_spec(ErrorView::Internal(m)) == RetryTrack::Never,
{
}

/// The standard track retries exactly while another attempt is allowed:
/// with `max_attempts` counting the first call, retry `i` is decided
/// exactly when `i + 1 < max_attempts`; the rate-limit track retries
/// exactly while `i < rate_limit_max_attempts`.
pub proof fn lemma_attempt_limits(e: ErrorView, retry_index: u32, max_attempts: u32,
    rate_limit_max_attempts: u32, standard_backoff_ms: u64, rate_limit_backoff_ms: u64)
    ensures
        track_spec(e) == RetryTrack::Standard ==> (outcome_spec(e, retry_index, max_attempts,
            rate_limit_max_attempts, standard_backoff_ms, rate_limit_backoff_ms) is Retry
            <==> retry_index + 1 < max_attempts),
        track_spec(e) == RetryTrack::RateLimit ==> (outcome_spec(e, retry_index, max_attempts,
            rate_limit_max_attempts, standard_backoff_ms, rate_limit_backoff_ms) is Retry
            <==> retry_index < rate_limit_max_attempts),
{
}

// ── the retry loop ──────────────────────────────────────────────────────────

/// The state of one resilient unary call.  Clock readings and the
/// deadline are in nanoseconds; backoffs are in milliseconds.
pub struct ResilientCall {
    /// Clock reading when the call began.
    pub start_ns: u64,
    /// The caller's deadline for the whole call, retries included.
    pub deadline_ns: u128,
    /// 0-based index of the current retry.
    pub retry_index: u32,
    /// The error of the latest failed attempt.
    pub last_err: Option<GrpcOutboundError>,
}

/// What happened since the last step.
pub enum CallEvent {
    /// The call is starting.
    Begin,
    /// The latest attempt succeeded.
    AttemptSucceeded,
    /// The latest attempt failed with this error; the policy decided this.
    AttemptFailed(GrpcOutboundError, RetryOutcome),
    /// The backoff of the last `Sleep` has elapsed.
    BackoffElapsed,
}

/// What the caller does next.
#[derive(Debug)]
pub enum CallAction {
    /// Call the inner transport with this per-attempt deadline, in
    /// nanoseconds.
    CallInner { deadline_ns: u128 },
    /// Sleep this many milliseconds, then report `BackoffElapsed`.
    Sleep { backoff_ms: u64 },
    /// Return the inner transport's response.
    ReturnOk,
    /// Return this error.
    ReturnErr(GrpcOutboundError),
}

/// The state of a call with its error seen as text.
pub struct CallView {
    pub start_ns: u64,
    pub deadline_ns: u128,
    pub retry_index: u32,
    pub last_err: Option<ErrorView>,
}

/// An event with its error seen as text.
pub enum EventView {
    Begin,
    AttemptSucceeded,
    AttemptFailed(ErrorView, RetryOutcome),
    BackoffElapsed,
}

/// An action with its error seen as text.
pub enum ActionView {
    CallInner(u128),
    Sleep(u64),
    ReturnOk,
    ReturnErr(ErrorView),
}

impl View for ResilientCall {
    type V = CallView;

    open spec fn view(&self) -> CallView {
        CallView {
            start_ns: self.start_ns,
            deadline_ns: self.deadline_ns,
            retry_index: self.retry_index,
            last_err: match self.last_err {
                Some(e) => Some(e@),
                None => None,
            },
        }
    }
}

impl View for CallEvent {
    type V = EventView;

    open spec fn view(&self) -> EventView {
        match self {
            CallEvent::Begin => EventView::Begin,
            CallEvent::AttemptSucceeded => EventView::AttemptSucceeded,
            CallEvent::AttemptFailed(e, o) => EventView::AttemptFailed(e@, *o),
            CallEvent::BackoffElapsed => EventView::BackoffElapsed,
        }
    }
}

impl View for CallAction {
    type V = ActionView;

    open spec fn view(&self) -> ActionView {
        match self {
            CallAction::CallInner { deadline_ns } => ActionView::CallInner(*deadline_ns),
            CallAction::Sleep { backoff_ms } => ActionView::Sleep(*backoff_ms),
            CallAction::ReturnOk => ActionView::ReturnOk,
            CallAction::ReturnErr(e) => ActionView::ReturnErr(e@),
        }
    }
}

/// The message of a call refused by an open circuit.
pub open spec fn circuit_open_text() -> Seq<char> {
    "circuit open: too many consecutive failures"@
}

/// The message of a call whose deadline ran out before any attempt failed.
pub open spec fn deadline_exhausted_text() -> Seq<char> {
    "deadline exhausted across retry attempts"@
}

/// The breaker's clock reading, in milliseconds, at a reading of the
/// call's clock in nanoseconds.
pub open spec fn clock_ms(now_ns: u64) -> u64 {
    now_ns / 1_000_000
}

/// The error returned when the deadline runs out: the latest attempt's
/// error, or a `Timeout` when there was none.
pub open spec fn exhausted_error(c: CallView) -> ErrorView {
    match c.last_err {
        Some(e) => e,
        None => ErrorView::Timeout(deadline_exhausted_text()),
    }
}

/// Whether a call that ends with `e` counts as a breaker failure: every
/// final error does (any status, timeout, cancellation or transport
/// failure) but a `RESOURCE_EXHAUSTED` status, which the retry layer
/// handles entirely.
pub open spec fn is_breaker_failure(e: ErrorView) -> bool {
    !(e matches ErrorView::Status(GrpcStatusCode::ResourceExhausted, _))
}

/// The breaker after a call ends with `e` at breaker clock reading `ms`.
pub open spec fn breaker_after_error(b: BreakerModel, e: ErrorView, ms: u64) -> BreakerModel {
    if is_breaker_failure(e) { after_failure(b, ms) } else { b }
}

/// Start another attempt with the rest of the deadline, or give up when
/// it is spent (recording a breaker failure for the error returned).
pub open spec fn attempt_or_exhaust(c: CallView, b: BreakerModel, now: u64) -> (CallView, BreakerModel, ActionView) {
    let spent = elapsed(now as nat, c.start_ns as nat);
    if spent < c.deadline_ns {
        (c, b, ActionView::CallInner((c.deadline_ns - spent) as u128))
    } else {
        (c, breaker_after_error(b, exhausted_error(c), clock_ms(now)), ActionView::ReturnErr(exhausted_error(c)))
    }
}

/// One step of the retry loop at clock reading `now` (nanoseconds): the
/// next state, breaker and action.
pub open spec fn step_spec(c: CallView, b: BreakerModel, ev: EventView, now: u64) -> (CallView, BreakerModel, ActionView) {
    let ms = clock_ms(now);
    match ev {
        EventView::Begin => if rejects(b, ms as nat) {
            (c, advanced(b, ms as nat), ActionView::ReturnErr(ErrorView::Unavailable(circuit_open_text())))
        } else {
            attempt_or_exhaust(c, advanced(b, ms as nat), now)
        },
        EventView::AttemptSucceeded => (c, after_success(b, ms as nat), ActionView::ReturnOk),
        EventView::AttemptFailed(e, o) => match o {
            RetryOutcome::DoNotRetry => (c, breaker_after_error(b, e, ms), ActionView::ReturnErr(e)),
            RetryOutcome::Retry(backoff) => {
                let spent = elapsed(now as nat, c.start_ns as nat);
                let c2 = CallView { last_err: Some(e), ..c };
                if spent + backoff * 1_000_000 >= c.deadline_ns {
                    (c2, breaker_after_error(b, e, ms), ActionView::ReturnErr(e))
                } else {
                    let next_index = if c.retry_index < u32::MAX { (c.retry_index + 1) as u32 } else { u32::MAX };
                    (CallView { retry_index: next_index, ..c2 }, b, ActionView::Sleep(backoff))
                }
            },
        },
        EventView::BackoffElapsed => attempt_or_exhaust(c, b, now),
    }
}

/// Whether a call that ends with `err` counts as a breaker failure.
pub fn is_breaker_failure_error(err: &GrpcOutboundError) -> (b: bool)
    ensures
        b == is_breaker_failure(err@),
{
    match err {
        GrpcOutboundError::Status(GrpcStatusCode::ResourceExhausted, _) => false,
        _ => true,
    }
}

/// Record on the breaker that a call ended with `err`.
fn record_error(breaker: &mut ConsecutiveFailureBreaker, err: &GrpcOutboundError, ms: u64)
    ensures
        final(breaker)@ == breaker_after_error(old(breaker)@, err@, ms),
{
    if is_breaker_failure_error(err) {
        breaker.record_failure(ms);
    }
}

impl ResilientCall {
    /// A call starting at clock reading `now_ns` with an overall deadline,
    /// both in nanoseconds.
    pub fn new(deadline_ns: u128, now_ns: u64) -> (c: Self)
        ensures
            c@ == (CallView { start_ns: now_ns, deadline_ns, retry_index: 0, last_err: None }),
    {
        ResilientCall { start_ns: now_ns, deadline_ns, retry_index: 0, last_err: None }
    }

    fn attempt_or_exhaust(&mut self, breaker: &mut ConsecutiveFailureBreaker, now_ns: u64) -> (a: CallAction)
        ensures
            (final(self)@, final(breaker)@, a@) == attempt_or_exhaust(old(self)@, old(breaker)@, now_ns),
    {
        let spent: u64 = if now_ns >= self.start_ns { now_ns - self.start_ns } else { 0 };
        if (spent as u128) < self.deadline_ns {
            CallAction::CallInner { deadline_ns: self.deadline_ns - spent as u128 }
        } else {
            let err = match &self.last_err {
                Some(e) => e.clone(),
                None => GrpcOutboundError::Timeout("deadline exhausted across retry attempts".to_string()),
            };
            record_error(breaker, &err, now_ns / 1_000_000);
            CallAction::ReturnErr(err)
        }
    }

    /// Advance the loop by one event at clock reading `now_ns`
    /// (nanoseconds); the breaker is consulted and fed as the loop
    /// requires, on its millisecond clock.
    pub fn step(&mut self, breaker: &mut ConsecutiveFailureBreaker, event: CallEvent, now_ns: u64) -> (a: CallAction)
        ensures
            (final(self)@, final(breaker)@, a@) == step_spec(old(self)@, old(breaker)@, event@, now_ns),
    {
        let now_ms = now_ns / 1_000_000;
        match event {
            CallEvent::Begin => {
                if breaker.is_open(now_ms) {
                    CallAction::ReturnErr(GrpcOutboundError::Unavailable(
                        "circuit open: too many consecutive failures".to_string(),
                    ))
                } else {
                    self.attempt_or_exhaust(breaker, now_ns)
                }
            },
            CallEvent::AttemptSucceeded => {
                breaker.record_success(now_ms);
                CallAction::ReturnOk
            },
            CallEvent::AttemptFailed(err, outcome) => match outcome {
                RetryOutcome::DoNotRetry => {
                    record_error(breaker, &err, now_ms);
                    CallAction::ReturnErr(err)
                },
                RetryOutcome::Retry(backoff_ms) => {
                    let spent: u64 = if now_ns >= self.start_ns { now_ns - self.start_ns } else { 0 };
                    let out_of_budget = (spent as u128) + (backoff_ms as u128) * 1_000_000 >= self.deadline_ns;
                    let kept = err.clone();
                    self.last_err = Some(kept);
                    if out_of_budget {
                        record_error(breaker, &err, now_ms);
                        CallAction::ReturnErr(err)
                    } else {
                        self.retry_index = if self.retry_index < u32::MAX { self.retry_index + 1 } else { u32::MAX };
                        CallAction::Sleep { backoff_ms }
                    }
                },
            },
            CallEvent::BackoffElapsed => self.attempt_or_exhaust(breaker, now_ns),
        }
    }
}

/// An open circuit fails the call fast with `Unavailable`, before any
/// attempt, and records no failure (the breaker only advances its clock).
pub proof fn lemma_open_circuit_fails_fast(c: CallView, b: BreakerModel, now: u64)
    requires
        rejects(b, clock_ms(now) as nat),
    ensures
        step_spec(c, b, EventView::Begin, now).2 == ActionView::ReturnErr(ErrorView::Unavailable(circuit_open_text())),
        step_spec(c, b, EventView::Begin, now).1 == advanced(b, clock_ms(now) as nat),
{
}

/// A successful attempt returns the response and records one success.
pub proof fn lemma_success_records_success(c: CallView, b: BreakerModel, now: u64)
    ensures
        step_spec(c, b, EventView::AttemptSucceeded, now).2 == ActionView::ReturnOk,
        step_spec(c, b, EventView::AttemptSucceeded, now).1 == after_success(b, clock_ms(now) as nat),
{
}

/// Every attempt gets exactly the rest of the caller's deadline: the
/// retries together never run past it.
pub proof fn lemma_attempts_within_deadline(c: CallView, b: BreakerModel, ev: EventView, now: u64)
    ensures
        step_spec(c, b, ev, now).2 matches ActionView::CallInner(d) ==> d > 0
            && elapsed(now as nat, c.start_ns as nat) + d == c.deadline_ns,
{
}

/// A failed attempt either ends the call with that attempt's own error,
/// recording one breaker failure unless it is `RESOURCE_EXHAUSTED`, or
/// sleeps a backoff that still fits in the deadline, recording nothing
/// and counting one more retry.
pub proof fn lemma_failed_attempt(c: CallView, b: BreakerModel, e: ErrorView, o: RetryOutcome, now: u64)
    requires
        c.retry_index < u32::MAX,
    ensures
        ({
            let (c2, b2, a) = step_spec(c, b, EventView::AttemptFailed(e, o), now);
            &&& a is ReturnErr ==> a == ActionView::ReturnErr(e) && b2 == breaker_after_error(b, e, clock_ms(now))
            &&& a matches ActionView::Sleep(bk) ==> o == RetryOutcome::Retry(bk) && b2 == b
                && elapsed(now as nat, c.start_ns as nat) + bk * 1_000_000 < c.deadline_ns
                && c2.retry_index == c.retry_index + 1 && c2.last_err == Some(e)
            &&& (a is ReturnErr || a is Sleep)
            &&& o == RetryOutcome::DoNotRetry ==> a is ReturnErr
        }),
{
}

/// The largest retry index the policy's limits allow.
pub open spec fn retry_bound(max_attempts: u32, rate_limit_max_attempts: u32) -> int {
    if max_attempts as int - 1 >= rate_limit_max_attempts as int { max_attempts as int - 1 } else { rate_limit_max_attempts as int }
}

/// With decisions taken by `retry_outcome`, every step keeps the retry
/// index within the limits, so a call makes at most
/// `max(max_attempts, rate_limit_max_attempts + 1)` attempts.
pub proof fn lemma_retry_index_stays_bounded(c: CallView, b: BreakerModel, ev: EventView, now: u64,
    max_attempts: u32, rate_limit_max_attempts: u32, standard_backoff_ms: u64, rate_limit_backoff_ms: u64)
    requires
        c.retry_index <= retry_bound(max_attempts, rate_limit_max_attempts),
        ev matches EventView::AttemptFailed(e, o) ==> o == outcome_spec(e, c.retry_index, max_attempts,
            rate_limit_max_attempts, standard_backoff_ms, rate_limit_backoff_ms),
    ensures
        step_spec(c, b, ev, now).0.retry_index <= retry_bound(max_attempts, rate_limit_max_attempts),
{
}

/// When the deadline runs out between attempts, the call ends with the
/// latest attempt's error (a `Timeout` if none failed) and records one
/// breaker failure unless that error is `RESOURCE_EXHAUSTED`.
pub proof fn lemma_deadline_exhausted(c: CallView, b: BreakerModel, now: u64)
    requires
        elapsed(now as nat, c.start_ns as nat) >= c.deadline_ns,
    ensures
        step_spec(c, b, EventView::BackoffElapsed, now).2 == ActionView::ReturnErr(exhausted_error(c)),
        step_spec(c, b, EventView::BackoffElapsed, now).1 == breaker_after_error(b, exhausted_error(c), clock_ms(now)),
{
}

/// `RESOURCE_EXHAUSTED` is never a breaker failure: a call that ends with
/// it, however it ends, leaves the breaker as it was; any other final
/// error records exactly one failure.
pub proof fn lemma_resource_exhausted_not_breaker_failure(c: CallView, b: BreakerModel, ev: EventView, now: u64)
    ensures
        ({
            let (c2, b2, a) = step_spec(c, b, ev, now);
            &&& (a matches ActionView::ReturnErr(ErrorView::Status(GrpcStatusCode::ResourceExhausted, _))
                && !(ev is Begin)) ==> b2 == b
            &&& (a matches ActionView::ReturnErr(e) && is_breaker_failure(e) && !(ev is Begin))
                ==> b2 == after_failure(b, clock_ms(now))
        }),
{
}

/// Every final error other than a `RESOURCE_EXHAUSTED` status counts
/// against the breaker: connection failures, `Unavailable`, `INTERNAL`
/// and every other status, timeouts and cancellations alike.  A failed
/// attempt that ends the call with such an error records exactly one
/// breaker failure at the breaker's clock reading (milliseconds).
pub proof fn lemma_final_errors_trip_breaker(c: CallView, b: BreakerModel, e: ErrorView, o: RetryOutcome, now: u64)
    requires
        !(e matches ErrorView::Status(GrpcStatusCode::ResourceExhausted, _)),
    ensures
        is_breaker_failure(e),
        o == RetryOutcome::DoNotRetry ==> step_spec(c, b, EventView::AttemptFailed(e, o), now)
            == (c, after_failure(b, now / 1_000_000), ActionView::ReturnErr(e)),
        step_spec(c, b, EventView::AttemptFailed(e, o), now).2 is ReturnErr
            ==> step_spec(c, b, EventView::AttemptFailed(e, o), now).1 == after_failure(b, now / 1_000_000),
{
}

/// When the deadline runs out with a latest error that is not
/// `RESOURCE_EXHAUSTED` (or with none, a `Timeout`), one breaker failure
/// is recorded.
pub proof fn lemma_exhausted_deadline_trips_breaker(c: CallView, b: BreakerModel, now: u64)
    requires
        elapsed(now as nat, c.start_ns as nat) >= c.deadline_ns,
        !(c.last_err matches Some(ErrorView::Status(GrpcStatusCode::ResourceExhausted, _))),
    ensures
        step_spec(c, b, EventView::BackoffElapsed, now).1 == after_failure(b, now / 1_000_000),
{
}

} // verus!
