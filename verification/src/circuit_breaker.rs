//! Circuit breaker: Closed → Open → HalfOpen → Closed (or back to Open).
//!
//! **Closed**: failures are counted; `failure_threshold` consecutive
//! failures open the breaker.  **Open**: calls are rejected until
//! `cool_down` has elapsed, then the breaker enters HalfOpen.  **HalfOpen**:
//! `half_open_probe_count` consecutive successes close it; any failure
//! re-opens it.  A threshold of zero disables the breaker.
//!
//! Time is a reading of a monotonic clock in milliseconds, handed in by the
//! caller on every operation; the breaker itself never reads a clock.

use vstd::prelude::*;

use crate::error::GrpcChannelConfigError;

verus! {

broadcast use vstd::string::group_string_axioms;

/// Interface of a circuit breaker.  Every operation takes the current
/// reading of the caller's monotonic clock, in milliseconds.
pub trait CircuitBreaker {
    /// `true` when the circuit is open and calls should be rejected.
    fn is_open(&mut self, now_ms: u64) -> bool;
    /// Record a successful call: may move HalfOpen → Closed.
    fn record_success(&mut self, now_ms: u64);
    /// Record a failed call: may move Closed → Open or HalfOpen → Open.
    fn record_failure(&mut self, now_ms: u64);
}

/// The phase of a breaker.
#[derive(Debug, Clone, Copy, PartialEq, Eq, Structural)]
pub enum BreakerState {
    /// Normal operation.
    Closed,
    /// Rejecting calls since the given clock reading.
    Open { opened_at_ms: u64 },
    /// Letting probe calls through.
    HalfOpen,
}

/// The abstract state of a breaker.
pub struct BreakerModel {
    pub state: BreakerState,
    pub consecutive_failures: nat,
    pub half_open_successes: nat,
    pub failure_threshold: nat,
    pub cool_down_ms: nat,
    pub half_open_probe_count: nat,
}

/// Milliseconds elapsed from `since` to `now`; zero if the clock reads
/// earlier than `since` (a monotonic clock saturates).
pub open spec fn elapsed(now: nat, since: nat) -> nat {
    if now >= since { (now - since) as nat } else { 0 }
}

/// The state with Open turned into HalfOpen once the cool-down has elapsed.
pub open spec fn advanced(m: BreakerModel, now: nat) -> BreakerModel {
    match m.state {
        BreakerState::Open { opened_at_ms } => if elapsed(now, opened_at_ms as nat) >= m.cool_down_ms {
            BreakerModel { state: BreakerState::HalfOpen, consecutive_failures: 0, half_open_successes: 0, ..m }
        } else {
            m
        },
        _ => m,
    }
}

/// The state after a success is recorded at `now`.
pub open spec fn after_success(m: BreakerModel, now: nat) -> BreakerModel {
    let g = advanced(m, now);
    match g.state {
        BreakerState::Closed => BreakerModel { consecutive_failures: 0, ..g },
        BreakerState::HalfOpen => if g.half_open_successes + 1 >= g.half_open_probe_count {
            BreakerModel { state: BreakerState::Closed, consecutive_failures: 0, half_open_successes: 0, ..g }
        } else {
            BreakerModel { half_open_successes: g.half_open_successes + 1, ..g }
        },
        BreakerState::Open { .. } => g,
    }
}

/// The state after a failure is recorded at `now`.
pub open spec fn after_failure(m: BreakerModel, now: u64) -> BreakerModel {
    if m.failure_threshold == 0 {
        m
    } else {
        let g = advanced(m, now as nat);
        match g.state {
            BreakerState::Closed => if g.consecutive_failures + 1 >= g.failure_threshold {
                BreakerModel {
                    state: BreakerState::Open { opened_at_ms: now },
                    consecutive_failures: g.consecutive_failures + 1,
                    half_open_successes: 0,
                    ..g
                }
            } else {
                BreakerModel { consecutive_failures: g.consecutive_failures + 1, ..g }
            },
            BreakerState::HalfOpen => BreakerModel {
                state: BreakerState::Open { opened_at_ms: now },
                half_open_successes: 0,
                ..g
            },
            BreakerState::Open { .. } => g,
        }
    }
}

/// Whether the breaker rejects calls at `now`.
pub open spec fn rejects(m: BreakerModel, now: nat) -> bool {
    advanced(m, now).state is Open
}

/// The invariant every breaker keeps.
pub open spec fn model_wf(m: BreakerModel) -> bool {
    &&& m.half_open_probe_count >= 1
    &&& m.failure_threshold <= u32::MAX
    &&& m.half_open_probe_count <= u32::MAX
    &&& m.cool_down_ms <= u64::MAX
    &&& m.failure_threshold == 0 ==> !(m.state is Open)
    &&& m.state is Closed ==> m.half_open_successes == 0 && (m.failure_threshold == 0
        ==> m.consecutive_failures == 0) && (m.failure_threshold > 0 ==> m.consecutive_failures
        < m.failure_threshold)
    &&& m.state is Open ==> m.half_open_successes == 0 && m.consecutive_failures <= u32::MAX
    &&& m.state is HalfOpen ==> m.consecutive_failures == 0 && m.half_open_successes
        < m.half_open_probe_count
}

/// A breaker that opens after a run of consecutive failures.
pub struct ConsecutiveFailureBreaker {
    state: BreakerState,
    consecutive_failures: u32,
    half_open_successes: u32,
    failure_threshold: u32,
    cool_down_ms: u64,
    half_open_probe_count: u32,
}

impl View for ConsecutiveFailureBreaker {
    type V = BreakerModel;

    closed spec fn view(&self) -> BreakerModel {
        BreakerModel {
            state: self.state,
            consecutive_failures: self.consecutive_failures as nat,
            half_open_successes: self.half_open_successes as nat,
            failure_threshold: self.failure_threshold as nat,
            cool_down_ms: self.cool_down_ms as nat,
            half_open_probe_count: self.half_open_probe_count as nat,
        }
    }
}

impl ConsecutiveFailureBreaker {
    #[verifier::type_invariant]
    closed spec fn wf(self) -> bool {
        model_wf(self@)
    }

    /// A closed breaker.  `failure_threshold == 0` disables it;
    /// `half_open_probe_count` is raised to at least one.
    pub fn new(failure_threshold: u32, cool_down_ms: u64, half_open_probe_count: u32) -> (b: Self)
        ensures
            b@ == (BreakerModel {
                state: BreakerState::Closed,
                consecutive_failures: 0,
                half_open_successes: 0,
                failure_threshold: failure_threshold as nat,
                cool_down_ms: cool_down_ms as nat,
                half_open_probe_count: if half_open_probe_count >= 1 { half_open_probe_count as nat } else { 1 },
            }),
            model_wf(b@),
    {
        let probes = if half_open_probe_count >= 1 { half_open_probe_count } else { 1 };
        ConsecutiveFailureBreaker {
            state: BreakerState::Closed,
            consecutive_failures: 0,
            half_open_successes: 0,
            failure_threshold,
            cool_down_ms,
            half_open_probe_count: probes,
        }
    }

    /// The current phase.
    pub fn state(&self) -> (s: BreakerState)
        ensures
            s == self@.state,
            model_wf(self@),
    {
        proof { use_type_invariant(self); }
        self.state
    }

    fn maybe_advance_to_half_open(&mut self, now_ms: u64)
        ensures
            final(self)@ == advanced(old(self)@, now_ms as nat),
    {
        proof { use_type_invariant(&*self); }
        if let BreakerState::Open { opened_at_ms } = self.state {
            let waited = if now_ms >= opened_at_ms { now_ms - opened_at_ms } else { 0 };
            if waited >= self.cool_down_ms {
                *self = ConsecutiveFailureBreaker {
                    state: BreakerState::HalfOpen,
                    consecutive_failures: 0,
                    half_open_successes: 0,
                    ..*self
                };
            }
        }
    }
}

impl CircuitBreaker for ConsecutiveFailureBreaker {
    fn is_open(&mut self, now_ms: u64) -> (open: bool)
        ensures
            final(self)@ == advanced(old(self)@, now_ms as nat),
            open == rejects(old(self)@, now_ms as nat),
            old(self)@.failure_threshold == 0 ==> !open,
            model_wf(old(self)@),
            model_wf(final(self)@),
    {
        proof { use_type_invariant(&*self); }
        self.maybe_advance_to_half_open(now_ms);
        proof { use_type_invariant(&*self); }
        matches!(self.state, BreakerState::Open { .. })
    }

    fn record_success(&mut self, now_ms: u64)
        ensures
            final(self)@ == after_success(old(self)@, now_ms as nat),
            model_wf(old(self)@),
            model_wf(final(self)@),
    {
        proof { use_type_invariant(&*self); }
        self.maybe_advance_to_half_open(now_ms);
        proof { use_type_invariant(&*self); }
        match self.state {
            BreakerState::Closed => {
                self.consecutive_failures = 0;
            },
            BreakerState::HalfOpen => {
                let next = self.half_open_successes + 1;
                if next >= self.half_open_probe_count {
                    *self = ConsecutiveFailureBreaker {
                        state: BreakerState::Closed,
                        consecutive_failures: 0,
                        half_open_successes: 0,
                        ..*self
                    };
                } else {
                    self.half_open_successes = next;
                }
            },
            BreakerState::Open { .. } => {},
        }
    }

    fn record_failure(&mut self, now_ms: u64)
        ensures
            final(self)@ == after_failure(old(self)@, now_ms),
            model_wf(old(self)@),
            model_wf(final(self)@),
    {
        proof { use_type_invariant(&*self); }
        if self.failure_threshold == 0 {
            return;
        }
        self.maybe_advance_to_half_open(now_ms);
        proof { use_type_invariant(&*self); }
        match self.state {
            BreakerState::Closed => {
                let next = self.consecutive_failures + 1;
                if next >= self.failure_threshold {
                    *self = ConsecutiveFailureBreaker {
                        state: BreakerState::Open { opened_at_ms: now_ms },
                        consecutive_failures: next,
                        half_open_successes: 0,
                        ..*self
                    };
                } else {
                    self.consecutive_failures = next;
                }
            },
            BreakerState::HalfOpen => {
                *self = ConsecutiveFailureBreaker {
                    state: BreakerState::Open { opened_at_ms: now_ms },
                    half_open_successes: 0,
                    ..*self
                };
            },
            BreakerState::Open { .. } => {},
        }
    }
}

/// Seconds as milliseconds, saturating at `u64::MAX`.
pub open spec fn secs_to_ms(secs: u64) -> u64 {
    if secs <= u64::MAX / 1000 { (secs * 1000) as u64 } else { u64::MAX }
}

/// Build the breaker a resilience configuration asks for, refusing a
/// probe count of zero.  The cool-down is given in seconds.
pub fn build_circuit_breaker(failure_threshold: u32, cool_down_seconds: u64, half_open_probe_count: u32)
    -> (r: Result<ConsecutiveFailureBreaker, GrpcChannelConfigError>)
    ensures
        r is Err <==> half_open_probe_count == 0,
        r matches Err(e) ==> e matches GrpcChannelConfigError::Config(m)
            && m@ == "half_open_probe_count must be >= 1"@,
        r matches Ok(b) ==> b@ == (BreakerModel {
            state: BreakerState::Closed,
            consecutive_failures: 0,
            half_open_successes: 0,
            failure_threshold: failure_threshold as nat,
            cool_down_ms: secs_to_ms(cool_down_seconds) as nat,
            half_open_probe_count: half_open_probe_count as nat,
        }),
{
    if half_open_probe_count == 0 {
        return Err(GrpcChannelConfigError::Config("half_open_probe_count must be >= 1".to_string()));
    }
    let cool_down_ms = if cool_down_seconds <= u64::MAX / 1000 { cool_down_seconds * 1000 } else { u64::MAX };
    Ok(ConsecutiveFailureBreaker::new(failure_threshold, cool_down_ms, half_open_probe_count))
}

// ── laws ─────────────────────────────────────────────────────────────────────

/// The state after `n` consecutive failures recorded at `now`.
pub open spec fn failures_at(m: BreakerModel, n: nat, now: u64) -> BreakerModel
    decreases n,
{
    if n == 0 { m } else { after_failure(failures_at(m, (n - 1) as nat, now), now) }
}

/// The state after `n` consecutive successes recorded at `now`.
pub open spec fn successes_at(m: BreakerModel, n: nat, now: nat) -> BreakerModel
    decreases n,
{
    if n == 0 { m } else { after_success(successes_at(m, (n - 1) as nat, now), now) }
}

/// Every operation keeps the breaker invariant.
pub proof fn lemma_operations_keep_wf(m: BreakerModel, now: u64)
    requires
        model_wf(m),
    ensures
        model_wf(advanced(m, now as nat)),
        model_wf(after_success(m, now as nat)),
        model_wf(after_failure(m, now)),
{
}

/// A breaker with threshold zero is disabled: it is never open, a failure
/// changes nothing, and no operation ever opens it.
pub proof fn lemma_zero_threshold_never_opens(m: BreakerModel, now: u64)
    requires
        model_wf(m),
        m.failure_threshold == 0,
    ensures
        !(m.state is Open),
        after_failure(m, now) == m,
        !rejects(m, now as nat),
        !(after_success(m, now as nat).state is Open),
        !(advanced(m, now as nat).state is Open),
        model_wf(after_failure(m, now)),
        model_wf(after_success(m, now as nat)),
        model_wf(advanced(m, now as nat)),
{
}

/// From a closed breaker with no recorded failures, fewer than
/// `failure_threshold` consecutive failures leave it closed, counting them.
pub proof fn lemma_failures_below_threshold_stay_closed(m: BreakerModel, n: nat, now: u64)
    requires
        model_wf(m),
        m.state is Closed,
        m.consecutive_failures == 0,
        n < m.failure_threshold,
    ensures
        failures_at(m, n, now).state is Closed,
        failures_at(m, n, now).consecutive_failures == n,
        failures_at(m, n, now).failure_threshold == m.failure_threshold,
        failures_at(m, n, now).cool_down_ms == m.cool_down_ms,
        model_wf(failures_at(m, n, now)),
    decreases n,
{
    if n > 0 {
        lemma_failures_below_threshold_stay_closed(m, (n - 1) as nat, now);
    }
}

/// From a closed breaker with no recorded failures, exactly
/// `failure_threshold` consecutive failures open it, at the time of the last one.
pub proof fn lemma_opens_at_threshold(m: BreakerModel, now: u64)
    requires
        model_wf(m),
        m.state is Closed,
        m.consecutive_failures == 0,
        m.failure_threshold > 0,
    ensures
        failures_at(m, m.failure_threshold, now).state == (BreakerState::Open { opened_at_ms: now }),
        rejects(failures_at(m, m.failure_threshold, now), now as nat) <==> m.cool_down_ms > 0,
{
    lemma_failures_below_threshold_stay_closed(m, (m.failure_threshold - 1) as nat, now);
    let f = failures_at(m, m.failure_threshold, now);
    assert(f == after_failure(failures_at(m, (m.failure_threshold - 1) as nat, now), now));
    assert(elapsed(now as nat, now as nat) == 0);
    assert(rejects(f, now as nat) == (advanced(f, now as nat).state is Open));
}

/// A success recorded while closed clears the failure count.
pub proof fn lemma_success_resets_failures(m: BreakerModel, now: nat)
    requires
        m.state is Closed,
    ensures
        after_success(m, now).state is Closed,
        after_success(m, now).consecutive_failures == 0,
{
}

/// An open breaker rejects calls exactly while the cool-down has not
/// elapsed; afterwards it lets probes through (HalfOpen).
pub proof fn lemma_open_rejects_until_cool_down(m: BreakerModel, opened_at_ms: u64, now: nat)
    requires
        m.state == (BreakerState::Open { opened_at_ms }),
    ensures
        rejects(m, now) <==> elapsed(now, opened_at_ms as nat) < m.cool_down_ms,
        !rejects(m, now) ==> advanced(m, now).state is HalfOpen,
{
}

/// From HalfOpen with no probe yet, fewer than `half_open_probe_count`
/// successes keep it half-open and count them.
pub proof fn lemma_probes_below_count_stay_half_open(m: BreakerModel, n: nat, now: nat)
    requires
        model_wf(m),
        m.state is HalfOpen,
        m.half_open_successes == 0,
        n < m.half_open_probe_count,
    ensures
        successes_at(m, n, now).state is HalfOpen,
        successes_at(m, n, now).half_open_successes == n,
        successes_at(m, n, now).half_open_probe_count == m.half_open_probe_count,
    decreases n,
{
    if n > 0 {
        lemma_probes_below_count_stay_half_open(m, (n - 1) as nat, now);
    }
}

/// From HalfOpen with no probe yet, `half_open_probe_count` consecutive
/// successes close the breaker with both counters cleared.
pub proof fn lemma_probe_count_successes_close(m: BreakerModel, now: nat)
    requires
        model_wf(m),
        m.state is HalfOpen,
        m.half_open_successes == 0,
    ensures
        successes_at(m, m.half_open_probe_count, now).state is Closed,
        successes_at(m, m.half_open_probe_count, now).consecutive_failures == 0,
        successes_at(m, m.half_open_probe_count, now).half_open_successes == 0,
{
    lemma_probes_below_count_stay_half_open(m, (m.half_open_probe_count - 1) as nat, now);
}

/// Any failure during the probe window re-opens the breaker, discarding
/// the probe successes counted so far.
pub proof fn lemma_probe_failure_reopens(m: BreakerModel, now: u64)
    requires
        model_wf(m),
        m.failure_threshold > 0,
        advanced(m, now as nat).state is HalfOpen,
    ensures
        after_failure(m, now).state == (BreakerState::Open { opened_at_ms: now }),
        after_failure(m, now).half_open_successes == 0,
{
}

/// A success recorded while the breaker is open and its cool-down has not
/// elapsed changes nothing: the breaker stays open since the same moment
/// and keeps rejecting calls until the cool-down is over.
pub proof fn lemma_success_while_open_changes_nothing(m: BreakerModel, opened_at_ms: u64, now: nat)
    requires
        m.state == (BreakerState::Open { opened_at_ms }),
        elapsed(now, opened_at_ms as nat) < m.cool_down_ms,
    ensures
        after_success(m, now) == m,
        rejects(after_success(m, now), now),
{
}

/// Whenever the breaker is still open at the moment a success is
/// recorded, the success leaves it exactly as the passage of time alone
/// would (`is_open` at the same moment).
pub proof fn lemma_success_when_open_is_ignored(m: BreakerModel, now: nat)
    requires
        advanced(m, now).state is Open,
    ensures
        after_success(m, now) == advanced(m, now),
        after_success(m, now).state == m.state,
{
}

} // verus!
