//! Timeout-isolated execution. The worker runs a full load-and-capture
//! pipeline on its own execution context and cannot be cancelled; the caller
//! polls a shared completion flag at a fixed short interval and, when the
//! deadline elapses first, abandons the worker and returns at once. The
//! polling protocol itself is plain arithmetic over instants, so the library
//! carries it in full; the host that spawns the worker drives it through
//! [`poll_decision`] or replays it with [`run_timeout_schedule`].

use vstd::prelude::*;

verus! {

/// How long the caller sleeps between two polls of the completion flag,
/// in milliseconds.
pub const POLL_INTERVAL_MS: u64 = 20;

/// How a bounded run ended: the worker's result was taken, or the deadline
/// elapsed and the worker was abandoned (not cancelled — its resources stay
/// allocated for the life of the process).
#[derive(Clone, Copy, Debug, PartialEq, Eq, Structural)]
pub enum TimeoutOutcome {
    Finished,
    TimedOut,
}

/// What the polling caller does at one poll instant.
#[derive(Clone, Copy, Debug, PartialEq, Eq, Structural)]
pub enum PollAction {
    /// The completion flag is set: join the worker and take its result.
    TakeResult,
    /// The deadline has elapsed: return `Timeout` immediately, without
    /// waiting for or cancelling the worker.
    GiveUp,
    /// Neither: sleep one interval and poll again.
    Sleep,
}

/// One poll of the completion flag. The flag is consulted before the
/// deadline, so a worker that finishes exactly as the deadline passes still
/// wins; the deadline check is strict, matching "elapsed exceeds timeout".
pub fn poll_decision(done: bool, elapsed_ms: u64, timeout_ms: u64) -> (a: PollAction)
    ensures
        a == if done {
            PollAction::TakeResult
        } else if elapsed_ms > timeout_ms {
            PollAction::GiveUp
        } else {
            PollAction::Sleep
        },
{
    if done {
        PollAction::TakeResult
    } else if elapsed_ms > timeout_ms {
        PollAction::GiveUp
    } else {
        PollAction::Sleep
    }
}

/// The first poll instant at or after time `t`: polls happen at multiples
/// of the interval, starting at zero.
pub open spec fn next_poll_at(t: int) -> int {
    ((t + POLL_INTERVAL_MS - 1) / (POLL_INTERVAL_MS as int)) * (POLL_INTERVAL_MS as int)
}

/// The first poll instant strictly past the deadline: the instant at which
/// a still-running worker is abandoned.
pub open spec fn abandon_at(timeout_ms: int) -> int {
    (timeout_ms / (POLL_INTERVAL_MS as int)) * (POLL_INTERVAL_MS as int) + POLL_INTERVAL_MS
}

/// The outcome and return instant of a bounded run, given when (if ever)
/// the worker sets its completion flag.
pub open spec fn spec_run_timeout(done_at_ms: Option<u64>, timeout_ms: u64) -> (TimeoutOutcome, int) {
    match done_at_ms {
        Some(d) => {
            if next_poll_at(d as int) <= abandon_at(timeout_ms as int) {
                (TimeoutOutcome::Finished, next_poll_at(d as int))
            } else {
                (TimeoutOutcome::TimedOut, abandon_at(timeout_ms as int))
            }
        },
        None => (TimeoutOutcome::TimedOut, abandon_at(timeout_ms as int)),
    }
}

/// Replays the polling protocol against a worker whose completion instant is
/// known: poll at each interval boundary, take the result as soon as the
/// flag is up, abandon the worker at the first poll past the deadline.
/// Returns the outcome and the instant at which the caller got control back.
pub fn run_timeout_schedule(done_at_ms: Option<u64>, timeout_ms: u64) -> (r: (TimeoutOutcome, u64))
    requires
        timeout_ms + POLL_INTERVAL_MS <= u64::MAX,
    ensures
        (r.0, r.1 as int) == spec_run_timeout(done_at_ms, timeout_ms),
{
    let mut t: u64 = 0;
    loop
        invariant
            timeout_ms + POLL_INTERVAL_MS <= u64::MAX,
            t % 20 == 0,
            t == 0 || t - 20 <= timeout_ms,
            done_at_ms matches Some(d) ==> (t == 0 || d > t - 20),
        decreases timeout_ms + POLL_INTERVAL_MS - t,
    {
        let done = match done_at_ms {
            Some(d) => d <= t,
            None => false,
        };
        if done {
            proof {
                let d = done_at_ms->Some_0 as int;
                lemma_next_poll_here(d, t as int);
                lemma_abandon_floor(timeout_ms as int, t as int);
            }
            return (TimeoutOutcome::Finished, t);
        } else if t > timeout_ms {
            proof {
                lemma_abandon_here(timeout_ms as int, t as int);
                if done_at_ms is Some {
                    lemma_next_poll_late(done_at_ms->Some_0 as int, t as int);
                }
            }
            return (TimeoutOutcome::TimedOut, t);
        }
        t = t + 20;
    }
}

/// If `t` is the first interval boundary at or after `d`, it is
/// `next_poll_at(d)`.
proof fn lemma_next_poll_here(d: int, t: int)
    requires
        0 <= d <= t,
        t % 20 == 0,
        t == 0 || d > t - 20,
    ensures
        next_poll_at(d) == t,
{
    assert(((d + 19) / 20) * 20 == t) by (nonlinear_arith)
        requires
            0 <= d <= t,
            t % 20 == 0,
            t == 0 || d > t - 20,
    ;
}

/// A worker that has not finished by an interval boundary `t` does not have
/// its result taken before `t`.
proof fn lemma_next_poll_late(d: int, t: int)
    requires
        t % 20 == 0,
        d > t,
        t >= 0,
    ensures
        next_poll_at(d) > t,
{
    assert(((d + 19) / 20) * 20 > t) by (nonlinear_arith)
        requires
            t % 20 == 0,
            d > t,
            t >= 0,
    ;
}

/// The first interval boundary strictly past the deadline is `abandon_at`.
proof fn lemma_abandon_here(timeout_ms: int, t: int)
    requires
        t % 20 == 0,
        t > timeout_ms,
        timeout_ms >= 0,
        t == 0 || t - 20 <= timeout_ms,
    ensures
        abandon_at(timeout_ms) == t,
{
    assert((timeout_ms / 20) * 20 + 20 == t) by (nonlinear_arith)
        requires
            t % 20 == 0,
            t > timeout_ms,
            timeout_ms >= 0,
            t == 0 || t - 20 <= timeout_ms,
    ;
}

/// An interval boundary not yet past the deadline is no later than the
/// abandonment instant.
proof fn lemma_abandon_floor(timeout_ms: int, t: int)
    requires
        t % 20 == 0,
        t >= 0,
        t == 0 || t - 20 <= timeout_ms,
        timeout_ms >= 0,
    ensures
        t <= abandon_at(timeout_ms),
{
    assert(t <= (timeout_ms / 20) * 20 + 20) by (nonlinear_arith)
        requires
            t % 20 == 0,
            t >= 0,
            t == 0 || t - 20 <= timeout_ms,
            timeout_ms >= 0,
    ;
}

/// The caller's latency is bounded by the deadline plus one poll interval,
/// whatever the worker does — in particular a worker that blocks far past
/// the deadline delays the caller by at most one interval past it.
pub proof fn lemma_timeout_latency(done_at_ms: Option<u64>, timeout_ms: u64)
    ensures
        spec_run_timeout(done_at_ms, timeout_ms).1 <= timeout_ms + POLL_INTERVAL_MS,
        spec_run_timeout(done_at_ms, timeout_ms).0 == TimeoutOutcome::TimedOut
            ==> spec_run_timeout(done_at_ms, timeout_ms).1 > timeout_ms,
{
    assert((timeout_ms as int / 20) * 20 <= timeout_ms && (timeout_ms as int / 20) * 20
        > timeout_ms - 20) by (nonlinear_arith);
}

/// A worker that finishes before the deadline has its result taken promptly:
/// within one poll interval of its completion, not after the full deadline.
pub proof fn lemma_prompt_return(d: u64, timeout_ms: u64)
    requires
        d <= timeout_ms,
    ensures
        spec_run_timeout(Some(d), timeout_ms).0 == TimeoutOutcome::Finished,
        spec_run_timeout(Some(d), timeout_ms).1 < d + POLL_INTERVAL_MS,
        spec_run_timeout(Some(d), timeout_ms).1 >= d,
{
    assert(((d as int + 19) / 20) * 20 < d + 20 && ((d as int + 19) / 20) * 20 >= d)
        by (nonlinear_arith)
        requires d >= 0,
    ;
    assert(next_poll_at(d as int) <= abandon_at(timeout_ms as int)) by {
        assert(((d as int + 19) / 20) * 20 <= (timeout_ms as int / 20) * 20 + 20)
            by (nonlinear_arith)
            requires 0 <= d <= timeout_ms,
        ;
    }
}

} // verus!
