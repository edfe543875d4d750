use space_thumbnails::timeout::PollAction;
use space_thumbnails::timeout::TimeoutOutcome;
use space_thumbnails::timeout::poll_decision;
use space_thumbnails::timeout::run_timeout_schedule;

#[test]
fn blocked_worker_is_abandoned_at_the_deadline() {
    // the worker blocks for 5 seconds; the deadline is 100 ms: the caller
    // gets Timeout back within one poll interval past the deadline,
    // regardless of the worker still running
    let (outcome, returned_at) = run_timeout_schedule(Some(5000), 100);
    assert_eq!(outcome, TimeoutOutcome::TimedOut);
    assert_eq!(returned_at, 120);
    assert!(returned_at >= 100 && returned_at <= 150);
}

#[test]
fn quick_worker_returns_promptly() {
    // the worker finishes after 10 ms under a 1 s deadline: the result is
    // taken at the next poll, not after the full deadline
    let (outcome, returned_at) = run_timeout_schedule(Some(10), 1000);
    assert_eq!(outcome, TimeoutOutcome::Finished);
    assert_eq!(returned_at, 20);
}

#[test]
fn worker_that_never_finishes_times_out() {
    let (outcome, returned_at) = run_timeout_schedule(None, 100);
    assert_eq!(outcome, TimeoutOutcome::TimedOut);
    assert_eq!(returned_at, 120);
}

#[test]
fn worker_done_before_first_poll_wins_immediately() {
    let (outcome, returned_at) = run_timeout_schedule(Some(0), 5000);
    assert_eq!(outcome, TimeoutOutcome::Finished);
    assert_eq!(returned_at, 0);
}

#[test]
fn completion_flag_beats_the_deadline_check() {
    // the flag is consulted before the deadline: a worker that finished by
    // the abandonment poll still has its result taken
    let (outcome, returned_at) = run_timeout_schedule(Some(115), 100);
    assert_eq!(outcome, TimeoutOutcome::Finished);
    assert_eq!(returned_at, 120);
}

#[test]
fn zero_deadline_still_polls_once() {
    let (outcome, returned_at) = run_timeout_schedule(None, 0);
    assert_eq!(outcome, TimeoutOutcome::TimedOut);
    assert_eq!(returned_at, 20);
}

#[test]
fn poll_decisions() {
    assert_eq!(poll_decision(true, 0, 100), PollAction::TakeResult);
    assert_eq!(poll_decision(true, 500, 100), PollAction::TakeResult);
    assert_eq!(poll_decision(false, 101, 100), PollAction::GiveUp);
    assert_eq!(poll_decision(false, 100, 100), PollAction::Sleep);
    assert_eq!(poll_decision(false, 0, 100), PollAction::Sleep);
}
