//! Driving the submission state machine.

use klend_client::errors::ClientError;
use klend_client::submit::{
    backoff, PollStatus, RetryPolicy, SendOutcome, SubmissionMachine, SubmissionState,
    SubmitAction,
};

fn policy() -> RetryPolicy {
    RetryPolicy { max_send_attempts: 3, initial_backoff_ms: 100, max_poll_attempts: 2 }
}

fn signed_machine() -> SubmissionMachine {
    let mut machine = SubmissionMachine::new(policy());
    machine.mark_signed();
    machine
}

#[test]
fn a_rejection_is_never_retried() {
    let mut machine = signed_machine();
    let action = machine.handle_send(SendOutcome::Rejected);
    assert_eq!(action, SubmitAction::Surface(ClientError::Rejected));
    assert_eq!(machine.state, SubmissionState::Rejected);
    assert_eq!(machine.send_attempts, 0);
}

#[test]
fn network_failures_retry_up_to_the_bound_then_surface() {
    let mut machine = signed_machine();
    let first = machine.handle_send(SendOutcome::NetworkFailure);
    assert_eq!(first, SubmitAction::RetryAfterMs(100));
    assert_eq!(machine.state, SubmissionState::Signed);
    assert_eq!(machine.send_attempts, 1);
    let second = machine.handle_send(SendOutcome::NetworkFailure);
    assert_eq!(second, SubmitAction::RetryAfterMs(200));
    assert_eq!(machine.send_attempts, 2);
    let third = machine.handle_send(SendOutcome::NetworkFailure);
    assert_eq!(third, SubmitAction::Surface(ClientError::NetworkFailure));
    assert_eq!(machine.state, SubmissionState::Failed);
}

#[test]
fn an_accepted_send_proceeds_to_polling() {
    let mut machine = signed_machine();
    let action = machine.handle_send(SendOutcome::Accepted);
    assert_eq!(action, SubmitAction::Poll);
    assert_eq!(machine.state, SubmissionState::Sent);
}

#[test]
fn confirmation_finishes_the_submission() {
    let mut machine = signed_machine();
    machine.handle_send(SendOutcome::Accepted);
    let action = machine.handle_poll(PollStatus::Confirmed);
    assert_eq!(action, SubmitAction::Done);
    assert_eq!(machine.state, SubmissionState::Confirmed);
}

#[test]
fn a_failed_status_is_a_rejection() {
    let mut machine = signed_machine();
    machine.handle_send(SendOutcome::Accepted);
    let action = machine.handle_poll(PollStatus::Failed);
    assert_eq!(action, SubmitAction::Surface(ClientError::Rejected));
    assert_eq!(machine.state, SubmissionState::Rejected);
}

#[test]
fn exhausted_polling_times_out() {
    let mut machine = signed_machine();
    machine.handle_send(SendOutcome::Accepted);
    let pending = machine.handle_poll(PollStatus::Pending);
    assert_eq!(pending, SubmitAction::Poll);
    let timed_out = machine.handle_poll(PollStatus::Pending);
    assert_eq!(timed_out, SubmitAction::Surface(ClientError::TimedOut));
    assert_eq!(machine.state, SubmissionState::TimedOut);
}

#[test]
fn backoff_doubles_and_saturates() {
    assert_eq!(backoff(100, 0), 100);
    assert_eq!(backoff(100, 1), 200);
    assert_eq!(backoff(100, 5), 3200);
    assert_eq!(backoff(u64::MAX / 2, 1), u64::MAX - 1);
    assert_eq!(backoff(u64::MAX / 2 + 1, 1), u64::MAX);
    assert_eq!(backoff(1, 70), u64::MAX);
}
