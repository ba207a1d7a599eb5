//! The submission state machine.
//!
//! One submission runs `Built -> Signed -> Sent -> {Confirmed | TimedOut
//! | Rejected}`. The machine decides every transition from plain values;
//! an unverified driver performs the sends and polls and hands the
//! outcomes back. Network failures during the send retry with exponential
//! backoff up to a bound; a rejection by the remote program surfaces at
//! once and is never retried, since resubmitting a rejected request would
//! deterministically fail again. Confirmation polling has its own bound;
//! exhausting it is the ambiguous `TimedOut` outcome, after which the
//! caller must re-query by signature, not resubmit.

use vstd::prelude::*;

use crate::errors::ClientError;

verus! {

/// The bounds a submission is driven under.
#[derive(Clone, Copy, Debug, PartialEq, Eq, Structural)]
pub struct RetryPolicy {
    pub max_send_attempts: u32,
    pub initial_backoff_ms: u64,
    pub max_poll_attempts: u32,
}

impl RetryPolicy {
    /// At least one send and one poll are always allowed.
    pub open spec fn wf(&self) -> bool {
        self.max_send_attempts >= 1 && self.max_poll_attempts >= 1
    }
}

/// The states of one submission.
#[derive(Clone, Copy, Debug, PartialEq, Eq, Structural)]
pub enum SubmissionState {
    Built,
    Signed,
    Sent,
    Confirmed,
    TimedOut,
    Rejected,
    Failed,
}

/// What the transport reported for one send.
#[derive(Clone, Copy, Debug, PartialEq, Eq, Structural)]
pub enum SendOutcome {
    Accepted,
    NetworkFailure,
    Rejected,
}

/// What the transport reported for one status poll.
#[derive(Clone, Copy, Debug, PartialEq, Eq, Structural)]
pub enum PollStatus {
    Pending,
    Confirmed,
    Failed,
}

/// What the driver must do next.
#[derive(Clone, Copy, Debug, PartialEq, Eq, Structural)]
pub enum SubmitAction {
    Proceed,
    RetryAfterMs(u64),
    Poll,
    Surface(ClientError),
    Done,
}

/// The opaque identifier and confirmation flag a finished submission
/// hands back.
pub struct SubmissionResult {
    pub signature: Vec<u8>,
    pub confirmed: bool,
}

/// One submission being driven.
#[derive(Clone, Copy, Debug, PartialEq, Eq, Structural)]
pub struct SubmissionMachine {
    pub policy: RetryPolicy,
    pub state: SubmissionState,
    pub send_attempts: u32,
    pub poll_attempts: u32,
}

/// The delay before the send after `attempts` failed ones: the initial
/// backoff doubled per failure, saturating.
pub open spec fn backoff_spec(initial: u64, attempts: nat) -> u64
    decreases attempts,
{
    if attempts == 0 {
        initial
    } else {
        let p = backoff_spec(initial, (attempts - 1) as nat);
        if p > u64::MAX / 2 {
            u64::MAX
        } else {
            (p * 2) as u64
        }
    }
}

/// What `handle_send` does: an accepted send proceeds to polling; a
/// rejection surfaces at once, never retried; a network failure retries
/// with backoff until the attempt bound, then surfaces `NetworkFailure`.
pub open spec fn step_send(m: SubmissionMachine, outcome: SendOutcome) -> (
    SubmissionMachine,
    SubmitAction,
) {
    match outcome {
        SendOutcome::Accepted => (
            SubmissionMachine { state: SubmissionState::Sent, ..m },
            SubmitAction::Poll,
        ),
        SendOutcome::Rejected => (
            SubmissionMachine { state: SubmissionState::Rejected, ..m },
            SubmitAction::Surface(ClientError::Rejected),
        ),
        SendOutcome::NetworkFailure => {
            if m.send_attempts + 1 < m.policy.max_send_attempts {
                (
                    SubmissionMachine { send_attempts: (m.send_attempts + 1) as u32, ..m },
                    SubmitAction::RetryAfterMs(
                        backoff_spec(m.policy.initial_backoff_ms, m.send_attempts as nat),
                    ),
                )
            } else {
                (
                    SubmissionMachine { state: SubmissionState::Failed, ..m },
                    SubmitAction::Surface(ClientError::NetworkFailure),
                )
            }
        },
    }
}

/// What `handle_poll` does: a confirmed status finishes; a failed status
/// is a rejection by the remote program; a pending status polls again
/// until the poll bound, then surfaces the ambiguous `TimedOut`.
pub open spec fn step_poll(m: SubmissionMachine, status: PollStatus) -> (
    SubmissionMachine,
    SubmitAction,
) {
    match status {
        PollStatus::Confirmed => (
            SubmissionMachine { state: SubmissionState::Confirmed, ..m },
            SubmitAction::Done,
        ),
        PollStatus::Failed => (
            SubmissionMachine { state: SubmissionState::Rejected, ..m },
            SubmitAction::Surface(ClientError::Rejected),
        ),
        PollStatus::Pending => {
            if m.poll_attempts + 1 < m.policy.max_poll_attempts {
                (
                    SubmissionMachine { poll_attempts: (m.poll_attempts + 1) as u32, ..m },
                    SubmitAction::Poll,
                )
            } else {
                (
                    SubmissionMachine { state: SubmissionState::TimedOut, ..m },
                    SubmitAction::Surface(ClientError::TimedOut),
                )
            }
        },
    }
}

impl SubmissionMachine {
    /// Counters never pass their bounds.
    pub open spec fn wf(&self) -> bool {
        &&& self.policy.wf()
        &&& self.send_attempts < self.policy.max_send_attempts
        &&& self.poll_attempts < self.policy.max_poll_attempts
    }

    /// A fresh submission, not yet signed.
    pub fn new(policy: RetryPolicy) -> (r: SubmissionMachine)
        requires
            policy.wf(),
        ensures
            r == (SubmissionMachine {
                policy,
                state: SubmissionState::Built,
                send_attempts: 0,
                poll_attempts: 0,
            }),
            r.wf(),
    {
        SubmissionMachine {
            policy,
            state: SubmissionState::Built,
            send_attempts: 0,
            poll_attempts: 0,
        }
    }

    /// Records that every required signature is attached.
    pub fn mark_signed(&mut self)
        requires
            old(self).wf(),
            old(self).state == SubmissionState::Built,
        ensures
            *final(self) == (SubmissionMachine { state: SubmissionState::Signed, ..*old(self) }),
            final(self).wf(),
    {
        self.state = SubmissionState::Signed;
    }

    /// Feeds one send outcome through the machine.
    pub fn handle_send(&mut self, outcome: SendOutcome) -> (a: SubmitAction)
        requires
            old(self).wf(),
            old(self).state == SubmissionState::Signed,
        ensures
            (*final(self), a) == step_send(*old(self), outcome),
            (outcome == SendOutcome::NetworkFailure && old(self).send_attempts + 1 < old(
                self,
            ).policy.max_send_attempts) ==> final(self).wf(),
    {
        match outcome {
            SendOutcome::Accepted => {
                self.state = SubmissionState::Sent;
                SubmitAction::Poll
            },
            SendOutcome::Rejected => {
                self.state = SubmissionState::Rejected;
                SubmitAction::Surface(ClientError::Rejected)
            },
            SendOutcome::NetworkFailure => {
                if self.send_attempts + 1 < self.policy.max_send_attempts {
                    let delay = backoff(self.policy.initial_backoff_ms, self.send_attempts);
                    self.send_attempts = self.send_attempts + 1;
                    SubmitAction::RetryAfterMs(delay)
                } else {
                    self.state = SubmissionState::Failed;
                    SubmitAction::Surface(ClientError::NetworkFailure)
                }
            },
        }
    }

    /// Feeds one poll status through the machine.
    pub fn handle_poll(&mut self, status: PollStatus) -> (a: SubmitAction)
        requires
            old(self).wf(),
            old(self).state == SubmissionState::Sent,
        ensures
            (*final(self), a) == step_poll(*old(self), status),
            (status == PollStatus::Pending && old(self).poll_attempts + 1 < old(
                self,
            ).policy.max_poll_attempts) ==> final(self).wf(),
    {
        match status {
            PollStatus::Confirmed => {
                self.state = SubmissionState::Confirmed;
                SubmitAction::Done
            },
            PollStatus::Failed => {
                self.state = SubmissionState::Rejected;
                SubmitAction::Surface(ClientError::Rejected)
            },
            PollStatus::Pending => {
                if self.poll_attempts + 1 < self.policy.max_poll_attempts {
                    self.poll_attempts = self.poll_attempts + 1;
                    SubmitAction::Poll
                } else {
                    self.state = SubmissionState::TimedOut;
                    SubmitAction::Surface(ClientError::TimedOut)
                }
            },
        }
    }
}

/// The delay before the next send: the initial backoff doubled once per
/// failed attempt, saturating.
pub fn backoff(initial: u64, attempts: u32) -> (r: u64)
    ensures
        r == backoff_spec(initial, attempts as nat),
{
    let mut delay: u64 = initial;
    let mut k: u32 = 0;
    while k < attempts
        invariant
            k <= attempts,
            delay == backoff_spec(initial, k as nat),
        decreases attempts - k,
    {
        if delay > u64::MAX / 2 {
            delay = u64::MAX;
        } else {
            delay = delay * 2;
        }
        k = k + 1;
    }
    delay
}

/// A rejection reported for a send is surfaced at once: the machine moves
/// to `Rejected` and the action is never a retry.
pub proof fn lemma_rejected_never_retried(m: SubmissionMachine)
    requires
        m.wf(),
        m.state == SubmissionState::Signed,
    ensures
        step_send(m, SendOutcome::Rejected).0.state == SubmissionState::Rejected,
        !(step_send(m, SendOutcome::Rejected).1 matches SubmitAction::RetryAfterMs(_)),
        step_send(m, SendOutcome::Rejected).1 == SubmitAction::Surface(ClientError::Rejected),
{
}

/// A network failure retries while attempts remain, with the doubled
/// backoff delay, and surfaces `NetworkFailure` once the bound is
/// reached.
pub proof fn lemma_network_failure_bounded_retry(m: SubmissionMachine)
    requires
        m.wf(),
        m.state == SubmissionState::Signed,
    ensures
        m.send_attempts + 1 < m.policy.max_send_attempts ==> step_send(
            m,
            SendOutcome::NetworkFailure,
        ) == (
            SubmissionMachine { send_attempts: (m.send_attempts + 1) as u32, ..m },
            SubmitAction::RetryAfterMs(
                backoff_spec(m.policy.initial_backoff_ms, m.send_attempts as nat),
            ),
        ),
        m.send_attempts + 1 >= m.policy.max_send_attempts ==> step_send(
            m,
            SendOutcome::NetworkFailure,
        ).1 == SubmitAction::Surface(ClientError::NetworkFailure),
{
}

} // verus!
