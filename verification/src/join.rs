//! The join/retry supervisor: a state machine for accepting room
//! invitations with exponential backoff.
//!
//! On an invite the supervisor asks for one join attempt. Each failure
//! sleeps for the current delay, starting at two seconds and doubling;
//! when the doubled delay would exceed an hour the supervisor gives up
//! for good. The application shell performs the join calls and sleeps
//! and feeds the outcomes back.

use vstd::prelude::*;

verus! {

/// The initial backoff delay, in seconds.
pub const INITIAL_JOIN_DELAY_SECS: u64 = 2;

/// The backoff ceiling, in seconds: a doubled delay above this stops
/// the retries.
pub const MAX_JOIN_DELAY_SECS: u64 = 3600;

/// Where the supervisor stands for one room invitation.
#[derive(Debug, PartialEq, Eq, Structural, Clone, Copy)]
pub enum JoinState {
    /// Invitation seen, no join attempted yet.
    Invited,
    /// A join attempt is under way; on failure the shell sleeps
    /// `delay_secs` before the next attempt. `total_slept_secs` is the
    /// backoff already attempted.
    Joining { delay_secs: u64, total_slept_secs: u64 },
    /// The room was joined; one welcome message is owed.
    Joined,
    /// Retries exhausted: terminal, no further action. Carries the
    /// backoff that was attempted in all, for the record.
    GivenUp { total_attempted_secs: u64 },
}

/// What the supervisor asks the shell to do next.
#[derive(Debug, PartialEq, Eq, Structural, Clone, Copy)]
pub enum JoinAction {
    /// Attempt to join the room now.
    AttemptJoin,
    /// Sleep this many seconds, then attempt to join again.
    RetryAfter { secs: u64 },
    /// Sleep this many seconds, then stop: no further join attempts.
    Abandon { final_sleep_secs: u64 },
    /// Send the single welcome message; a failure to send it is
    /// logged only and does not revert the join.
    SendWelcome,
}

/// Supervisor for one room invitation.
#[derive(Debug)]
pub struct JoinSupervisor {
    pub state: JoinState,
}

impl JoinSupervisor {
    /// The backoff accounting stays in range: the delay is between the
    /// initial value and twice the ceiling, and the total attempted
    /// backoff never exceeds twice the current delay.
    pub open spec fn wf(self) -> bool {
        self.state matches JoinState::Joining { delay_secs, total_slept_secs } ==> {
            &&& 2 <= delay_secs <= 7200
            &&& total_slept_secs <= 2 * delay_secs
        }
    }

    /// A supervisor that has just seen an invitation.
    pub fn new() -> (r: JoinSupervisor)
        ensures
            r.state == JoinState::Invited,
            r.wf(),
    {
        JoinSupervisor { state: JoinState::Invited }
    }

    /// Start joining: the first attempt, with the initial delay armed.
    pub fn on_invite(&mut self) -> (a: JoinAction)
        requires
            old(self).state == JoinState::Invited,
        ensures
            final(self).state == (JoinState::Joining {
                delay_secs: INITIAL_JOIN_DELAY_SECS,
                total_slept_secs: 0,
            }),
            final(self).wf(),
            a == JoinAction::AttemptJoin,
    {
        self.state = JoinState::Joining {
            delay_secs: INITIAL_JOIN_DELAY_SECS,
            total_slept_secs: 0,
        };
        JoinAction::AttemptJoin
    }

    /// A join attempt failed: the current delay is slept and then
    /// doubled; a doubled delay above the ceiling stops the retries
    /// for good, the last delay still counted as attempted.
    pub fn on_join_failure(&mut self) -> (a: JoinAction)
        requires
            old(self).state matches JoinState::Joining { .. },
            old(self).wf(),
        ensures
            final(self).wf(),
            (match old(self).state {
                JoinState::Joining { delay_secs: d, total_slept_secs: t } => {
                    if 2 * d > MAX_JOIN_DELAY_SECS {
                        final(self).state == (JoinState::GivenUp {
                            total_attempted_secs: (t + d) as u64,
                        }) && a == (JoinAction::Abandon { final_sleep_secs: d })
                    } else {
                        final(self).state == (JoinState::Joining {
                            delay_secs: (2 * d) as u64,
                            total_slept_secs: (t + d) as u64,
                        }) && a == (JoinAction::RetryAfter { secs: d })
                    }
                },
                _ => false,
            }),
    {
        match self.state {
            JoinState::Joining { delay_secs, total_slept_secs } => {
                if 2 * delay_secs > MAX_JOIN_DELAY_SECS {
                    self.state = JoinState::GivenUp {
                        total_attempted_secs: total_slept_secs + delay_secs,
                    };
                    JoinAction::Abandon { final_sleep_secs: delay_secs }
                } else {
                    self.state = JoinState::Joining {
                        delay_secs: 2 * delay_secs,
                        total_slept_secs: total_slept_secs + delay_secs,
                    };
                    JoinAction::RetryAfter { secs: delay_secs }
                }
            },
            _ => {
                JoinAction::Abandon { final_sleep_secs: 0 }
            },
        }
    }

    /// The join went through: one welcome message is sent.
    pub fn on_join_success(&mut self) -> (a: JoinAction)
        requires
            old(self).state matches JoinState::Joining { .. },
        ensures
            final(self).state == JoinState::Joined,
            final(self).wf(),
            a == JoinAction::SendWelcome,
    {
        self.state = JoinState::Joined;
        JoinAction::SendWelcome
    }
}

} // verus!
