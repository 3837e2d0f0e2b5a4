//! The scheduling automaton: the committed form of the callback's last
//! decision, plus the timer bookkeeping that "waiting" is simulated with.

use vstd::prelude::*;

use crate::events::ControlFlow;
use crate::events::Event;
use crate::events::StartCause;

verus! {

/// The period, in milliseconds, of the wake timer that keeps a polling
/// engine running.
pub const POLL_PERIOD_MS: u64 = 1;

/// The lifecycle state of the engine between batches. At most one timer id is
/// ever owned: polling owns the short wake timer, a deadline sleep owns its
/// one-shot timer, and every other state owns none.
#[derive(Clone, Copy, PartialEq, Eq, Debug)]
pub enum SchedulingState {
    /// No batch has run yet under the current callback.
    Uninitialized,
    /// Tight-poll mode; `timer` is the owned repeating wake timer.
    Idle { timer: u64 },
    /// Suspended indefinitely since `since`; owns no timer.
    Waiting { since: u64 },
    /// Suspended since `since` until `deadline`; `timer` is the owned
    /// one-shot timer due at the deadline.
    WaitingUntil { since: u64, deadline: u64, timer: u64 },
    /// Latched terminal state; owns no timer.
    Terminated,
}

/// A request to the timer collaborator: arm a one-shot timer that, when it
/// fires, submits `fire_event` back into the engine.
#[derive(Clone, PartialEq, Eq, Debug)]
pub struct ArmTimer<T> {
    /// The engine's name for this timer; a later cancellation names it.
    pub id: u64,
    /// How far in the future the timer is due, in milliseconds.
    pub delay_ms: u64,
    /// What the timer submits when it fires.
    pub fire_event: Event<T>,
}

/// What the timer collaborator must do after a batch: cancel the superseded
/// timer, if any, and arm the new one, if any. Cancellation is handed out
/// before the new timer so a superseded schedule can never fire.
#[derive(Clone, PartialEq, Eq, Debug)]
pub struct TimerOps<T> {
    /// The timer owned by the replaced state, to be cancelled.
    pub cancel: Option<u64>,
    /// The timer owned by the new state, to be armed.
    pub arm: Option<ArmTimer<T>>,
}

impl<T> TimerOps<T> {
    /// No timer work at all.
    pub open spec fn is_noop(self) -> bool {
        self.cancel is None && self.arm is None
    }

    /// The empty request.
    pub fn none() -> (r: TimerOps<T>)
        ensures
            r.is_noop(),
    {
        TimerOps { cancel: None, arm: None }
    }
}

/// The timer id a state owns, if any.
pub open spec fn timer_of(s: SchedulingState) -> Option<u64> {
    match s {
        SchedulingState::Idle { timer } => Some(timer),
        SchedulingState::WaitingUntil { timer, .. } => Some(timer),
        _ => None,
    }
}

/// The projection of a state back into the decision that produced it;
/// `Uninitialized` defaults to polling.
pub open spec fn decision_of(s: SchedulingState) -> ControlFlow {
    match s {
        SchedulingState::Uninitialized => ControlFlow::ContinuePolling,
        SchedulingState::Idle { .. } => ControlFlow::ContinuePolling,
        SchedulingState::Waiting { .. } => ControlFlow::SleepUntilWoken,
        SchedulingState::WaitingUntil { deadline, .. } => ControlFlow::SleepUntil(deadline),
        SchedulingState::Terminated => ControlFlow::Terminate,
    }
}

/// Why a batch begun in state `s` starts, when the triggering event does not
/// carry its own cause. A terminated engine never starts a batch, so the
/// value for `Terminated` is never consulted.
pub open spec fn cause_of(s: SchedulingState) -> StartCause {
    match s {
        SchedulingState::Uninitialized => StartCause::InitialStart,
        SchedulingState::Idle { .. } => StartCause::WokeFromPoll,
        SchedulingState::Waiting { since } => StartCause::WokeFromCancelledWait {
            since,
            requested_resume: None,
        },
        SchedulingState::WaitingUntil { since, deadline, .. } => StartCause::WokeFromCancelledWait {
            since,
            requested_resume: Some(deadline),
        },
        SchedulingState::Terminated => StartCause::InitialStart,
    }
}

} // verus!
