//! Waiting for a condition: first briefly and often, then in intervals.

use crate::types::Ttl;
use vstd::prelude::*;

verus! {

/// How a wait goes on.
#[derive(Debug, Clone, Copy, PartialEq, Eq, Structural)]
pub enum WaitAction {
    /// The condition holds: end.
    Return,
    /// Sleep for a while, and look again.
    Sleep(Ttl),
    /// Stay on the processor for a moment, and look again.
    Spin,
    /// Give up the processor for a moment, and look again.
    Snooze,
}

/// A wait, with the interval at which the condition is looked at in the long run.
#[derive(Debug, Clone, Copy, PartialEq, Eq, Structural)]
pub struct Waiter {
    pub sleep_duration: Ttl,
}

impl Waiter {
    /// Goes on with a wait that stays on the processor. `done` says whether the condition holds, and
    /// `completed` whether the brief waits are used up.
    pub fn spin_wait(&self, done: bool, completed: bool) -> (action: WaitAction)
        ensures
            action == (if done {
                WaitAction::Return
            } else if completed {
                WaitAction::Sleep(self.sleep_duration)
            } else {
                WaitAction::Spin
            }),
    {
        if done {
            return WaitAction::Return;
        }
        if completed {
            WaitAction::Sleep(self.sleep_duration)
        } else {
            WaitAction::Spin
        }
    }

    /// Goes on with a wait that gives up the processor. `done` says whether the condition holds, and
    /// `completed` whether the brief waits are used up.
    pub fn snooze_wait(&self, done: bool, completed: bool) -> (action: WaitAction)
        ensures
            action == (if done {
                WaitAction::Return
            } else if completed {
                WaitAction::Sleep(self.sleep_duration)
            } else {
                WaitAction::Snooze
            }),
    {
        if done {
            return WaitAction::Return;
        }
        if completed {
            WaitAction::Sleep(self.sleep_duration)
        } else {
            WaitAction::Snooze
        }
    }
}

} // verus!
