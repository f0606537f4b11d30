//! Keeps track of threads that can be interrupted, and stops one or all of them.
//!
//! A thread is interrupted by a signal. A signal that arrives at the wrong moment is lost, so a stop
//! sends it again and again until the thread reports that it has ended. In between it backs off:
//! first by short snoozes, with one round of signals, and then by sleeps, with a round of signals
//! before each.

use crate::error::{Error, Reason};
use crate::helpers::{handles_signals, ensure_sigaction_exists};
use crate::types::SystemCodes;
use std::collections::HashSet;
use vstd::prelude::*;

verus! {

broadcast use vstd::std_specs::hash::group_hash_axioms;

/// What a tracker knows.
#[verifier::ext_equal]
pub struct TrackerState {
    /// Whether threads may still join.
    pub can_spawn: bool,
    /// Whether a thread has joined since the last step of a stop.
    pub new_thread: bool,
    /// The threads that have joined and not left.
    pub threads: Set<u64>,
}

impl TrackerState {
    /// The state after a thread tried to join.
    pub open spec fn joined(self, thread: u64) -> TrackerState {
        if self.can_spawn {
            TrackerState { new_thread: true, threads: self.threads.insert(thread), ..self }
        } else {
            self
        }
    }

    /// The state after a thread left.
    pub open spec fn left(self, thread: u64) -> TrackerState {
        TrackerState { threads: self.threads.remove(thread), ..self }
    }

    /// The state after a stop began.
    pub open spec fn shut(self) -> TrackerState {
        TrackerState { can_spawn: false, ..self }
    }

    /// The state after a step of a stop.
    pub open spec fn stepped(self) -> TrackerState {
        if self.threads.is_empty() {
            self
        } else {
            TrackerState { new_thread: false, ..self }
        }
    }

    /// Whether the tracker has been stopped.
    pub open spec fn stopped(self) -> bool {
        !self.can_spawn && self.threads.is_empty()
    }
}

/// How far a stop has come.
#[derive(Debug, Clone, Copy, PartialEq, Eq, Structural)]
pub struct StopProgress {
    /// Whether the threads have had a signal since the snoozes began.
    pub interrupted: bool,
}

impl StopProgress {
    /// A stop that has done nothing yet.
    pub fn new() -> (progress: StopProgress)
        ensures
            progress == (StopProgress { interrupted: false }),
    {
        StopProgress { interrupted: false }
    }
}

/// What to do next to stop all threads.
#[derive(Debug)]
pub enum StopAction {
    /// Nothing: no thread is left.
    Finished,
    /// Send the signal to these threads, and sleep until something changes or a little time passes.
    Wait { interrupt: Vec<u64> },
    /// Send the signal to these threads and snooze. `reset` says that the snoozes start anew.
    Snooze { reset: bool, interrupt: Vec<u64> },
}

/// Whether `list` names each of some threads once.
pub open spec fn lists(list: Seq<u64>, threads: Set<u64>) -> bool {
    list.no_duplicates() && list.to_set() == threads
}

/// Whether `action` is the next thing to do to stop all threads. `completed` says whether the
/// snoozes are used up.
pub open spec fn is_next_stop_action(
    state: TrackerState,
    progress: StopProgress,
    completed: bool,
    action: StopAction,
) -> bool {
    if state.threads.is_empty() {
        action is Finished
    } else if completed && !state.new_thread {
        action matches StopAction::Wait { interrupt } && lists(interrupt@, state.threads)
    } else {
        action matches StopAction::Snooze { reset, interrupt } && reset == state.new_thread
            && if progress.interrupted && !state.new_thread {
            interrupt@ == Seq::<u64>::empty()
        } else {
            lists(interrupt@, state.threads)
        }
    }
}

/// How far a stop has come after a step.
pub open spec fn next_stop_progress(
    state: TrackerState,
    progress: StopProgress,
    completed: bool,
) -> StopProgress {
    if state.threads.is_empty() || (completed && !state.new_thread) {
        progress
    } else {
        StopProgress { interrupted: true }
    }
}

/// The threads that can be interrupted, by the numbers that the system gives them.
#[derive(Debug)]
pub struct InterruptibleTracker {
    can_spawn: bool,
    new_thread: bool,
    threads: HashSet<u64>,
}

impl View for InterruptibleTracker {
    type V = TrackerState;

    closed spec fn view(&self) -> TrackerState {
        TrackerState {
            can_spawn: self.can_spawn,
            new_thread: self.new_thread,
            threads: self.threads@,
        }
    }
}

/// Shows that a tracked thread is running. It is given back when the thread ends its work.
#[derive(Debug)]
pub struct InterruptibleGuard {
    thread: u64,
}

impl InterruptibleGuard {
    /// The thread.
    pub closed spec fn thread(&self) -> u64 {
        self.thread
    }
}

/// Names a tracked thread, so that it can be stopped.
#[derive(Debug, Clone, Copy, PartialEq, Eq, Structural)]
pub struct InterruptibleHandle {
    /// The thread.
    pub thread: u64,
}

/// What to do next to stop one thread.
#[derive(Debug, Clone, Copy, PartialEq, Eq, Structural)]
pub enum HandleAction {
    /// Nothing: the thread has ended.
    Finished,
    /// Send the signal to this thread, and sleep until it ends or a little time passes.
    Wait { interrupt: u64 },
    /// Send the signal to this thread, if there is one, and snooze.
    Snooze { signal: Option<u64> },
}

impl InterruptibleTracker {
    /// A tracker without threads. `handler` is what the process does on `SIGUSR1`, which must be
    /// neither the default nor nothing.
    pub fn new(codes: &SystemCodes, handler: Result<usize, Error>) -> (tracker: Result<
        InterruptibleTracker,
        Error,
    >)
        ensures
            match handler {
                Err(error) => tracker == Err::<InterruptibleTracker, Error>(error),
                Ok(handler) => if handles_signals(*codes, handler) {
                    tracker matches Ok(tracker) && tracker@ == (TrackerState {
                        can_spawn: true,
                        new_thread: false,
                        threads: Set::empty(),
                    })
                } else {
                    tracker == Err::<InterruptibleTracker, Error>(
                        Error::Own(Reason::NoSignalHandler),
                    )
                },
            },
    {
        match ensure_sigaction_exists(codes, handler) {
            Err(error) => Err(error),
            Ok(()) => Ok(
                InterruptibleTracker { can_spawn: true, new_thread: false, threads: HashSet::new() },
            ),
        }
    }

    /// Lets a thread join, unless a stop has begun.
    pub fn track(&mut self, thread: u64) -> (joined: Result<(), Error>)
        ensures
            joined == (if old(self)@.can_spawn {
                Ok(())
            } else {
                Err(Error::Own(Reason::TrackerShutDown))
            }),
            final(self)@ == old(self)@.joined(thread),
    {
        if !self.can_spawn {
            return Err(Error::Own(Reason::TrackerShutDown));
        }
        self.threads.insert(thread);
        self.new_thread = true;
        Ok(())
    }

    /// Lets a thread leave.
    pub fn untrack(&mut self, thread: u64)
        ensures
            final(self)@ == old(self)@.left(thread),
    {
        self.threads.remove(&thread);
    }

    /// Lets a thread join, with a guard for the thread itself and a handle to stop it by.
    pub fn guard(&mut self, thread: u64) -> (joined: Result<
        (InterruptibleGuard, InterruptibleHandle),
        Error,
    >)
        ensures
            match joined {
                Ok((guard, handle)) => {
                    &&& old(self)@.can_spawn
                    &&& guard.thread() == thread
                    &&& handle.thread == thread
                },
                Err(error) => {
                    &&& !old(self)@.can_spawn
                    &&& error == Error::Own(Reason::TrackerShutDown)
                },
            },
            final(self)@ == old(self)@.joined(thread),
    {
        match self.track(thread) {
            Ok(()) => Ok((InterruptibleGuard { thread }, InterruptibleHandle { thread })),
            Err(error) => Err(error),
        }
    }

    /// The handle of a new thread. `started` is its number, unless it could not be started, and
    /// `report` what it says of joining the tracker. A thread that says nothing has failed.
    pub fn spawn(&self, started: Result<u64, Error>, report: Option<Result<(), Error>>) -> (spawned:
        Result<InterruptibleHandle, Error>)
        ensures
            spawned == (match (started, report) {
                (Err(error), _) => Err(error),
                (Ok(_), None) => Err(Error::Own(Reason::CheckingThreadHungUp)),
                (Ok(_), Some(Err(error))) => Err(error),
                (Ok(thread), Some(Ok(()))) => Ok(InterruptibleHandle { thread }),
            }),
    {
        let thread = match started {
            Ok(thread) => thread,
            Err(error) => return Err(error),
        };
        match report {
            Some(Ok(())) => Ok(InterruptibleHandle { thread }),
            Some(Err(error)) => Err(error),
            None => Err(Error::Own(Reason::CheckingThreadHungUp)),
        }
    }

    /// Lists the threads.
    fn thread_list(&self) -> (list: Vec<u64>)
        ensures
            lists(list@, self@.threads),
    {
        let mut list: Vec<u64> = Vec::new();
        for thread in iter: self.threads.iter()
            invariant
                iter.seq().unref().to_set() == self.threads@,
                iter.seq().no_duplicates(),
                list@.len() == iter.index(),
                forall|i: int| 0 <= i < list@.len() ==> list@[i] == *iter.seq()[i],
                forall|i: int| 0 <= i < list@.len() ==> self.threads@.contains(list@[i]),
                forall|thread: u64| #[trigger]
                    self.threads@.contains(thread) ==> list@.contains(thread) || exists|i: int|
                        iter.index() <= i < iter.seq().len() && *iter.seq()[i] == thread,
                list@.no_duplicates(),
        {
            let ghost before = list@;
            list.push(*thread);
            proof {
                assert(iter.seq().unref()[before.len() as int] == *thread);
                assert(iter.seq().unref().to_set().contains(*thread));
                assert(list@.last() == *thread);
                assert forall|other: u64| #[trigger] self.threads@.contains(other) implies
                    list@.contains(other) || exists|i: int|
                        iter.index() + 1 <= i < iter.seq().len() && *iter.seq()[i] == other by {
                    if before.contains(other) {
                        let i = choose|i: int| 0 <= i < before.len() && before[i] == other;
                        assert(list@[i] == other);
                    }
                }
            }
        }
        assert(list@.to_set() =~= self.threads@);
        list
    }

    /// Begins to stop all threads: no thread can join any more.
    pub fn begin_stop(&mut self) -> (progress: StopProgress)
        ensures
            progress == (StopProgress { interrupted: false }),
            final(self)@ == old(self)@.shut(),
    {
        self.can_spawn = false;
        StopProgress::new()
    }

    /// Decides what to do next to stop all threads. `completed` says whether the snoozes are used
    /// up.
    pub fn stop(&mut self, progress: &mut StopProgress, completed: bool) -> (action: StopAction)
        ensures
            is_next_stop_action(old(self)@, *old(progress), completed, action),
            *final(progress) == next_stop_progress(old(self)@, *old(progress), completed),
            final(self)@ == old(self)@.stepped(),
    {
        if self.threads.is_empty() {
            return StopAction::Finished;
        }
        let reset = self.new_thread;
        if reset {
            self.new_thread = false;
            progress.interrupted = false;
        }
        if completed && !reset {
            return StopAction::Wait { interrupt: self.thread_list() };
        }
        let interrupt = if progress.interrupted {
            Vec::new()
        } else {
            self.thread_list()
        };
        progress.interrupted = true;
        StopAction::Snooze { reset, interrupt }
    }
}

impl InterruptibleGuard {
    /// Ends the work of a thread: it leaves the tracker and is marked as ended.
    pub fn release(self, tracker: &mut InterruptibleTracker, exited: &mut bool)
        ensures
            final(tracker)@ == old(tracker)@.left(self.thread()),
            *final(exited),
    {
        tracker.untrack(self.thread);
        *exited = true;
    }
}

impl InterruptibleHandle {
    /// Decides what to do next to stop the thread. `exited` says whether it has ended, and
    /// `completed` whether the snoozes are used up.
    pub fn stop(self, exited: bool, progress: &mut StopProgress, completed: bool) -> (action:
        HandleAction)
        ensures
            action == (if exited {
                HandleAction::Finished
            } else if completed {
                HandleAction::Wait { interrupt: self.thread }
            } else if old(progress).interrupted {
                HandleAction::Snooze { signal: None }
            } else {
                HandleAction::Snooze { signal: Some(self.thread) }
            }),
            *final(progress) == (StopProgress {
                interrupted: old(progress).interrupted || (!exited && !completed),
            }),
    {
        if exited {
            return HandleAction::Finished;
        }
        if completed {
            return HandleAction::Wait { interrupt: self.thread };
        }
        if progress.interrupted {
            return HandleAction::Snooze { signal: None };
        }
        progress.interrupted = true;
        HandleAction::Snooze { signal: Some(self.thread) }
    }
}

/// How to get back a lock after a snooze.
#[derive(Debug, Clone, Copy, PartialEq, Eq, Structural)]
pub enum Reacquire {
    /// The lock is held.
    Held,
    /// Wait for the lock.
    Block,
    /// Snooze, and try again.
    Snooze,
}

/// Decides how to get back a lock after a snooze. `locked` says whether the attempt to take it
/// succeeded, and `completed` whether the snoozes are used up.
pub fn reacquire(locked: bool, completed: bool) -> (next: Reacquire)
    ensures
        next == (if locked {
            Reacquire::Held
        } else if completed {
            Reacquire::Block
        } else {
            Reacquire::Snooze
        }),
{
    if locked {
        Reacquire::Held
    } else if completed {
        Reacquire::Block
    } else {
        Reacquire::Snooze
    }
}

/// Once a stop has begun, no thread joins: whatever happens, only threads that were there remain.
pub proof fn shut_tracker_only_shrinks(state: TrackerState, thread: u64)
    requires
        !state.can_spawn,
    ensures
        !state.joined(thread).can_spawn,
        !state.left(thread).can_spawn,
        !state.shut().can_spawn,
        !state.stepped().can_spawn,
        state.joined(thread).threads.subset_of(state.threads),
        state.left(thread).threads.subset_of(state.threads),
        state.shut().threads.subset_of(state.threads),
        state.stepped().threads.subset_of(state.threads),
{
}

/// A stopped tracker stays stopped.
pub proof fn stopped_tracker_stays_stopped(state: TrackerState, thread: u64)
    requires
        state.stopped(),
    ensures
        state.joined(thread).stopped(),
        state.left(thread).stopped(),
        state.shut().stopped(),
        state.stepped().stopped(),
{
    assert(state.left(thread).threads =~= state.threads);
}

/// A stop ends exactly when the tracker is stopped.
pub proof fn stop_ends_when_stopped(
    state: TrackerState,
    progress: StopProgress,
    completed: bool,
    action: StopAction,
)
    requires
        !state.can_spawn,
        is_next_stop_action(state, progress, completed, action),
    ensures
        action is Finished <==> state.stopped(),
{
}

/// The first step of a stop, and each step after a thread has joined, sends the signal to every
/// thread.
pub proof fn new_threads_are_interrupted(
    state: TrackerState,
    progress: StopProgress,
    completed: bool,
    action: StopAction,
)
    requires
        !state.threads.is_empty(),
        !progress.interrupted || state.new_thread,
        is_next_stop_action(state, progress, completed, action),
    ensures
        match action {
            StopAction::Finished => false,
            StopAction::Wait { interrupt } => lists(interrupt@, state.threads),
            StopAction::Snooze { reset: _, interrupt } => lists(interrupt@, state.threads),
        },
{
}

/// Once the snoozes are used up, each step sends the signal to every thread, until none is left.
pub proof fn remaining_threads_are_interrupted(
    state: TrackerState,
    progress: StopProgress,
    action: StopAction,
)
    requires
        !state.threads.is_empty(),
        !state.new_thread,
        is_next_stop_action(state, progress, true, action),
    ensures
        action matches StopAction::Wait { interrupt } && lists(interrupt@, state.threads),
{
}

/// A thread that joined and left has left no trace but the mark that a thread joined.
pub proof fn leaving_undoes_joining(state: TrackerState, thread: u64)
    requires
        state.can_spawn,
        !state.threads.contains(thread),
    ensures
        state.joined(thread).left(thread) == (TrackerState { new_thread: true, ..state }),
{
    assert(state.threads.insert(thread).remove(thread) =~= state.threads);
}

} // verus!
