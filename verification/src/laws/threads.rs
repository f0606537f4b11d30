//! Laws of threads that can be interrupted, of waits, and of the tables that name live resources.

use crate::error::{Error, Reason};
use crate::table::{IdTable, KeyTable};
use crate::tracker::{
    reacquire, HandleAction, InterruptibleGuard, InterruptibleHandle, InterruptibleTracker, Reacquire,
    StopAction, StopProgress, TrackerState,
};
use crate::types::SystemCodes;
use crate::waiter::{WaitAction, Waiter};
use vstd::prelude::*;

verus! {

/// Whether a list names each thread of a set, and nothing else, once.
pub open spec fn names_all(list: Seq<u64>, threads: Set<u64>) -> bool {
    &&& forall|thread: u64| list.contains(thread) <==> #[trigger] threads.contains(thread)
    &&& forall|i: int, j: int| 0 <= i < j < list.len() ==> list[i] != list[j]
}

/// A step of a stop takes no thread out of the tracker, and ends the stop exactly when no thread is
/// left.
pub proof fn stop_ends_when_all_have_left(
    tracker: &mut InterruptibleTracker,
    progress: &mut StopProgress,
    completed: bool,
    action: StopAction,
)
    requires
        call_ensures(InterruptibleTracker::stop, (tracker, progress, completed), action),
    ensures
        final(tracker)@.threads == old(tracker)@.threads,
        final(tracker)@.can_spawn == old(tracker)@.can_spawn,
        action is Finished ==> *final(progress) == *old(progress),
        action is Finished <==> (forall|thread: u64|
            !#[trigger] old(tracker)@.threads.contains(thread)),
{
    if action is Finished {
        assert(old(tracker)@.threads.is_empty());
    }
    if forall|thread: u64| !#[trigger] old(tracker)@.threads.contains(thread) {
        assert(old(tracker)@.threads =~= Set::<u64>::empty());
    }
}

/// While a thread is left, a stop signals every thread: in its first step, whenever a thread has
/// joined since, and in every step once the brief waits are used up. In between it only waits.
pub proof fn stop_signals_every_thread(
    tracker: &mut InterruptibleTracker,
    progress: &mut StopProgress,
    completed: bool,
    action: StopAction,
    thread: u64,
)
    requires
        old(tracker)@.threads.contains(thread),
        call_ensures(InterruptibleTracker::stop, (tracker, progress, completed), action),
    ensures
        completed && !old(tracker)@.new_thread ==> (action matches StopAction::Wait { interrupt }
            && names_all(interrupt@, old(tracker)@.threads)),
        old(tracker)@.new_thread ==> (action matches StopAction::Snooze { reset, interrupt } && reset
            && names_all(interrupt@, old(tracker)@.threads)),
        !completed && !old(tracker)@.new_thread ==> (action matches StopAction::Snooze {
            reset,
            interrupt,
        } && !reset && if old(progress).interrupted {
            interrupt@.len() == 0
        } else {
            names_all(interrupt@, old(tracker)@.threads)
        }),
        !final(tracker)@.new_thread,
        action is Snooze ==> final(progress).interrupted,
        action is Wait ==> *final(progress) == *old(progress),
{
    let threads = old(tracker)@.threads;
    assert(!threads.is_empty());
    assert forall|list: Seq<u64>| #[trigger]
        list.to_set() == threads && list.no_duplicates() implies names_all(list, threads) by {
        assert forall|other: u64| list.contains(other) <==> #[trigger] threads.contains(other) by {
            assert(list.to_set().contains(other) <==> list.contains(other));
        }
    }
    match action {
        StopAction::Wait { interrupt } => {
            assert(interrupt@.to_set() == threads);
        },
        StopAction::Snooze { reset: _, interrupt } => {
            if interrupt@.len() > 0 {
                assert(interrupt@.to_set() == threads);
            }
        },
        StopAction::Finished => {},
    }
}

/// A thread joins a tracker unless a stop has begun, and leaves it when it says so. No other thread
/// is touched.
pub proof fn threads_join_and_leave(
    joining: &mut InterruptibleTracker,
    leaving: &mut InterruptibleTracker,
    thread: u64,
    joined: Result<(), Error>,
)
    requires
        call_ensures(InterruptibleTracker::track, (joining, thread), joined),
        call_ensures(InterruptibleTracker::untrack, (leaving, thread), ()),
    ensures
        joined is Ok <==> old(joining)@.can_spawn,
        joined matches Err(error) ==> error == Error::Own(Reason::TrackerShutDown) && final(joining)@
            == old(joining)@,
        joined is Ok ==> final(joining)@.new_thread,
        joined is Ok ==> final(joining)@.threads == old(joining)@.threads.insert(thread),
        final(joining)@.can_spawn == old(joining)@.can_spawn,
        final(leaving)@.threads == old(leaving)@.threads.remove(thread),
        final(leaving)@.can_spawn == old(leaving)@.can_spawn,
        final(leaving)@.new_thread == old(leaving)@.new_thread,
{
}

/// A new tracker has no threads and takes them, where the process can handle the signal. A stop
/// begins by taking no more, and lets those go on that are there.
pub proof fn tracker_opens_and_shuts(
    codes: SystemCodes,
    handler: usize,
    fresh: Result<InterruptibleTracker, Error>,
    failed: Result<InterruptibleTracker, Error>,
    error: Error,
    tracker: &mut InterruptibleTracker,
    progress: StopProgress,
)
    requires
        call_ensures(
            InterruptibleTracker::new,
            (&codes, Ok::<usize, Error>(handler)),
            fresh,
        ),
        call_ensures(
            InterruptibleTracker::new,
            (&codes, Err::<usize, Error>(error)),
            failed,
        ),
        call_ensures(InterruptibleTracker::begin_stop, (tracker,), progress),
    ensures
        fresh is Ok <==> handler != codes.default_handler && handler != codes.ignoring_handler,
        fresh matches Err(error) ==> error == Error::Own(Reason::NoSignalHandler),
        fresh matches Ok(tracker) ==> tracker@.can_spawn && !tracker@.new_thread && tracker@.threads
            == Set::<u64>::empty(),
        failed == Err::<InterruptibleTracker, Error>(error),
        !progress.interrupted,
        !final(tracker)@.can_spawn,
        final(tracker)@.threads == old(tracker)@.threads,
        final(tracker)@.new_thread == old(tracker)@.new_thread,
{
}

/// The guard and the handle of a thread are for that thread: the one leaves the tracker for it and
/// marks its end, the other signals it.
pub proof fn guard_and_handle_are_for_one_thread(
    joining: &mut InterruptibleTracker,
    leaving: &mut InterruptibleTracker,
    exited: &mut bool,
    thread: u64,
    joined: Result<(InterruptibleGuard, InterruptibleHandle), Error>,
)
    requires
        call_ensures(InterruptibleTracker::guard, (joining, thread), joined),
        joined matches Ok((guard, _)) ==> call_ensures(
            InterruptibleGuard::release,
            (guard, leaving, exited),
            (),
        ),
    ensures
        joined is Ok <==> old(joining)@.can_spawn,
        joined matches Err(error) ==> error == Error::Own(Reason::TrackerShutDown) && final(joining)@
            == old(joining)@,
        joined matches Ok((_, handle)) ==> {
            &&& handle.thread == thread
            &&& final(joining)@.threads == old(joining)@.threads.insert(thread)
            &&& final(joining)@.new_thread
            &&& final(leaving)@.threads == old(leaving)@.threads.remove(thread)
            &&& final(leaving)@.can_spawn == old(leaving)@.can_spawn
            &&& *final(exited)
        },
        final(joining)@.can_spawn == old(joining)@.can_spawn,
{
}

/// Stopping a thread ends exactly when the thread has ended. Until then its signal is sent at first,
/// and in every step once the brief waits are used up.
pub proof fn handle_stops_its_thread(
    handle: InterruptibleHandle,
    exited: bool,
    progress: &mut StopProgress,
    completed: bool,
    action: HandleAction,
)
    requires
        call_ensures(InterruptibleHandle::stop, (handle, exited, progress, completed), action),
    ensures
        action == HandleAction::Finished <==> exited,
        !exited && completed ==> action == (HandleAction::Wait { interrupt: handle.thread }),
        !exited && !completed && !old(progress).interrupted ==> action == (HandleAction::Snooze {
            signal: Some(handle.thread),
        }),
        !exited && !completed && old(progress).interrupted ==> action == (HandleAction::Snooze {
            signal: None,
        }),
        action is Snooze ==> final(progress).interrupted,
        !(action is Snooze) ==> *final(progress) == *old(progress),
{
}

/// A new thread gives a handle for itself exactly if it was started and has joined. Otherwise the
/// reason is told.
pub proof fn spawned_thread_has_joined(
    tracker: InterruptibleTracker,
    started: Result<u64, Error>,
    report: Option<Result<(), Error>>,
    spawned: Result<InterruptibleHandle, Error>,
)
    requires
        call_ensures(InterruptibleTracker::spawn, (&tracker, started, report), spawned),
    ensures
        started matches Ok(thread) ==> (report matches Some(Ok(_)) ==> spawned == Ok::<
            InterruptibleHandle,
            Error,
        >(InterruptibleHandle { thread })),
        started is Ok ==> (report matches Some(Err(error)) ==> spawned == Err::<
            InterruptibleHandle,
            Error,
        >(error)),
        started is Ok && report is None ==> spawned == Err::<InterruptibleHandle, Error>(
            Error::Own(Reason::CheckingThreadHungUp),
        ),
        started matches Err(error) ==> spawned == Err::<InterruptibleHandle, Error>(error),
{
}

/// Something that happens to a tracker.
pub enum TrackerEvent {
    /// A thread asks to join.
    Join(u64),
    /// A thread leaves.
    Leave(u64),
    /// A stop begins.
    BeginStop,
    /// A stop takes a step.
    Step,
}

/// What a tracker knows after some events.
pub open spec fn tracker_after(start: TrackerState, events: Seq<TrackerEvent>) -> TrackerState
    decreases events.len(),
{
    if events.len() == 0 {
        start
    } else {
        let before = tracker_after(start, events.drop_last());
        match events.last() {
            TrackerEvent::Join(thread) => before.joined(thread),
            TrackerEvent::Leave(thread) => before.left(thread),
            TrackerEvent::BeginStop => before.shut(),
            TrackerEvent::Step => before.stepped(),
        }
    }
}

/// Whether a stop has begun among some events.
pub open spec fn stop_began(events: Seq<TrackerEvent>) -> bool {
    exists|i: int| 0 <= i < events.len() && #[trigger] events[i] is BeginStop
}

/// Whether a thread runs after some events: it joined before a stop began, and has not left since.
pub open spec fn runs(events: Seq<TrackerEvent>, thread: u64) -> bool {
    exists|i: int| #[trigger] joined_at(events, i, thread) && !left_since(events, i, thread)
}

/// Whether a thread joined by the event with this number, before a stop began.
pub open spec fn joined_at(events: Seq<TrackerEvent>, i: int, thread: u64) -> bool {
    0 <= i < events.len() && events[i] == TrackerEvent::Join(thread) && !stop_began(events.take(i))
}

/// Whether a thread left after the event with this number.
pub open spec fn left_since(events: Seq<TrackerEvent>, i: int, thread: u64) -> bool {
    exists|j: int| i < j < events.len() && #[trigger] events[j] == TrackerEvent::Leave(thread)
}

/// Over any history, the threads of a tracker are those that joined before a stop began and have not
/// left since. So a stop, which ends when there are none, ends only when all of them have left.
pub proof fn tracked_threads_are_those_that_run(
    start: TrackerState,
    events: Seq<TrackerEvent>,
    thread: u64,
)
    requires
        start.can_spawn,
        start.threads == Set::<u64>::empty(),
    ensures
        tracker_after(start, events).can_spawn <==> !stop_began(events),
        tracker_after(start, events).threads.contains(thread) <==> runs(events, thread),
    decreases events.len(),
{
    if events.len() > 0 {
        let earlier = events.drop_last();
        let last = events.len() - 1;
        tracked_threads_are_those_that_run(start, earlier, thread);
        assert(earlier =~= events.take(last));
        assert(stop_began(events) <==> stop_began(earlier) || events[last] is BeginStop) by {
            if stop_began(earlier) {
                let i = choose|i: int| 0 <= i < earlier.len() && #[trigger] earlier[i] is BeginStop;
                assert(events[i] is BeginStop);
            }
            if stop_began(events) {
                let i = choose|i: int| 0 <= i < events.len() && #[trigger] events[i] is BeginStop;
                if i < last {
                    assert(earlier[i] is BeginStop);
                }
            }
        }
        assert forall|i: int| 0 <= i < last implies #[trigger] joined_at(events, i, thread)
            == joined_at(earlier, i, thread) by {
            assert(events.take(i) =~= earlier.take(i));
        }
        assert forall|i: int| 0 <= i < last implies #[trigger] left_since(events, i, thread) == (
        left_since(earlier, i, thread) || events[last] == TrackerEvent::Leave(thread)) by {
            if left_since(earlier, i, thread) {
                let j = choose|j: int|
                    i < j < earlier.len() && #[trigger] earlier[j] == TrackerEvent::Leave(thread);
                assert(events[j] == TrackerEvent::Leave(thread));
            }
            if left_since(events, i, thread) {
                let j = choose|j: int|
                    i < j < events.len() && #[trigger] events[j] == TrackerEvent::Leave(thread);
                if j < last {
                    assert(earlier[j] == TrackerEvent::Leave(thread));
                }
            }
        }
        assert(!left_since(events, last, thread));
        if runs(earlier, thread) {
            let i = choose|i: int| #[trigger]
                joined_at(earlier, i, thread) && !left_since(earlier, i, thread);
            assert(joined_at(events, i, thread));
            assert(left_since(events, i, thread) == (events[last] == TrackerEvent::Leave(thread)));
        }
        if runs(events, thread) {
            let i = choose|i: int| #[trigger]
                joined_at(events, i, thread) && !left_since(events, i, thread);
            if i < last {
                assert(joined_at(earlier, i, thread));
                assert(!left_since(earlier, i, thread));
            }
        }
        if events[last] == TrackerEvent::Join(thread) && !stop_began(earlier) {
            assert(joined_at(events, last, thread));
        }
    }
}

/// The operations of a tracker are the events of its history.
pub proof fn operations_are_events(
    joining: &mut InterruptibleTracker,
    leaving: &mut InterruptibleTracker,
    beginning: &mut InterruptibleTracker,
    stepping: &mut InterruptibleTracker,
    progress: &mut StopProgress,
    thread: u64,
    joined: Result<(), Error>,
    began: StopProgress,
    completed: bool,
    action: StopAction,
)
    requires
        call_ensures(InterruptibleTracker::track, (joining, thread), joined),
        call_ensures(InterruptibleTracker::untrack, (leaving, thread), ()),
        call_ensures(InterruptibleTracker::begin_stop, (beginning,), began),
        call_ensures(InterruptibleTracker::stop, (stepping, progress, completed), action),
    ensures
        final(joining)@ == tracker_after(old(joining)@, seq![TrackerEvent::Join(thread)]),
        final(leaving)@ == tracker_after(old(leaving)@, seq![TrackerEvent::Leave(thread)]),
        final(beginning)@ == tracker_after(old(beginning)@, seq![TrackerEvent::BeginStop]),
        final(stepping)@ == tracker_after(old(stepping)@, seq![TrackerEvent::Step]),
{
    reveal_with_fuel(tracker_after, 2);
    assert(seq![TrackerEvent::Join(thread)].drop_last() =~= Seq::<TrackerEvent>::empty());
    assert(seq![TrackerEvent::Leave(thread)].drop_last() =~= Seq::<TrackerEvent>::empty());
    assert(seq![TrackerEvent::BeginStop].drop_last() =~= Seq::<TrackerEvent>::empty());
    assert(seq![TrackerEvent::Step].drop_last() =~= Seq::<TrackerEvent>::empty());
}

/// A lock that is taken back after a snooze is held if the attempt succeeded, and otherwise waited
/// for once the brief waits are used up.
pub proof fn lock_is_taken_back(locked: bool, completed: bool, next: Reacquire)
    requires
        call_ensures(reacquire, (locked, completed), next),
    ensures
        next == Reacquire::Held <==> locked,
        next == Reacquire::Block <==> !locked && completed,
        next == Reacquire::Snooze <==> !locked && !completed,
{
}

/// A wait ends exactly when its condition holds, and until then sleeps for its interval once the
/// brief waits are used up.
pub proof fn wait_ends_with_its_condition(
    waiter: Waiter,
    done: bool,
    completed: bool,
    spin: WaitAction,
    snooze: WaitAction,
)
    requires
        call_ensures(Waiter::spin_wait, (&waiter, done, completed), spin),
        call_ensures(Waiter::snooze_wait, (&waiter, done, completed), snooze),
    ensures
        spin == WaitAction::Return <==> done,
        snooze == WaitAction::Return <==> done,
        !done && completed ==> spin == WaitAction::Sleep(waiter.sleep_duration) && snooze
            == WaitAction::Sleep(waiter.sleep_duration),
        !done && !completed ==> spin == WaitAction::Spin && snooze == WaitAction::Snooze,
{
}

/// Whether an id comes up before another when ids are counted up from a third, past the largest id
/// back to zero.
pub open spec fn comes_before(next: u64, id: u64, other: u64) -> bool {
    if next <= other {
        next <= id < other
    } else {
        next <= id || id < other
    }
}

/// A table hands out the first id that is free, counting up from where it left off, and keeps all
/// other entries.
pub proof fn first_free_id_is_handed_out(table: &mut IdTable, token: u64, id: u64, earlier: u64)
    requires
        call_ensures(IdTable::allocate, (table, token), id),
    ensures
        !old(table)@.contains_key(id),
        comes_before(old(table).next_id(), earlier, id) ==> old(table)@.contains_key(earlier),
        final(table)@ == old(table)@.insert(id, token),
        final(table).next_id() == (if id == u64::MAX {
            0
        } else {
            (id + 1) as u64
        }),
{
}

/// A table finds what was put into it, until it is taken out, and nothing else.
pub proof fn table_finds_its_entries(
    fresh: IdTable,
    table: IdTable,
    removing: &mut IdTable,
    id: u64,
    found: Option<u64>,
    removed: Option<u64>,
    count: usize,
)
    requires
        call_ensures(IdTable::new, (), fresh),
        call_ensures(IdTable::get, (&table, id), found),
        call_ensures(IdTable::remove, (removing, id), removed),
        call_ensures(IdTable::len, (&table,), count),
    ensures
        fresh@ == Map::<u64, u64>::empty(),
        fresh.next_id() == 0,
        found matches Some(token) ==> table@.contains_pair(id, token),
        found is None ==> !table@.contains_key(id),
        removed matches Some(token) ==> old(removing)@.contains_pair(id, token),
        removed is None ==> !old(removing)@.contains_key(id),
        final(removing)@ == old(removing)@.remove(id),
        final(removing).next_id() == old(removing).next_id(),
        table@.dom().len() == count,
{
}

/// A table with ids of its user's choice finds what was put into it first, until it is taken out, and
/// discards exactly the entries with the tokens that it is told.
pub proof fn keyed_table_finds_its_entries(
    fresh: KeyTable,
    table: KeyTable,
    inserting: &mut KeyTable,
    removing: &mut KeyTable,
    discarding: &mut KeyTable,
    id: u64,
    token: u64,
    found: Option<u64>,
    inserted: bool,
    removed: Option<u64>,
    dead: Vec<u64>,
)
    requires
        call_ensures(KeyTable::new, (), fresh),
        call_ensures(KeyTable::get, (&table, id), found),
        call_ensures(KeyTable::insert_vacant, (inserting, id, token), inserted),
        call_ensures(KeyTable::remove, (removing, id), removed),
        call_ensures(KeyTable::discard, (discarding, &dead), ()),
    ensures
        fresh@ == Map::<u64, u64>::empty(),
        found matches Some(token) ==> table@.contains_pair(id, token),
        found is None ==> !table@.contains_key(id),
        inserted <==> !old(inserting)@.contains_key(id),
        inserted ==> final(inserting)@ == old(inserting)@.insert(id, token),
        !inserted ==> final(inserting)@ == old(inserting)@,
        removed matches Some(token) ==> old(removing)@.contains_pair(id, token),
        removed is None ==> !old(removing)@.contains_key(id),
        final(removing)@ == old(removing)@.remove(id),
        final(discarding)@.contains_key(id) <==> old(discarding)@.contains_key(id)
            && !dead@.contains(old(discarding)@[id]),
        final(discarding)@.contains_key(id) ==> final(discarding)@[id] == old(discarding)@[id],
{
}

} // verus!
