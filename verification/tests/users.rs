use std::cell::RefCell;
use ulockmgr::client::{
    flatten, AfterFirst, AfterInterrupt, AfterPre, AfterWait, Interruptable, Invoker, Lockable,
    Owner,
};
use ulockmgr::error::{Errno, Error, ErrorKind, Reason};
use ulockmgr::manager::{
    cleanup_thread, AfterDoubt, AfterRegister, CleanupEvent, LockManager, Search, SearchStep,
};
use ulockmgr::messages::{
    Interrupt, LockCommand, Ping, RemoveInterrupt, ReplyLockCommandData, RequestSpawnOwner,
    Unregister,
};
use ulockmgr::owner_spawner::{OwnerSpawner, SpawnerStep};
use ulockmgr::tracker::{
    reacquire, HandleAction, InterruptibleTracker, Reacquire, StopAction, StopProgress,
};
use ulockmgr::types::{
    LockAction, LockParams, LockType, LockWhence, SystemCodes, Ttl,
};
use ulockmgr::waiter::{WaitAction, Waiter};

fn params() -> LockParams {
    LockParams {
        lock_type: LockType::Read,
        whence: LockWhence::Start,
        start: 0,
        len: 0,
        pid: 0,
    }
}

fn interrupted() -> Error {
    Error::Os { errno: libc::EINTR, kind: ErrorKind::Interrupted }
}

fn pipe() -> Error {
    Error::Os { errno: libc::EPIPE, kind: ErrorKind::BrokenPipe }
}

fn lockable() -> Lockable {
    Lockable { owner: 3, id: 4 }
}

fn tracker() -> InterruptibleTracker {
    InterruptibleTracker::new(&SystemCodes::native(), Ok(0x1000)).unwrap()
}

fn sorted(mut threads: Vec<u64>) -> Vec<u64> {
    threads.sort();
    threads
}

#[test]
fn answers_are_flattened() {
    assert_eq!(flatten(Ok(Ok(1u8))), Ok(1));
    assert_eq!(flatten::<u8>(Ok(Err(pipe()))), Err(pipe()));
    assert_eq!(flatten::<u8>(Err(interrupted())), Err(interrupted()));
}

#[test]
fn an_owner_registers_files() {
    let owner = Owner { token: 3 };
    assert_eq!(owner.ping_request(), Ping {});
    assert_eq!(owner.ping(Ok(Ok(()))), Ok(()));
    assert_eq!(owner.ping(Err(pipe())), Err(pipe()));
    assert_eq!(owner.register_request(9u8).fd, 9);
    assert_eq!(owner.register(Ok(Ok(4))), Ok(lockable()));
    assert_eq!(owner.register(Ok(Err(interrupted()))), Err(interrupted()));
    assert_eq!(owner.register(Ok(Err(pipe()))), Err(Error::Own(Reason::OwnerExited)));
    assert_eq!(owner.register(Err(pipe())), Err(pipe()));
}

#[test]
fn lockables_speak_of_their_file() {
    assert_eq!(
        lockable().command(LockAction::GetLockStatus, params()),
        LockCommand { id: 4, action: LockAction::GetLockStatus, params: params() }
    );
    assert_eq!(lockable().unregistration(), Unregister { id: 4 });
}

#[test]
fn queries_and_attempts_do_not_wait() {
    let done = Ok(Ok(ReplyLockCommandData::Done(params())));
    let pending = Ok(Ok(ReplyLockCommandData::Pending(1)));
    assert_eq!(lockable().get_lock(done), Ok(params()));
    assert_eq!(lockable().set_lock_nonblocking(done), Ok(params()));
    assert_eq!(lockable().get_lock(pending), Err(Error::Own(Reason::GetLockPending)));
    assert_eq!(
        lockable().set_lock_nonblocking(pending),
        Err(Error::Own(Reason::SetLockPending))
    );
    assert_eq!(lockable().get_lock(Ok(Err(pipe()))), Err(pipe()));
    assert_eq!(lockable().set_lock_nonblocking(Err(pipe())), Err(pipe()));
}

#[test]
fn the_first_answer_ends_a_lock_or_makes_it_pending() {
    let first = |next| lockable().set_lock_blocking(next);
    assert_eq!(
        first(None),
        AfterFirst::Return(Err(Error::Own(Reason::BlockingLockClosed)))
    );
    assert_eq!(
        first(Some(Ok(Ok(ReplyLockCommandData::Done(params()))))),
        AfterFirst::Return(Ok(params()))
    );
    assert_eq!(
        first(Some(Ok(Ok(ReplyLockCommandData::Pending(6))))),
        AfterFirst::Wait(Interruptable { id: 6 })
    );
    assert_eq!(first(Some(Ok(Err(interrupted())))), AfterFirst::Return(Err(interrupted())));
    assert_eq!(first(Some(Err(interrupted()))), AfterFirst::Return(Err(interrupted())));
}

#[test]
fn a_pending_lock_is_forgotten_when_it_ends() {
    let pending = Interruptable::new(6);
    let forget = RemoveInterrupt { id: 6 };
    assert_eq!(
        pending.waited(Ok(Some(Ok(Ok(ReplyLockCommandData::Done(params())))))),
        AfterWait::Return(forget, Ok(params()))
    );
    assert_eq!(
        pending.waited(Ok(Some(Ok(Ok(ReplyLockCommandData::Pending(6)))))),
        AfterWait::Return(forget, Err(Error::Own(Reason::SetLockWaitPendingTwice)))
    );
    assert_eq!(
        pending.waited(Ok(None)),
        AfterWait::Return(forget, Err(Error::Own(Reason::BlockingLockClosed)))
    );
    assert_eq!(pending.waited(Err(pipe())), AfterWait::Return(forget, Err(pipe())));
    assert_eq!(pending.waited(Ok(Some(Err(pipe())))), AfterWait::Return(forget, Err(pipe())));
    assert_eq!(
        pending.waited(Ok(Some(Ok(Err(interrupted()))))),
        AfterWait::Return(forget, Err(interrupted()))
    );
}

#[test]
fn a_signal_interrupts_a_pending_lock() {
    let pending = Interruptable::new(6);
    assert_eq!(
        pending.waited(Ok(Some(Err(interrupted())))),
        AfterWait::Interrupt(pending, Interrupt { id: 6 })
    );
    assert_eq!(pending.interrupted(Ok(Ok(()))), AfterInterrupt::Wait(pending));
    assert_eq!(
        pending.interrupted(Ok(Err(pipe()))),
        AfterInterrupt::Return(RemoveInterrupt { id: 6 }, Err(pipe()))
    );
    assert_eq!(
        pending.interrupted(Err(pipe())),
        AfterInterrupt::Return(RemoveInterrupt { id: 6 }, Err(pipe()))
    );
}

#[test]
fn a_detached_lock_asks_its_user_first() {
    assert_eq!(lockable().set_lock_blocking_detached(Ok(())), AfterPre::Lock);
    assert_eq!(
        lockable().set_lock_blocking_detached(Err(pipe())),
        AfterPre::Invoke(Err(pipe()))
    );
}

#[test]
fn a_callback_is_called_once() {
    let calls = RefCell::new(Vec::new());
    let mut invoker = Invoker::new(|outcome| calls.borrow_mut().push(outcome));
    invoker.invoke(Ok(params()));
    invoker.invoke(Err(pipe()));
    invoker.release();
    assert_eq!(*calls.borrow(), vec![Ok(params())]);
}

#[test]
fn a_forgotten_callback_is_told_of_a_panic() {
    let calls = RefCell::new(Vec::new());
    let invoker = Invoker::new(|outcome| calls.borrow_mut().push(outcome));
    invoker.release();
    assert_eq!(*calls.borrow(), vec![Err(Error::Own(Reason::ThreadPanicked))]);
}

#[test]
fn a_search_creates_an_owner_and_finds_it_again() {
    let mut manager = LockManager::build();
    let mut search = manager.get_or_create_owner(8, None);
    let five = Ttl { secs: 5, nanos: 0 };
    assert_eq!(search, Search { owner_id: 8, ttl: five, new_owner: false });
    assert_eq!(
        manager.look_up(&search),
        SearchStep::Spawn(RequestSpawnOwner { ttl: five })
    );
    let spawned = manager.spawned(&mut search, Ok(Ok(vec![1u8])));
    assert_eq!(spawned.step, SearchStep::Ping(0));
    assert_eq!(spawned.created, Some((Owner { token: 0 }, 1)));
    assert_eq!(manager.next_token(), 1);
    assert!(search.new_owner);
    assert_eq!(manager.pinged(&search, 0, Ok(())), SearchStep::Found(0));
    let later = manager.get_or_create_owner(8, None);
    assert_eq!(manager.look_up(&later), SearchStep::Ping(0));
}

#[test]
fn a_dead_owner_is_replaced() {
    let mut manager = LockManager::build();
    let ttl = Ttl { secs: 0, nanos: 5 };
    let mut search = manager.get_or_create_owner(8, Some(ttl));
    manager.spawned(&mut search, Ok(Ok(vec![1u8])));
    assert_eq!(manager.pinged(&search, 0, Err(pipe())), SearchStep::Retry);
    assert_eq!(manager.look_up(&search), SearchStep::Spawn(RequestSpawnOwner { ttl }));
    let spawned = manager.spawned(&mut search, Ok(Ok(vec![2u8])));
    assert_eq!(spawned.step, SearchStep::Ping(1));
}

#[test]
fn an_owner_created_to_die_at_once_is_not_asked() {
    let mut manager = LockManager::build();
    let zero = Ttl { secs: 0, nanos: 0 };
    let mut search = manager.get_or_create_owner(8, Some(zero));
    let spawned = manager.spawned(&mut search, Ok(Ok(vec![1u8])));
    assert_eq!(spawned.step, SearchStep::Found(0));
    let later = manager.get_or_create_owner(8, Some(zero));
    assert_eq!(manager.look_up(&later), SearchStep::Ping(0));
}

#[test]
fn the_coordinator_must_hand_over_one_socket() {
    let mut manager = LockManager::build();
    let mut search = manager.get_or_create_owner(8, None);
    let wrong = SearchStep::Failed(Error::Own(Reason::ExpectedOneOwnerFd));
    assert_eq!(manager.spawned::<u8>(&mut search, Ok(Ok(vec![]))).step, wrong);
    assert_eq!(manager.spawned(&mut search, Ok(Ok(vec![1u8, 2]))).step, wrong);
    assert_eq!(
        manager.spawned::<u8>(&mut search, Err(pipe())).step,
        SearchStep::Failed(pipe())
    );
    assert_eq!(
        manager.spawned::<u8>(&mut search, Ok(Err(pipe()))).step,
        SearchStep::Failed(pipe())
    );
    assert!(!search.new_owner);
    assert!(matches!(manager.look_up(&search), SearchStep::Spawn(_)));
}

#[test]
fn an_owner_that_is_already_there_is_used() {
    let mut manager = LockManager::build();
    let mut first = manager.get_or_create_owner(8, None);
    let mut second = first;
    manager.spawned(&mut first, Ok(Ok(vec![1u8])));
    let spawned = manager.spawned(&mut second, Ok(Ok(vec![2u8])));
    assert_eq!(spawned.step, SearchStep::Ping(0));
    assert_eq!(spawned.created, None);
    assert_eq!(manager.next_token(), 1);
    assert!(!second.new_owner);
}

#[test]
fn registering_is_tried_again_on_a_dead_owner() {
    let mut manager = LockManager::build();
    let owner = Owner { token: 3 };
    assert_eq!(
        manager.register(8, owner, Ok(lockable())),
        AfterRegister::Return(Ok(lockable()))
    );
    assert_eq!(
        manager.register(8, owner, Err(interrupted())),
        AfterRegister::Return(Err(interrupted()))
    );
    assert_eq!(manager.register(8, owner, Err(pipe())), AfterRegister::Ping(pipe()));
    assert_eq!(manager.doubted(pipe(), Ok(())), AfterDoubt::Return(Err(pipe())));
    assert_eq!(manager.doubted(pipe(), Err(interrupted())), AfterDoubt::Retry);
}

#[test]
fn an_exiting_owner_is_replaced_though_it_answers() {
    let mut manager = LockManager::build();
    let mut search = manager.get_or_create_owner(8, None);
    let (owner, _) = manager.spawned(&mut search, Ok(Ok(vec![1u8]))).created.unwrap();
    assert_eq!(manager.pinged(&search, owner.token, Ok(())), SearchStep::Found(0));
    // The owner process answers with the number of a closed connection.
    let outcome = owner.register(Ok(Err(pipe())));
    assert_eq!(outcome, Err(Error::Own(Reason::OwnerExited)));
    assert_eq!(outcome.unwrap_err().kind(), ErrorKind::BrokenPipe);
    assert_eq!(manager.register(8, owner, outcome), AfterRegister::Retry);
    let mut search = manager.get_or_create_owner(8, None);
    assert!(matches!(manager.look_up(&search), SearchStep::Spawn(_)));
    assert_eq!(
        manager.spawned(&mut search, Ok(Ok(vec![2u8]))).step,
        SearchStep::Ping(1)
    );
    // One that has taken its place is left alone.
    assert_eq!(manager.register(8, owner, outcome), AfterRegister::Retry);
    assert_eq!(manager.look_up(&manager.get_or_create_owner(8, None)), SearchStep::Ping(1));
}

#[test]
fn lock_owners_do_not_share_an_owner_process() {
    let mut manager = LockManager::build();
    for (owner_id, token) in [(1, 0), (2, 1), (3, 2)] {
        let mut search = manager.get_or_create_owner(owner_id, None);
        assert_eq!(
            manager.spawned(&mut search, Ok(Ok(vec![0u8]))).step,
            SearchStep::Ping(token)
        );
    }
    let zero = Some(Ttl { secs: 0, nanos: 0 });
    let again = manager.get_or_create_owner(2, zero);
    assert_eq!(manager.look_up(&again), SearchStep::Ping(1));
}

#[test]
fn the_cleanup_spares_the_living() {
    assert!(cleanup_thread(CleanupEvent::TimedOut));
    assert!(!cleanup_thread(CleanupEvent::Stopped));
    let mut manager = LockManager::build();
    for owner_id in [1, 2, 3] {
        let mut search = manager.get_or_create_owner(owner_id, None);
        manager.spawned(&mut search, Ok(Ok(vec![0u8])));
    }
    manager.retain(&vec![(0, Ok(())), (1, Err(pipe())), (4, Err(pipe()))]);
    let step = |owner_id| manager.look_up(&manager.get_or_create_owner(owner_id, None));
    assert_eq!(step(1), SearchStep::Ping(0));
    assert!(matches!(step(2), SearchStep::Spawn(_)));
    assert_eq!(step(3), SearchStep::Ping(2));
}

#[test]
fn the_coordinator_starts_owners() {
    let spawner = OwnerSpawner::new();
    let ttl = Ttl { secs: 1, nanos: 2 };
    assert!(matches!(
        spawner.run(Ok((RequestSpawnOwner { ttl }, 5u8))),
        SpawnerStep::Spawn(found, 5) if found == ttl
    ));
    assert!(matches!(spawner.run::<u8>(Err(pipe())), SpawnerStep::End(Ok(()))));
    assert!(matches!(
        spawner.run::<u8>(Err(interrupted())),
        SpawnerStep::End(Err(error)) if error == interrupted()
    ));
    let reply = spawner.spawned(Ok(6u8)).unwrap();
    assert_eq!(reply.message, Ok::<(), Errno>(()));
    assert_eq!(reply.fds, vec![6]);
    assert_eq!(spawner.spawned::<u8>(Err(pipe())).unwrap_err(), pipe());
}

#[test]
fn a_tracker_needs_a_signal_handler() {
    let codes = SystemCodes::native();
    assert_eq!(
        InterruptibleTracker::new(&codes, Ok(0)).unwrap_err(),
        Error::Own(Reason::NoSignalHandler)
    );
    assert_eq!(InterruptibleTracker::new(&codes, Err(pipe())).unwrap_err(), pipe());
}

#[test]
fn a_stop_interrupts_every_thread_until_none_is_left() {
    let mut tracker = tracker();
    let (guard, handle) = tracker.guard(7).unwrap();
    assert_eq!(handle.thread, 7);
    tracker.track(8).unwrap();
    let mut progress = tracker.begin_stop();
    assert_eq!(tracker.track(9), Err(Error::Own(Reason::TrackerShutDown)));
    assert!(tracker.guard(9).is_err());
    match tracker.stop(&mut progress, true) {
        StopAction::Snooze { reset: true, interrupt } => assert_eq!(sorted(interrupt), vec![7, 8]),
        other => panic!("{:?}", other),
    }
    match tracker.stop(&mut progress, false) {
        StopAction::Snooze { reset: false, interrupt } => assert!(interrupt.is_empty()),
        other => panic!("{:?}", other),
    }
    match tracker.stop(&mut progress, true) {
        StopAction::Wait { interrupt } => assert_eq!(sorted(interrupt), vec![7, 8]),
        other => panic!("{:?}", other),
    }
    let mut exited = false;
    guard.release(&mut tracker, &mut exited);
    assert!(exited);
    match tracker.stop(&mut progress, true) {
        StopAction::Wait { interrupt } => assert_eq!(interrupt, vec![8]),
        other => panic!("{:?}", other),
    }
    tracker.untrack(8);
    assert!(matches!(tracker.stop(&mut progress, true), StopAction::Finished));
}

#[test]
fn a_tracker_without_threads_stops_at_once() {
    let mut tracker = tracker();
    let mut progress = tracker.begin_stop();
    assert!(matches!(tracker.stop(&mut progress, false), StopAction::Finished));
}

#[test]
fn a_handle_interrupts_its_thread_once_per_group_of_snoozes() {
    let (_guard, handle) = tracker().guard(7).unwrap();
    let mut progress = StopProgress::new();
    assert_eq!(
        handle.stop(false, &mut progress, false),
        HandleAction::Snooze { signal: Some(7) }
    );
    assert_eq!(
        handle.stop(false, &mut progress, false),
        HandleAction::Snooze { signal: None }
    );
    assert_eq!(
        handle.stop(false, &mut progress, true),
        HandleAction::Wait { interrupt: 7 }
    );
    assert_eq!(handle.stop(true, &mut progress, true), HandleAction::Finished);
}

#[test]
fn a_lock_is_taken_back_after_a_snooze() {
    assert_eq!(reacquire(true, false), Reacquire::Held);
    assert_eq!(reacquire(true, true), Reacquire::Held);
    assert_eq!(reacquire(false, true), Reacquire::Block);
    assert_eq!(reacquire(false, false), Reacquire::Snooze);
}

#[test]
fn a_new_thread_reports_whether_it_joined() {
    let tracker = tracker();
    assert_eq!(tracker.spawn(Ok(5), Some(Ok(()))).unwrap().thread, 5);
    assert_eq!(tracker.spawn(Ok(5), Some(Err(pipe()))), Err(pipe()));
    assert_eq!(
        tracker.spawn(Ok(5), None),
        Err(Error::Own(Reason::CheckingThreadHungUp))
    );
    assert_eq!(tracker.spawn(Err(interrupted()), None), Err(interrupted()));
}

#[test]
fn a_wait_becomes_slower() {
    let milli = Ttl { secs: 0, nanos: 1_000_000 };
    let waiter = Waiter { sleep_duration: milli };
    assert_eq!(waiter.snooze_wait(true, true), WaitAction::Return);
    assert_eq!(waiter.snooze_wait(false, true), WaitAction::Sleep(milli));
    assert_eq!(waiter.snooze_wait(false, false), WaitAction::Snooze);
    assert_eq!(waiter.spin_wait(true, false), WaitAction::Return);
    assert_eq!(waiter.spin_wait(false, true), WaitAction::Sleep(milli));
    assert_eq!(waiter.spin_wait(false, false), WaitAction::Spin);
}
