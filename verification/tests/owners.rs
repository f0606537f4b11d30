use ulockmgr::error::{DecodeFailure, Errno, Error, ErrorKind, Reason};
use ulockmgr::messages::{
    Interrupt, LockCommand, Message, Ping, Register, RemoveInterrupt, ReplyLockCommandData,
    Unregister,
};
use ulockmgr::owner::{
    attempt_answer, owner_receiving_loop, query_answer, set_lock_blocking, BlockingStep,
    DaemonOwner, DaemonOwnerInner, LockPlan, Reception, Service, TtlAction, TtlEvent,
};
use ulockmgr::table::{IdTable, KeyTable};
use ulockmgr::types::{
    LockAction, LockParams, LockType, LockWhence, RawLock, SystemCodes, Ttl,
};

fn params() -> LockParams {
    LockParams {
        lock_type: LockType::Write,
        whence: LockWhence::Start,
        start: 4,
        len: 8,
        pid: 0,
    }
}

fn held_elsewhere() -> Error {
    Error::Os { errno: libc::EAGAIN, kind: ErrorKind::WouldBlock }
}

fn interrupted() -> Error {
    Error::Os { errno: libc::EINTR, kind: ErrorKind::Interrupted }
}

fn serve(inner: &mut DaemonOwnerInner, message: Message<u8>, token: u64) -> Service<u8> {
    inner.serve(&SystemCodes::native(), message, token, Ok(()))
}

fn register(inner: &mut DaemonOwnerInner, token: u64) -> u64 {
    match serve(inner, Message::Register(Register { fd: 1 }), token) {
        Service::Keep(1, Ok(id)) => id,
        other => panic!("{:?}", other),
    }
}

fn command(id: u64, action: LockAction) -> Message<u8> {
    Message::LockCommand(LockCommand { id, action, params: params() })
}

#[test]
fn ids_count_up_and_are_not_reused_soon() {
    let mut table = IdTable::new();
    assert_eq!(table.len(), 0);
    assert_eq!(table.allocate(10), 0);
    assert_eq!(table.allocate(11), 1);
    assert_eq!(table.len(), 2);
    assert_eq!(table.remove(0), Some(10));
    assert_eq!(table.get(0), None);
    assert_eq!(table.allocate(12), 2);
    assert_eq!(table.get(1), Some(11));
    assert_eq!(table.get(2), Some(12));
    assert_eq!(table.remove(0), None);
    assert_eq!(table.len(), 2);
}

#[test]
fn keys_are_inserted_once() {
    let mut table = KeyTable::new();
    assert!(table.insert_vacant(5, 50));
    assert!(!table.insert_vacant(5, 51));
    assert_eq!(table.get(5), Some(50));
    assert!(table.insert_vacant(6, 60));
    assert!(table.insert_vacant(7, 50));
    table.discard(&vec![50]);
    assert_eq!(table.get(5), None);
    assert_eq!(table.get(6), Some(60));
    assert_eq!(table.get(7), None);
    assert_eq!(table.remove(6), Some(60));
    assert_eq!(table.remove(6), None);
}

#[test]
fn a_ping_is_answered() {
    let mut inner = DaemonOwnerInner::new();
    assert!(matches!(
        serve(&mut inner, Message::Ping(Ping {}), 0),
        Service::Answer(Ok(()))
    ));
}

#[test]
fn registered_files_have_ids_of_their_own() {
    let mut inner = DaemonOwnerInner::new();
    assert_eq!(register(&mut inner, 100), 0);
    assert_eq!(register(&mut inner, 200), 1);
    assert_eq!(inner.holders(), 2);
    assert_eq!(inner.handle_fd_unregister(Unregister { id: 0 }), Ok(100));
    assert_eq!(
        inner.handle_fd_unregister(Unregister { id: 0 }),
        Err(Error::Own(Reason::UnknownDescriptor))
    );
    assert_eq!(register(&mut inner, 300), 2);
    assert_eq!(inner.handle_fd_unregister(Unregister { id: 1 }), Ok(200));
}

#[test]
fn ids_are_not_handed_out_twice() {
    let mut inner = DaemonOwnerInner::new();
    for expected in 0..100 {
        let id = register(&mut inner, 1000 + expected);
        assert_eq!(id, expected);
        if expected % 3 == 0 {
            assert_eq!(inner.handle_fd_unregister(Unregister { id }), Ok(1000 + expected));
            inner.release_exit_lock();
        }
    }
}

#[test]
fn a_file_is_released_after_it_was_unregistered() {
    let mut inner = DaemonOwnerInner::new();
    let id = register(&mut inner, 100);
    assert!(matches!(
        serve(&mut inner, Message::Unregister(Unregister { id }), 0),
        Service::Release(100)
    ));
    assert_eq!(inner.try_exit(), Err(Error::Own(Reason::FilesRegistered)));
    inner.release_exit_lock();
    assert_eq!(inner.holders(), 0);
    inner.release_exit_lock();
    assert_eq!(inner.holders(), 0);
    assert_eq!(inner.try_exit(), Ok(()));
    assert!(matches!(
        serve(&mut inner, Message::Unregister(Unregister { id }), 0),
        Service::Answer(Err(Errno::NoEnt))
    ));
}

#[test]
fn a_registered_file_is_not_released() {
    let mut inner = DaemonOwnerInner::new();
    register(&mut inner, 100);
    inner.release_exit_lock();
    assert_eq!(inner.holders(), 1);
}

#[test]
fn an_owner_that_has_exited_takes_no_file() {
    let mut inner = DaemonOwnerInner::new();
    assert_eq!(inner.try_exit(), Ok(()));
    assert_eq!(inner.acquire_exit_lock(), Err(Error::Own(Reason::OwnerExited)));
    assert_eq!(inner.handle_fd_register(7, Ok(())), Err(Error::Own(Reason::OwnerExited)));
    assert!(matches!(
        serve(&mut inner, Message::Register(Register { fd: 1 }), 7),
        Service::Keep(1, Err(Errno::Pipe))
    ));
    assert_eq!(inner.try_exit(), Ok(()));
}

#[test]
fn a_file_whose_threads_cannot_be_tracked_is_not_registered() {
    let mut inner = DaemonOwnerInner::new();
    let error = Error::Own(Reason::NoSignalHandler);
    assert_eq!(inner.handle_fd_register(7, Err(error)), Err(error));
    assert_eq!(inner.holders(), 0);
    let service: Service<u8> = inner.serve(
        &SystemCodes::native(),
        Message::Register(Register { fd: 3 }),
        7,
        Err(error),
    );
    assert!(matches!(service, Service::Keep(3, Err(Errno::Inval))));
}

#[test]
fn the_exit_lock_keeps_the_owner() {
    let mut inner = DaemonOwnerInner::new();
    assert_eq!(inner.acquire_exit_lock(), Ok(()));
    assert_eq!(inner.try_exit(), Err(Error::Own(Reason::FilesRegistered)));
    inner.release_exit_lock();
    assert_eq!(inner.try_exit(), Ok(()));
}

#[test]
fn lock_commands_are_planned() {
    let mut inner = DaemonOwnerInner::new();
    let id = register(&mut inner, 100);
    let described = RawLock {
        l_type: libc::F_WRLCK as i16,
        l_whence: 0,
        l_start: 4,
        l_len: 8,
        l_pid: 0,
    };
    assert!(matches!(
        serve(&mut inner, command(id, LockAction::GetLockStatus), 0),
        Service::Lock(LockPlan::Query { token: 100, raw }) if raw == described
    ));
    assert!(matches!(
        serve(&mut inner, command(id, LockAction::SetLockNonBlocking), 0),
        Service::Lock(LockPlan::Attempt { token: 100, raw }) if raw == described
    ));
    assert!(matches!(
        serve(&mut inner, command(id, LockAction::SetLockBlocking), 0),
        Service::Lock(LockPlan::Await { token: 100, params: lock }) if lock == params()
    ));
    assert!(matches!(
        serve(&mut inner, command(id + 1, LockAction::SetLockBlocking), 0),
        Service::Lock(LockPlan::Refuse(Errno::NoEnt))
    ));
}

#[test]
fn locks_are_answered() {
    let codes = SystemCodes::native();
    let raw = RawLock::from(params());
    let done = Ok(ReplyLockCommandData::Done(params()));
    assert_eq!(attempt_answer(&codes, raw, Ok(())), done);
    assert_eq!(
        attempt_answer(&codes, raw, Err(held_elsewhere())),
        Err(Errno::Raw(libc::EAGAIN))
    );
    let free = RawLock { l_type: libc::F_UNLCK as i16, ..raw };
    assert_eq!(
        query_answer(&codes, Ok(free)),
        Ok(ReplyLockCommandData::Done(LockParams { lock_type: LockType::Unlock, ..params() }))
    );
    assert_eq!(query_answer(&codes, Err(interrupted())), Err(Errno::Raw(libc::EINTR)));
    let nonsense = RawLock { l_type: 50, ..raw };
    assert_eq!(query_answer(&codes, Ok(nonsense)), Err(Errno::Inval));
}

#[test]
fn a_lock_held_elsewhere_becomes_pending() {
    let codes = SystemCodes::native();
    let mut inner = DaemonOwnerInner::new();
    let (answer, next) = set_lock_blocking(
        &mut inner,
        &codes,
        params(),
        9,
        BlockingStep::Attempt,
        Err(held_elsewhere()),
    );
    assert_eq!(answer, Some(Ok(ReplyLockCommandData::Pending(0))));
    assert_eq!(next, BlockingStep::Unblock);
    assert!(matches!(
        serve(&mut inner, Message::Interrupt(Interrupt { id: 0 }), 0),
        Service::StopThread(9)
    ));
    assert!(matches!(
        serve(&mut inner, Message::RemoveInterrupt(RemoveInterrupt { id: 0 }), 0),
        Service::DropThread(9)
    ));
    assert!(matches!(
        serve(&mut inner, Message::RemoveInterrupt(RemoveInterrupt { id: 0 }), 0),
        Service::Answer(Err(Errno::NoEnt))
    ));
    assert!(matches!(
        serve(&mut inner, Message::Interrupt(Interrupt { id: 0 }), 0),
        Service::Answer(Err(Errno::NoEnt))
    ));
    let (answer, _) = set_lock_blocking(
        &mut inner,
        &codes,
        params(),
        8,
        BlockingStep::Attempt,
        Err(held_elsewhere()),
    );
    assert_eq!(answer, Some(Ok(ReplyLockCommandData::Pending(1))));
}

#[test]
fn a_blocking_lock_goes_through_its_steps() {
    let codes = SystemCodes::native();
    let mut inner = DaemonOwnerInner::new();
    let mut step = |step: BlockingStep, outcome: Result<(), Error>| {
        set_lock_blocking(&mut inner, &codes, params(), 9, step, outcome)
    };
    let done = Some(Ok(ReplyLockCommandData::Done(params())));
    let eintr = Some(Err(Errno::Raw(libc::EINTR)));
    assert_eq!(step(BlockingStep::Attempt, Ok(())), (done, BlockingStep::Unblock));
    assert_eq!(step(BlockingStep::Attempt, Err(interrupted())), (eintr, BlockingStep::Unblock));
    assert_eq!(step(BlockingStep::Unblock, Ok(())), (None, BlockingStep::Wait));
    assert_eq!(step(BlockingStep::Unblock, Err(interrupted())), (eintr, BlockingStep::End));
    assert_eq!(step(BlockingStep::Wait, Ok(())), (done, BlockingStep::End));
    assert_eq!(step(BlockingStep::Wait, Err(interrupted())), (eintr, BlockingStep::End));
    assert_eq!(step(BlockingStep::End, Ok(())), (None, BlockingStep::End));
}

#[test]
fn the_receiving_loop_survives_nonsense() {
    for reason in [
        Reason::Undecodable(DecodeFailure::Overflow),
        Reason::NoDescriptors,
        Reason::ShortMessageReceived,
    ] {
        assert!(matches!(
            owner_receiving_loop::<u8>(Err(Error::Own(reason))),
            Reception::Skip
        ));
    }
    assert!(matches!(
        owner_receiving_loop::<u8>(Err(Error::Own(Reason::ConnectionTerminated))),
        Reception::End(Ok(()))
    ));
    assert!(matches!(
        owner_receiving_loop::<u8>(Err(interrupted())),
        Reception::End(Err(error)) if error == interrupted()
    ));
    assert!(matches!(
        owner_receiving_loop(Ok((Message::Ping(Ping {}), 4u8))),
        Reception::Serve(Message::Ping(Ping {}), 4)
    ));
}

#[test]
fn an_owner_starts_once() {
    let mut owner = DaemonOwner::new(Ttl { secs: 5, nanos: 0 });
    assert_eq!(owner.start(), Ok(()));
    assert_eq!(owner.start(), Err(Error::Own(Reason::AlreadyStarted)));
    assert_eq!(owner.ttl, Ttl { secs: 5, nanos: 0 });
}

#[test]
fn an_unused_owner_exits() {
    let owner = DaemonOwner::new(Ttl { secs: 5, nanos: 0 });
    let mut inner = DaemonOwnerInner::new();
    assert_eq!(owner.tick(&mut inner, TtlEvent::Refreshed), TtlAction::Continue);
    assert_eq!(owner.tick(&mut inner, TtlEvent::Disconnected), TtlAction::Join);
    assert_eq!(
        owner.tick(&mut inner, TtlEvent::TimedOut { finished: true }),
        TtlAction::Join
    );
    assert_eq!(
        owner.tick(&mut inner, TtlEvent::TimedOut { finished: false }),
        TtlAction::Exit
    );
    assert_eq!(inner.acquire_exit_lock(), Err(Error::Own(Reason::OwnerExited)));
}

#[test]
fn an_owner_with_files_goes_on() {
    let owner = DaemonOwner::new(Ttl { secs: 0, nanos: 0 });
    let mut inner = DaemonOwnerInner::new();
    register(&mut inner, 1);
    assert_eq!(
        owner.tick(&mut inner, TtlEvent::TimedOut { finished: false }),
        TtlAction::Continue
    );
    assert_eq!(inner.handle_fd_register(2, Ok(())), Ok(1));
}

#[test]
fn an_owner_ends_like_its_receiving_thread() {
    assert_eq!(DaemonOwner::joined(Some(Ok(()))), Ok(()));
    assert_eq!(DaemonOwner::joined(Some(Err(interrupted()))), Err(interrupted()));
    assert_eq!(DaemonOwner::joined(None), Err(Error::Own(Reason::ThreadJoin)));
}
