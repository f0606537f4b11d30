use ulockmgr::error::{io_cvt, report, DecodeFailure, Errno, Error, ErrorKind, Reason};
use ulockmgr::helpers::{cvt, ensure_sigaction_exists};
use ulockmgr::processes::{coordinator_arguments, owner_arguments};
use ulockmgr::types::{
    LockAction, LockParams, LockType, LockWhence, RawLock, SystemCodes, Ttl,
};

#[test]
fn numbers_are_those_of_the_system() {
    assert_eq!(i32::from(LockAction::SetLockNonBlocking), libc::F_SETLK);
    assert_eq!(i32::from(LockAction::SetLockBlocking), libc::F_SETLKW);
    assert_eq!(i32::from(LockAction::GetLockStatus), libc::F_GETLK);
    assert_eq!(i32::from(LockType::Read), libc::F_RDLCK);
    assert_eq!(i32::from(LockType::Write), libc::F_WRLCK);
    assert_eq!(i32::from(LockType::Unlock), libc::F_UNLCK);
    assert_eq!(i16::from(LockType::Read), libc::F_RDLCK as i16);
    assert_eq!(i16::from(LockType::Write), libc::F_WRLCK as i16);
    assert_eq!(i16::from(LockType::Unlock), libc::F_UNLCK as i16);
    assert_eq!(i32::from(LockWhence::Start), libc::SEEK_SET);
    assert_eq!(i32::from(LockWhence::Current), libc::SEEK_CUR);
    assert_eq!(i32::from(LockWhence::End), libc::SEEK_END);
    assert_eq!(i16::from(LockWhence::Start), 0);
    assert_eq!(i16::from(LockWhence::Current), 1);
    assert_eq!(i16::from(LockWhence::End), 2);
}

#[test]
fn native_codes_are_well_formed() {
    let codes = SystemCodes::native();
    assert_eq!(codes.set_lock_wait, codes.set_lock + 1);
    assert!(codes.get_lock != codes.set_lock && codes.get_lock != codes.set_lock_wait);
    assert!(codes.read_lock == 0 || codes.read_lock == 1);
    assert_eq!(codes.write_lock, codes.read_lock + 1);
    assert_eq!(codes.unlock, codes.read_lock + 2);
    assert_eq!((codes.seek_start, codes.seek_current, codes.seek_end), (0, 1, 2));
    assert_eq!(codes.would_block, 11);
    assert_eq!((codes.default_handler, codes.ignoring_handler), (0, 1));
}

#[test]
fn numbers_are_read_back() {
    for action in [
        LockAction::SetLockNonBlocking,
        LockAction::SetLockBlocking,
        LockAction::GetLockStatus,
    ] {
        assert_eq!(LockAction::try_from(i32::from(action)), Ok(action));
    }
    for lock_type in [LockType::Read, LockType::Write, LockType::Unlock] {
        assert_eq!(LockType::try_from(i32::from(lock_type)), Ok(lock_type));
    }
    for whence in [LockWhence::Start, LockWhence::Current, LockWhence::End] {
        assert_eq!(LockWhence::try_from(i32::from(whence)), Ok(whence));
    }
}

#[test]
fn unknown_numbers_are_invalid_input() {
    let command = Error::Own(Reason::InvalidLockCommand);
    assert_eq!(LockAction::try_from(-1), Err(command));
    assert_eq!(command.kind(), ErrorKind::InvalidInput);
    assert_eq!(Reason::InvalidLockCommand.message(), "Invalid lock command");
    let lock_type = Error::Own(Reason::InvalidLockType);
    assert_eq!(LockType::try_from(99), Err(lock_type));
    assert_eq!(lock_type.kind(), ErrorKind::InvalidInput);
    assert_eq!(Reason::InvalidLockType.message(), "Invalid lock type");
    let whence = Error::Own(Reason::InvalidLockWhence);
    assert_eq!(LockWhence::try_from(3), Err(whence));
    assert_eq!(whence.kind(), ErrorKind::InvalidInput);
    assert_eq!(Reason::InvalidLockWhence.message(), "Invalid lock whence");
}

#[test]
fn locks_are_read_back() {
    let params = LockParams {
        lock_type: LockType::Read,
        whence: LockWhence::Current,
        start: 10,
        len: 20,
        pid: 30,
    };
    let raw = RawLock::from(params);
    assert_eq!(
        raw,
        RawLock {
            l_type: libc::F_RDLCK as i16,
            l_whence: libc::SEEK_CUR as i16,
            l_start: 10,
            l_len: 20,
            l_pid: 30,
        }
    );
    assert_eq!(LockParams::try_from(raw), Ok(params));
}

#[test]
fn an_unknown_lock_type_is_reported_before_an_unknown_anchor() {
    let raw = RawLock { l_type: 50, l_whence: 60, l_start: 0, l_len: 0, l_pid: 0 };
    assert_eq!(LockParams::try_from(raw), Err(Error::Own(Reason::InvalidLockType)));
    let raw = RawLock { l_type: libc::F_UNLCK as i16, ..raw };
    assert_eq!(LockParams::try_from(raw), Err(Error::Own(Reason::InvalidLockWhence)));
}

#[test]
fn system_failures_keep_their_number() {
    let error = Error::Os { errno: libc::EINTR, kind: ErrorKind::Interrupted };
    assert_eq!(report(error), Errno::Raw(libc::EINTR));
    assert_eq!(io_cvt::<()>(Err(error)).unwrap_err().raw_os_error(), libc::EINTR);
    assert_eq!(error.raw_os_error(), Some(libc::EINTR));
    assert_eq!(io_cvt(Ok::<u8, Error>(4)), Ok(4));
}

#[test]
fn other_failures_get_the_number_of_their_class() {
    for (kind, number) in [
        (ErrorKind::NotFound, libc::ENOENT),
        (ErrorKind::PermissionDenied, libc::EPERM),
        (ErrorKind::ConnectionRefused, libc::ECONNREFUSED),
        (ErrorKind::ConnectionReset, libc::ECONNRESET),
        (ErrorKind::ConnectionAborted, libc::ECONNABORTED),
        (ErrorKind::NotConnected, libc::ENOTCONN),
        (ErrorKind::AddrInUse, libc::EADDRINUSE),
        (ErrorKind::AddrNotAvailable, libc::EADDRNOTAVAIL),
        (ErrorKind::TimedOut, libc::ETIMEDOUT),
        (ErrorKind::WouldBlock, libc::EWOULDBLOCK),
        (ErrorKind::AlreadyExists, libc::EEXIST),
        (ErrorKind::InvalidInput, libc::EINVAL),
        (ErrorKind::InvalidData, libc::EINVAL),
        (ErrorKind::Deadlock, libc::EDEADLK),
        (ErrorKind::Other, libc::EIO),
        (ErrorKind::BrokenPipe, libc::EIO),
        (ErrorKind::Interrupted, libc::EIO),
        (ErrorKind::UnexpectedEof, libc::EIO),
        (ErrorKind::WriteZero, libc::EIO),
        (ErrorKind::ResourceBusy, libc::EIO),
        (ErrorKind::Unlisted, libc::EIO),
    ] {
        let error = Error::Foreign { kind, token: 3 };
        assert_eq!(error.kind(), kind);
        assert_eq!(error.raw_os_error(), None);
        assert_eq!(report(error).raw_os_error(), number);
    }
    assert_eq!(report(Error::Own(Reason::UnknownDescriptor)).raw_os_error(), libc::ENOENT);
    assert_eq!(report(Error::Own(Reason::OwnerExited)).raw_os_error(), libc::EIO);
    assert_eq!(Errno::Pipe.raw_os_error(), libc::EPIPE);
    assert_eq!(Errno::Deadlock.raw_os_error(), libc::EDEADLOCK);
}

#[test]
fn minus_one_is_a_failure() {
    let last = Error::Os { errno: libc::EINVAL, kind: ErrorKind::InvalidInput };
    assert_eq!(cvt(-1i32, last), Err(last));
    assert_eq!(cvt(-1i64, last), Err(last));
    assert_eq!(cvt(0i32, last), Ok(0));
    assert_eq!(cvt(-2i64, last), Ok(-2));
}

#[test]
fn a_process_must_handle_the_signal() {
    let codes = SystemCodes::native();
    let refused = Err(Error::Own(Reason::NoSignalHandler));
    assert_eq!(ensure_sigaction_exists(&codes, Ok(libc::SIG_DFL)), refused);
    assert_eq!(ensure_sigaction_exists(&codes, Ok(libc::SIG_IGN)), refused);
    assert_eq!(ensure_sigaction_exists(&codes, Ok(0x1000)), Ok(()));
    let error = Error::Os { errno: libc::EINVAL, kind: ErrorKind::InvalidInput };
    assert_eq!(ensure_sigaction_exists(&codes, Err(error)), Err(error));
    assert_eq!(Reason::NoSignalHandler.kind(), ErrorKind::InvalidInput);
}

#[test]
fn command_lines_are_spelled_out() {
    assert_eq!(
        owner_arguments(7, Ttl { secs: 5, nanos: 250 }),
        vec!["owner", "7", "--ttl-secs", "5", "--ttl-nsecs", "250"]
    );
    assert_eq!(
        owner_arguments(0, Ttl { secs: u64::MAX, nanos: 999_999_999 }),
        vec![
            "owner",
            "0",
            "--ttl-secs",
            "18446744073709551615",
            "--ttl-nsecs",
            "999999999"
        ]
    );
    assert_eq!(coordinator_arguments(120), vec!["coordinator", "120"]);
    assert_eq!(coordinator_arguments(-10), vec!["coordinator", "-10"]);
}

#[test]
fn reasons_have_their_class() {
    for (reason, kind) in [
        (Reason::ExpectedOneOwnerFd, ErrorKind::Other),
        (Reason::InvalidPayload, ErrorKind::InvalidInput),
        (Reason::InvalidDescriptorCount, ErrorKind::InvalidInput),
        (Reason::ConnectionTerminated, ErrorKind::BrokenPipe),
        (Reason::ShortMessageReceived, ErrorKind::UnexpectedEof),
        (Reason::LengthOutOfRange, ErrorKind::InvalidInput),
        (Reason::UnexpectedAncillary, ErrorKind::InvalidData),
        (Reason::NotEnoughFiles, ErrorKind::UnexpectedEof),
        (Reason::ShortMessageSent, ErrorKind::WriteZero),
        (Reason::RequestClosed, ErrorKind::BrokenPipe),
        (Reason::RequestWithFdsClosed, ErrorKind::BrokenPipe),
        (Reason::NoDescriptors, ErrorKind::InvalidInput),
        (Reason::Undecodable(DecodeFailure::EndOfInput), ErrorKind::InvalidData),
        (Reason::OwnerExited, ErrorKind::BrokenPipe),
        (Reason::FilesRegistered, ErrorKind::ResourceBusy),
        (Reason::AlreadyStarted, ErrorKind::BrokenPipe),
        (Reason::ThreadJoin, ErrorKind::Other),
        (Reason::UnknownInterrupt, ErrorKind::NotFound),
        (Reason::UnknownDescriptor, ErrorKind::NotFound),
        (Reason::GetLockPending, ErrorKind::InvalidData),
        (Reason::SetLockPending, ErrorKind::InvalidData),
        (Reason::SetLockWaitPendingTwice, ErrorKind::InvalidData),
        (Reason::BlockingLockClosed, ErrorKind::BrokenPipe),
        (Reason::ThreadPanicked, ErrorKind::Other),
        (Reason::TrackerShutDown, ErrorKind::Other),
        (Reason::CheckingThreadHungUp, ErrorKind::Other),
    ] {
        assert_eq!(reason.kind(), kind);
        assert_eq!(Error::Own(reason).kind(), kind);
        assert!(!reason.message().is_empty());
    }
    assert_eq!(
        Reason::SetLockWaitPendingTwice.message(),
        "setlkw should not return a pending operation twice"
    );
}
