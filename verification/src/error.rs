//! Failures: what went wrong, how it is classified, and the number it is given on the wire.

use crate::processes::{decimal, to_decimal};
use rustix::io::Errno as SystemErrno;
use vstd::prelude::*;
use vstd::string::StringExecFns;

verus! {

/// The classes of failure that the library tells apart.
///
/// They carry the names of the classes of `std::io`. Every class of `std::io` without a variant
/// here counts as `Unlisted`.
#[derive(Debug, Clone, Copy, PartialEq, Eq, Structural)]
pub enum ErrorKind {
    NotFound,
    PermissionDenied,
    ConnectionRefused,
    ConnectionReset,
    ConnectionAborted,
    NotConnected,
    AddrInUse,
    AddrNotAvailable,
    BrokenPipe,
    AlreadyExists,
    WouldBlock,
    InvalidInput,
    InvalidData,
    TimedOut,
    WriteZero,
    Interrupted,
    UnexpectedEof,
    Deadlock,
    ResourceBusy,
    Other,
    Unlisted,
}

/// Why bytes hold no value of a type.
#[derive(Debug, Clone, Copy, PartialEq, Eq, Structural)]
pub enum DecodeFailure {
    /// The bytes end before the value does.
    EndOfInput,
    /// The number stands for none of the variants, of which there are `count`.
    UnknownVariant { found: u32, count: u32 },
    /// The number stands neither for success nor for failure.
    UnknownOutcome { number: u32 },
    /// A span of time that is too long.
    Overflow,
}

/// What a failure to decode says to a reader.
pub open spec fn decode_text(failure: DecodeFailure) -> Seq<char> {
    match failure {
        DecodeFailure::EndOfInput => "io error: unexpected end of file"@,
        DecodeFailure::UnknownVariant { found, count } => "invalid value: integer `"@ + decimal(
            found as int,
        ) + "`, expected variant index 0 <= i < "@ + decimal(count as int),
        DecodeFailure::UnknownOutcome { number } => "invalid value: integer `"@ + decimal(
            number as int,
        ) + "`, expected `Ok` or `Err`"@,
        DecodeFailure::Overflow => "overflow deserializing Duration"@,
    }
}

impl DecodeFailure {
    /// The text of the failure.
    pub fn message(self) -> (text: String)
        ensures
            text@ == decode_text(self),
    {
        match self {
            DecodeFailure::EndOfInput => "io error: unexpected end of file".to_string(),
            DecodeFailure::UnknownVariant { found, count } => {
                let mut text = "invalid value: integer `".to_string();
                text.append(to_decimal(found as i128).as_str());
                text.append("`, expected variant index 0 <= i < ");
                text.append(to_decimal(count as i128).as_str());
                text
            },
            DecodeFailure::UnknownOutcome { number } => {
                let mut text = "invalid value: integer `".to_string();
                text.append(to_decimal(number as i128).as_str());
                text.append("`, expected `Ok` or `Err`");
                text
            },
            DecodeFailure::Overflow => "overflow deserializing Duration".to_string(),
        }
    }
}

/// The failures that the library itself reports.
#[derive(Debug, Clone, Copy, PartialEq, Eq, Structural)]
pub enum Reason {
    /// `SIGUSR1` would kill the process or go unnoticed.
    NoSignalHandler,
    /// The coordinator answered a spawn request with the wrong number of descriptors.
    ExpectedOneOwnerFd,
    /// A payload of another kind of message.
    InvalidPayload,
    /// A message that carries the wrong number of descriptors.
    InvalidDescriptorCount,
    /// The peer closed the socket.
    ConnectionTerminated,
    /// Fewer bytes arrived than a frame holds.
    ShortMessageReceived,
    /// A frame announces more than the address space holds.
    LengthOutOfRange,
    /// Control data other than descriptors.
    UnexpectedAncillary,
    /// Another number of descriptors than announced.
    NotEnoughFiles,
    /// Fewer bytes went out than a frame holds.
    ShortMessageSent,
    /// The peer closed the reply channel of a request.
    RequestClosed,
    /// The peer closed the reply channel of a request that expects descriptors.
    RequestWithFdsClosed,
    /// A request without a reply channel.
    NoDescriptors,
    /// Bytes that are no payload, and why.
    Undecodable(DecodeFailure),
    /// The owner process has decided to exit.
    OwnerExited,
    /// The owner process still holds files.
    FilesRegistered,
    /// The owner process runs already.
    AlreadyStarted,
    /// The receiving thread of the owner process ended by a panic.
    ThreadJoin,
    /// No pending lock has this id.
    UnknownInterrupt,
    /// No registered file has this id.
    UnknownDescriptor,
    /// A lock query was answered with a pending lock.
    GetLockPending,
    /// A lock attempt was answered with a pending lock.
    SetLockPending,
    /// A pending lock was reported as pending again.
    SetLockWaitPendingTwice,
    /// The peer closed the reply channel of a blocking lock.
    BlockingLockClosed,
    /// A detached lock ended by a panic.
    ThreadPanicked,
    /// The tracker takes no more threads.
    TrackerShutDown,
    /// A new thread ended before it reported whether it is tracked.
    CheckingThreadHungUp,
    /// A number that is no lock command.
    InvalidLockCommand,
    /// A number that is no lock type.
    InvalidLockType,
    /// A number that is no anchor of a lock range.
    InvalidLockWhence,
}

/// The class of each of the library's own failures.
pub open spec fn reason_kind(reason: Reason) -> ErrorKind {
    match reason {
        Reason::UnknownInterrupt | Reason::UnknownDescriptor => ErrorKind::NotFound,
        Reason::ConnectionTerminated
        | Reason::RequestClosed
        | Reason::RequestWithFdsClosed
        | Reason::OwnerExited
        | Reason::AlreadyStarted
        | Reason::BlockingLockClosed => ErrorKind::BrokenPipe,
        Reason::NoSignalHandler
        | Reason::InvalidPayload
        | Reason::InvalidDescriptorCount
        | Reason::LengthOutOfRange
        | Reason::NoDescriptors
        | Reason::InvalidLockCommand
        | Reason::InvalidLockType
        | Reason::InvalidLockWhence => ErrorKind::InvalidInput,
        Reason::UnexpectedAncillary
        | Reason::Undecodable(_)
        | Reason::GetLockPending
        | Reason::SetLockPending
        | Reason::SetLockWaitPendingTwice => ErrorKind::InvalidData,
        Reason::ShortMessageReceived | Reason::NotEnoughFiles => ErrorKind::UnexpectedEof,
        Reason::ShortMessageSent => ErrorKind::WriteZero,
        Reason::FilesRegistered => ErrorKind::ResourceBusy,
        Reason::ExpectedOneOwnerFd
        | Reason::ThreadJoin
        | Reason::ThreadPanicked
        | Reason::TrackerShutDown
        | Reason::CheckingThreadHungUp => ErrorKind::Other,
    }
}

/// What each of the library's own failures says to a reader.
pub open spec fn reason_text(reason: Reason) -> Seq<char> {
    match reason {
        Reason::NoSignalHandler => "the process must be able to handle signals"@,
        Reason::ExpectedOneOwnerFd => "expected 1 owner FD"@,
        Reason::InvalidPayload => "invalid payload"@,
        Reason::InvalidDescriptorCount => "invalid number of file descriptors"@,
        Reason::ConnectionTerminated => "connection terminated"@,
        Reason::ShortMessageReceived => "short message received"@,
        Reason::LengthOutOfRange => "out of range integral type conversion attempted"@,
        Reason::UnexpectedAncillary => "unexpected ancillary message"@,
        Reason::NotEnoughFiles => "not enough files sent"@,
        Reason::ShortMessageSent => "short message sent"@,
        Reason::RequestClosed => "send_request: connection is closed"@,
        Reason::RequestWithFdsClosed => "send_request_with_fds: connection is closed"@,
        Reason::NoDescriptors => "no file descriptors received"@,
        Reason::Undecodable(failure) => decode_text(failure),
        Reason::OwnerExited => "owner already exited"@,
        Reason::FilesRegistered => "there are still registered files"@,
        Reason::AlreadyStarted => "daemon owner already started"@,
        Reason::ThreadJoin => "thread join error: Any { .. }"@,
        Reason::UnknownInterrupt => "no interrupts found with specified ID"@,
        Reason::UnknownDescriptor => "file descriptor not found"@,
        Reason::GetLockPending => "getlk should not return a pending operation"@,
        Reason::SetLockPending => "setlk should not return a pending operation"@,
        Reason::SetLockWaitPendingTwice => "setlkw should not return a pending operation twice"@,
        Reason::BlockingLockClosed => "set_lock_blocking: connection is closed"@,
        Reason::ThreadPanicked => "thread panicked"@,
        Reason::TrackerShutDown => "cannot spawn any threads, the tracker is shutting down"@,
        Reason::CheckingThreadHungUp => "checking thread hung up"@,
        Reason::InvalidLockCommand => "Invalid lock command"@,
        Reason::InvalidLockType => "Invalid lock type"@,
        Reason::InvalidLockWhence => "Invalid lock whence"@,
    }
}

impl Reason {
    /// The class of the failure.
    pub fn kind(self) -> (kind: ErrorKind)
        ensures
            kind == reason_kind(self),
    {
        match self {
            Reason::UnknownInterrupt | Reason::UnknownDescriptor => ErrorKind::NotFound,
            Reason::ConnectionTerminated
            | Reason::RequestClosed
            | Reason::RequestWithFdsClosed
            | Reason::OwnerExited
            | Reason::AlreadyStarted
            | Reason::BlockingLockClosed => ErrorKind::BrokenPipe,
            Reason::NoSignalHandler
            | Reason::InvalidPayload
            | Reason::InvalidDescriptorCount
            | Reason::LengthOutOfRange
            | Reason::NoDescriptors
            | Reason::InvalidLockCommand
            | Reason::InvalidLockType
            | Reason::InvalidLockWhence => ErrorKind::InvalidInput,
            Reason::UnexpectedAncillary
            | Reason::Undecodable(_)
            | Reason::GetLockPending
            | Reason::SetLockPending
            | Reason::SetLockWaitPendingTwice => ErrorKind::InvalidData,
            Reason::ShortMessageReceived | Reason::NotEnoughFiles => ErrorKind::UnexpectedEof,
            Reason::ShortMessageSent => ErrorKind::WriteZero,
            Reason::FilesRegistered => ErrorKind::ResourceBusy,
            Reason::ExpectedOneOwnerFd
            | Reason::ThreadJoin
            | Reason::ThreadPanicked
            | Reason::TrackerShutDown
            | Reason::CheckingThreadHungUp => ErrorKind::Other,
        }
    }

    /// The text of the failure.
    pub fn message(self) -> (text: String)
        ensures
            text@ == reason_text(self),
    {
        let text = match self {
            Reason::NoSignalHandler => "the process must be able to handle signals",
            Reason::ExpectedOneOwnerFd => "expected 1 owner FD",
            Reason::InvalidPayload => "invalid payload",
            Reason::InvalidDescriptorCount => "invalid number of file descriptors",
            Reason::ConnectionTerminated => "connection terminated",
            Reason::ShortMessageReceived => "short message received",
            Reason::LengthOutOfRange => "out of range integral type conversion attempted",
            Reason::UnexpectedAncillary => "unexpected ancillary message",
            Reason::NotEnoughFiles => "not enough files sent",
            Reason::ShortMessageSent => "short message sent",
            Reason::RequestClosed => "send_request: connection is closed",
            Reason::RequestWithFdsClosed => "send_request_with_fds: connection is closed",
            Reason::NoDescriptors => "no file descriptors received",
            Reason::Undecodable(failure) => return failure.message(),
            Reason::OwnerExited => "owner already exited",
            Reason::FilesRegistered => "there are still registered files",
            Reason::AlreadyStarted => "daemon owner already started",
            Reason::ThreadJoin => "thread join error: Any { .. }",
            Reason::UnknownInterrupt => "no interrupts found with specified ID",
            Reason::UnknownDescriptor => "file descriptor not found",
            Reason::GetLockPending => "getlk should not return a pending operation",
            Reason::SetLockPending => "setlk should not return a pending operation",
            Reason::SetLockWaitPendingTwice => "setlkw should not return a pending operation twice",
            Reason::BlockingLockClosed => "set_lock_blocking: connection is closed",
            Reason::ThreadPanicked => "thread panicked",
            Reason::TrackerShutDown => "cannot spawn any threads, the tracker is shutting down",
            Reason::CheckingThreadHungUp => "checking thread hung up",
            Reason::InvalidLockCommand => "Invalid lock command",
            Reason::InvalidLockType => "Invalid lock type",
            Reason::InvalidLockWhence => "Invalid lock whence",
        };
        text.to_string()
    }
}

/// A failure.
#[derive(Debug, Clone, Copy, PartialEq, Eq, Structural)]
pub enum Error {
    /// The system reported the failure, with its number and the class that the number stands for.
    Os { errno: i32, kind: ErrorKind },
    /// The library reported the failure.
    Own(Reason),
    /// Something else reported the failure, without a number. It is found again by the token.
    Foreign { kind: ErrorKind, token: u64 },
}

impl Error {
    /// The class of a failure.
    pub open spec fn spec_kind(self) -> ErrorKind {
        match self {
            Error::Os { errno: _, kind } => kind,
            Error::Own(reason) => reason_kind(reason),
            Error::Foreign { kind, token: _ } => kind,
        }
    }

    /// The number that the system gave a failure, if it reported it.
    pub open spec fn spec_raw_os_error(self) -> Option<i32> {
        match self {
            Error::Os { errno, kind: _ } => Some(errno),
            _ => None,
        }
    }

    /// The class of the failure.
    #[verifier::when_used_as_spec(spec_kind)]
    pub fn kind(self) -> (kind: ErrorKind)
        ensures
            kind == self.spec_kind(),
    {
        match self {
            Error::Os { errno: _, kind } => kind,
            Error::Own(reason) => reason.kind(),
            Error::Foreign { kind, token: _ } => kind,
        }
    }

    /// The number that the system gave the failure, if it reported it.
    #[verifier::when_used_as_spec(spec_raw_os_error)]
    pub fn raw_os_error(self) -> (errno: Option<i32>)
        ensures
            errno == self.spec_raw_os_error(),
    {
        match self {
            Error::Os { errno, kind: _ } => Some(errno),
            _ => None,
        }
    }
}

/// An error number, by the name that the system's headers give it or as it came from the system.
#[derive(Debug, Clone, Copy, PartialEq, Eq, Structural)]
pub enum Errno {
    Raw(i32),
    NoEnt,
    Perm,
    ConnRefused,
    ConnReset,
    ConnAborted,
    NotConn,
    AddrInUse,
    AddrNotAvail,
    TimedOut,
    WouldBlock,
    Exist,
    Inval,
    Deadlock,
    Io,
    Pipe,
}

impl Errno {
    /// Whether the number can come from a Linux system call.
    pub open spec fn valid(self) -> bool {
        self matches Errno::Raw(number) ==> 1 <= number <= 4095
    }

    /// Whether `number` may stand for this error on a Linux system.
    ///
    /// Where the number differs between processor architectures, it is one of a few.
    pub open spec fn numbered(self, number: i32) -> bool {
        &&& 1 <= number <= 4095
        &&& match self {
            Errno::Raw(raw) => number == raw,
            Errno::NoEnt => number == 2,
            Errno::Perm => number == 1,
            Errno::WouldBlock => number == 11,
            Errno::Exist => number == 17,
            Errno::Inval => number == 22,
            Errno::Io => number == 5,
            Errno::Pipe => number == 32,
            Errno::ConnRefused => number == 111 || number == 146 || number == 61,
            Errno::ConnReset => number == 104 || number == 131 || number == 54,
            Errno::ConnAborted => number == 103 || number == 130 || number == 53,
            Errno::NotConn => number == 107 || number == 134 || number == 57,
            Errno::AddrInUse => number == 98 || number == 125 || number == 48,
            Errno::AddrNotAvail => number == 99 || number == 126 || number == 49,
            Errno::TimedOut => number == 110 || number == 145 || number == 60,
            Errno::Deadlock => number == 35 || number == 56 || number == 58 || number == 108,
        }
    }

    /// The number itself.
    pub fn raw_os_error(self) -> (number: i32)
        requires
            self.valid(),
        ensures
            self.numbered(number),
    {
        errno_number(self)
    }
}

/// `rustix::io::Errno::raw_os_error`, on one of that type's constants or on what
/// `rustix::io::Errno::from_raw_os_error` makes of a number.
///
/// Every number lies between 1 and 4095, `from_raw_os_error` (which panics outside these bounds)
/// keeps its argument, and the numbers of `ENOENT`, `EPERM`, `EAGAIN`, `EEXIST`, `EINVAL`, `EIO` and
/// `EPIPE` are the same on all architectures of Linux. Each of the others has one number on most
/// architectures, another on MIPS and another on SPARC, and `EDEADLOCK` has one more on PowerPC.
#[verifier::external_body]
fn errno_number(errno: Errno) -> (number: i32)
    requires
        errno.valid(),
    ensures
        errno.numbered(number),
{
    let system = match errno {
        Errno::Raw(raw) => SystemErrno::from_raw_os_error(raw),
        Errno::NoEnt => SystemErrno::NOENT, Errno::Perm => SystemErrno::PERM,
        Errno::ConnRefused => SystemErrno::CONNREFUSED, Errno::ConnReset => SystemErrno::CONNRESET,
        Errno::ConnAborted => SystemErrno::CONNABORTED, Errno::NotConn => SystemErrno::NOTCONN,
        Errno::AddrInUse => SystemErrno::ADDRINUSE, Errno::AddrNotAvail => SystemErrno::ADDRNOTAVAIL,
        Errno::TimedOut => SystemErrno::TIMEDOUT, Errno::WouldBlock => SystemErrno::WOULDBLOCK,
        Errno::Exist => SystemErrno::EXIST, Errno::Inval => SystemErrno::INVAL,
        Errno::Deadlock => SystemErrno::DEADLOCK, Errno::Io => SystemErrno::IO,
        Errno::Pipe => SystemErrno::PIPE,
    };
    system.raw_os_error()
}

/// The error number that reports a failure to a peer: the system's own number where there is one,
/// else the number of the failure's class, else `EIO`.
pub open spec fn reported(error: Error) -> Errno {
    match error.spec_raw_os_error() {
        Some(number) => Errno::Raw(number),
        None => match error.spec_kind() {
            ErrorKind::NotFound => Errno::NoEnt,
            ErrorKind::PermissionDenied => Errno::Perm,
            ErrorKind::ConnectionRefused => Errno::ConnRefused,
            ErrorKind::ConnectionReset => Errno::ConnReset,
            ErrorKind::ConnectionAborted => Errno::ConnAborted,
            ErrorKind::NotConnected => Errno::NotConn,
            ErrorKind::AddrInUse => Errno::AddrInUse,
            ErrorKind::AddrNotAvailable => Errno::AddrNotAvail,
            ErrorKind::TimedOut => Errno::TimedOut,
            ErrorKind::WouldBlock => Errno::WouldBlock,
            ErrorKind::AlreadyExists => Errno::Exist,
            ErrorKind::InvalidInput | ErrorKind::InvalidData => Errno::Inval,
            ErrorKind::Deadlock => Errno::Deadlock,
            _ => Errno::Io,
        },
    }
}

/// The error number that reports a failure to a peer.
pub fn report(error: Error) -> (errno: Errno)
    ensures
        errno == reported(error),
{
    match error.raw_os_error() {
        Some(number) => Errno::Raw(number),
        None => match error.kind() {
            ErrorKind::NotFound => Errno::NoEnt,
            ErrorKind::PermissionDenied => Errno::Perm,
            ErrorKind::ConnectionRefused => Errno::ConnRefused,
            ErrorKind::ConnectionReset => Errno::ConnReset,
            ErrorKind::ConnectionAborted => Errno::ConnAborted,
            ErrorKind::NotConnected => Errno::NotConn,
            ErrorKind::AddrInUse => Errno::AddrInUse,
            ErrorKind::AddrNotAvailable => Errno::AddrNotAvail,
            ErrorKind::TimedOut => Errno::TimedOut,
            ErrorKind::WouldBlock => Errno::WouldBlock,
            ErrorKind::AlreadyExists => Errno::Exist,
            ErrorKind::InvalidInput => Errno::Inval,
            ErrorKind::InvalidData => Errno::Inval,
            ErrorKind::Deadlock => Errno::Deadlock,
            ErrorKind::Other => Errno::Io,
            _ => Errno::Io,
        },
    }
}

/// A result whose failure is turned into the error number that reports it.
pub open spec fn io_cvt_spec<T>(result: Result<T, Error>) -> Result<T, Errno> {
    match result {
        Ok(value) => Ok(value),
        Err(error) => Err(reported(error)),
    }
}

/// Turns a failure into the error number that reports it to a peer.
pub fn io_cvt<T>(result: Result<T, Error>) -> (converted: Result<T, Errno>)
    ensures
        converted == io_cvt_spec(result),
{
    match result {
        Ok(value) => Ok(value),
        Err(error) => Err(report(error)),
    }
}

} // verus!
