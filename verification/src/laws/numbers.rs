//! Laws of failures and of numbers: how failures are classed and numbered, which numbers the system
//! gives to locks, and how numbers are written.

use crate::error::{io_cvt, report, DecodeFailure, Errno, Error, ErrorKind, Reason};
use crate::helpers::{cvt, ensure_sigaction_exists};
use crate::laws::locking::is_raw;
use crate::processes::{
    coordinator_arguments, decimal, digit, digits, owner_arguments,
};
use crate::types::{LockAction, LockParams, LockType, LockWhence, RawLock, SystemCodes, Ttl};
use vstd::prelude::*;
use vstd::std_specs::convert::IntoSpec;

verus! {

/// A failure that the system reported keeps its number and its class, and no other failure has a
/// number.
pub proof fn failure_keeps_its_number(
    error: Error,
    kind: ErrorKind,
    number: Option<i32>,
    reason: Reason,
    reason_kind: ErrorKind,
)
    requires
        call_ensures(Error::kind, (error,), kind),
        call_ensures(Error::raw_os_error, (error,), number),
        call_ensures(Reason::kind, (reason,), reason_kind),
    ensures
        error matches Error::Os { errno, kind: class } ==> number == Some(errno) && kind == class,
        error matches Error::Own(own) ==> number is None && (own == reason ==> kind == reason_kind),
        error matches Error::Foreign { kind: class, token } ==> number is None && kind == class,
{
}

/// The failures after which a peer is taken for gone are those of a closed connection, and no others
/// of the library's own.
pub proof fn closed_connection_is_a_broken_pipe(reason: Reason, kind: ErrorKind)
    requires
        call_ensures(Reason::kind, (reason,), kind),
    ensures
        kind == ErrorKind::BrokenPipe <==> reason == Reason::ConnectionTerminated || reason
            == Reason::RequestClosed || reason == Reason::RequestWithFdsClosed || reason
            == Reason::OwnerExited || reason == Reason::AlreadyStarted || reason
            == Reason::BlockingLockClosed,
        kind == ErrorKind::NotFound <==> reason == Reason::UnknownInterrupt || reason
            == Reason::UnknownDescriptor,
        kind == ErrorKind::UnexpectedEof <==> reason == Reason::ShortMessageReceived || reason
            == Reason::NotEnoughFiles,
        kind == ErrorKind::WriteZero <==> reason == Reason::ShortMessageSent,
        kind == ErrorKind::ResourceBusy <==> reason == Reason::FilesRegistered,
        kind == ErrorKind::InvalidData <==> reason is Undecodable || reason
            == Reason::UnexpectedAncillary || reason == Reason::GetLockPending || reason
            == Reason::SetLockPending || reason == Reason::SetLockWaitPendingTwice,
        kind == ErrorKind::InvalidInput <==> reason == Reason::NoSignalHandler || reason
            == Reason::InvalidPayload || reason == Reason::InvalidDescriptorCount || reason
            == Reason::LengthOutOfRange || reason == Reason::NoDescriptors || reason
            == Reason::InvalidLockCommand || reason == Reason::InvalidLockType || reason
            == Reason::InvalidLockWhence,
        kind == ErrorKind::Other <==> reason == Reason::ExpectedOneOwnerFd || reason
            == Reason::ThreadJoin || reason == Reason::ThreadPanicked || reason
            == Reason::TrackerShutDown || reason == Reason::CheckingThreadHungUp,
{
}

/// A failure is reported to a peer by the number that the system gave it. One without a number is
/// reported by the number of its class, and by that of an input or output failure where the class has
/// none.
pub proof fn failure_is_reported_by_its_number<T>(
    error: Error,
    errno: Errno,
    kind: ErrorKind,
    converted: Result<T, Errno>,
    value: T,
    unchanged: Result<T, Errno>,
)
    requires
        call_ensures(report, (error,), errno),
        call_ensures(Error::kind, (error,), kind),
        call_ensures(io_cvt::<T>, (Err::<T, Error>(error),), converted),
        call_ensures(io_cvt::<T>, (Ok::<T, Error>(value),), unchanged),
    ensures
        unchanged == Ok::<T, Errno>(value),
        converted == Err::<T, Errno>(errno),
        error matches Error::Os { errno: number, kind: _ } ==> errno == Errno::Raw(number),
        !(error is Os) ==> {
            &&& kind == ErrorKind::NotFound <==> errno == Errno::NoEnt
            &&& kind == ErrorKind::PermissionDenied <==> errno == Errno::Perm
            &&& kind == ErrorKind::ConnectionRefused <==> errno == Errno::ConnRefused
            &&& kind == ErrorKind::ConnectionReset <==> errno == Errno::ConnReset
            &&& kind == ErrorKind::ConnectionAborted <==> errno == Errno::ConnAborted
            &&& kind == ErrorKind::NotConnected <==> errno == Errno::NotConn
            &&& kind == ErrorKind::AddrInUse <==> errno == Errno::AddrInUse
            &&& kind == ErrorKind::AddrNotAvailable <==> errno == Errno::AddrNotAvail
            &&& kind == ErrorKind::TimedOut <==> errno == Errno::TimedOut
            &&& kind == ErrorKind::WouldBlock <==> errno == Errno::WouldBlock
            &&& kind == ErrorKind::AlreadyExists <==> errno == Errno::Exist
            &&& kind == ErrorKind::InvalidInput || kind == ErrorKind::InvalidData <==> errno
                == Errno::Inval
            &&& kind == ErrorKind::Deadlock <==> errno == Errno::Deadlock
            &&& errno != Errno::Pipe
            &&& !(errno is Raw)
        },
{
}

/// An error number that came from the system is itself, and a named one is the number that the
/// system's headers give that name. No two names that are the same everywhere share a number.
pub proof fn named_error_has_its_number(errno: Errno, number: i32)
    requires
        call_ensures(Errno::raw_os_error, (errno,), number),
    ensures
        errno matches Errno::Raw(raw) ==> number == raw,
        errno == Errno::Perm ==> number == 1,
        errno == Errno::NoEnt ==> number == 2,
        errno == Errno::Io ==> number == 5,
        errno == Errno::WouldBlock ==> number == 11,
        errno == Errno::Exist ==> number == 17,
        errno == Errno::Inval ==> number == 22,
        errno == Errno::Pipe ==> number == 32,
        errno == Errno::Deadlock ==> number == 35 || number == 56 || number == 58 || number == 108,
        errno == Errno::AddrInUse ==> number == 98 || number == 125 || number == 48,
        errno == Errno::AddrNotAvail ==> number == 99 || number == 126 || number == 49,
        errno == Errno::ConnAborted ==> number == 103 || number == 130 || number == 53,
        errno == Errno::ConnReset ==> number == 104 || number == 131 || number == 54,
        errno == Errno::NotConn ==> number == 107 || number == 134 || number == 57,
        errno == Errno::TimedOut ==> number == 110 || number == 145 || number == 60,
        errno == Errno::ConnRefused ==> number == 111 || number == 146 || number == 61,
{
}

/// Every action, lock type and origin has its own number, from which it is read back.
pub proof fn choice_is_read_back_from_its_number(
    codes: SystemCodes,
    action: LockAction,
    action_number: i32,
    action_read: Result<LockAction, Error>,
    lock_type: LockType,
    type_number: i16,
    type_read: Result<LockType, Error>,
    whence: LockWhence,
    whence_number: i16,
    whence_read: Result<LockWhence, Error>,
)
    requires
        codes.well_formed(),
        call_ensures(LockAction::code, (action, &codes), action_number),
        call_ensures(LockAction::from_code, (&codes, action_number), action_read),
        call_ensures(LockType::code, (lock_type, &codes), type_number),
        call_ensures(LockType::from_code, (&codes, type_number as i32), type_read),
        call_ensures(LockWhence::code, (whence, &codes), whence_number),
        call_ensures(LockWhence::from_code, (&codes, whence_number as i32), whence_read),
    ensures
        action_read == Ok::<LockAction, Error>(action),
        type_read == Ok::<LockType, Error>(lock_type),
        whence_read == Ok::<LockWhence, Error>(whence),
        action == LockAction::SetLockNonBlocking ==> action_number == codes.set_lock,
        action == LockAction::SetLockBlocking ==> action_number == codes.set_lock_wait,
        action == LockAction::GetLockStatus ==> action_number == codes.get_lock,
        lock_type == LockType::Read ==> type_number == codes.read_lock,
        lock_type == LockType::Write ==> type_number == codes.write_lock,
        lock_type == LockType::Unlock ==> type_number == codes.unlock,
        whence == LockWhence::Start ==> whence_number == codes.seek_start,
        whence == LockWhence::Current ==> whence_number == codes.seek_current,
        whence == LockWhence::End ==> whence_number == codes.seek_end,
{
}

/// A number that the system gives to no action, lock type or origin is refused, and no other.
pub proof fn number_of_nothing_is_refused(
    codes: SystemCodes,
    number: i32,
    action: Result<LockAction, Error>,
    lock_type: Result<LockType, Error>,
    whence: Result<LockWhence, Error>,
)
    requires
        call_ensures(LockAction::from_code, (&codes, number), action),
        call_ensures(LockType::from_code, (&codes, number), lock_type),
        call_ensures(LockWhence::from_code, (&codes, number), whence),
    ensures
        action is Err <==> number != codes.set_lock && number != codes.set_lock_wait && number
            != codes.get_lock,
        action matches Err(error) ==> error == Error::Own(Reason::InvalidLockCommand),
        lock_type is Err <==> number != codes.read_lock && number != codes.write_lock && number
            != codes.unlock,
        lock_type matches Err(error) ==> error == Error::Own(Reason::InvalidLockType),
        whence is Err <==> number != codes.seek_start && number != codes.seek_current && number
            != codes.seek_end,
        whence matches Err(error) ==> error == Error::Own(Reason::InvalidLockWhence),
{
    if number == codes.set_lock {
        assert(LockAction::SetLockNonBlocking.spec_code(codes) == number);
    }
}

/// A lock is described to the system as it is, and is read back from that description.
pub proof fn described_lock_is_read_back(
    codes: SystemCodes,
    params: LockParams,
    raw: RawLock,
    read: Result<LockParams, Error>,
)
    requires
        codes.well_formed(),
        call_ensures(LockParams::to_raw, (params, &codes), raw),
        call_ensures(LockParams::from_raw, (&codes, raw), read),
    ensures
        is_raw(codes, params, raw),
        read == Ok::<LockParams, Error>(params),
{
}

/// A description is refused if its type or its origin is unknown, and otherwise read as it is.
pub proof fn senseless_description_is_refused(
    codes: SystemCodes,
    raw: RawLock,
    read: Result<LockParams, Error>,
)
    requires
        codes.well_formed(),
        call_ensures(LockParams::from_raw, (&codes, raw), read),
    ensures
        raw.l_type != codes.read_lock && raw.l_type != codes.write_lock && raw.l_type
            != codes.unlock ==> read == Err::<LockParams, Error>(
            Error::Own(Reason::InvalidLockType),
        ),
        (raw.l_type == codes.read_lock || raw.l_type == codes.write_lock || raw.l_type
            == codes.unlock) && raw.l_whence != codes.seek_start && raw.l_whence
            != codes.seek_current && raw.l_whence != codes.seek_end ==> read == Err::<
            LockParams,
            Error,
        >(Error::Own(Reason::InvalidLockWhence)),
        (raw.l_type == codes.read_lock || raw.l_type == codes.write_lock || raw.l_type
            == codes.unlock) && (raw.l_whence == codes.seek_start || raw.l_whence
            == codes.seek_current || raw.l_whence == codes.seek_end) ==> (read matches Ok(params)
            && is_raw(codes, params, raw)),
{
}

/// The origins of positions have the same numbers on every system, and the lock types count up from
/// zero or one.
pub proof fn number_of_the_running_system(
    whence: LockWhence,
    whence_number: i32,
    whence_short: i16,
    lock_type: LockType,
    type_number: i32,
    type_short: i16,
    action: LockAction,
    action_number: i32,
    params: LockParams,
    raw: RawLock,
)
    requires
        call_ensures(<i32 as From<LockWhence>>::from, (whence,), whence_number),
        call_ensures(<i16 as From<LockWhence>>::from, (whence,), whence_short),
        call_ensures(<i32 as From<LockType>>::from, (lock_type,), type_number),
        call_ensures(<i16 as From<LockType>>::from, (lock_type,), type_short),
        call_ensures(<i32 as From<LockAction>>::from, (action,), action_number),
        call_ensures(<RawLock as From<LockParams>>::from, (params,), raw),
    ensures
        whence == LockWhence::Start ==> whence_number == 0 && whence_short == 0,
        whence == LockWhence::Current ==> whence_number == 1 && whence_short == 1,
        whence == LockWhence::End ==> whence_number == 2 && whence_short == 2,
        lock_type == LockType::Read ==> 0 <= type_number <= 1 && 0 <= type_short <= 1,
        lock_type == LockType::Write ==> 1 <= type_number <= 2 && 1 <= type_short <= 2,
        lock_type == LockType::Unlock ==> 2 <= type_number <= 3 && 2 <= type_short <= 3,
        action == LockAction::SetLockNonBlocking ==> action_number == 6 || action_number == 8
            || action_number == 13 || action_number == 34,
        action == LockAction::SetLockBlocking ==> action_number == 7 || action_number == 9
            || action_number == 14 || action_number == 35,
        action == LockAction::GetLockStatus ==> action_number == 5 || action_number == 7
            || action_number == 12 || action_number == 14 || action_number == 33,
        raw.l_start == params.start,
        raw.l_len == params.len,
        raw.l_pid == params.pid,
        params.whence == LockWhence::Start ==> raw.l_whence == 0,
        params.whence == LockWhence::Current ==> raw.l_whence == 1,
        params.whence == LockWhence::End ==> raw.l_whence == 2,
        params.lock_type == LockType::Read ==> 0 <= raw.l_type <= 1,
        params.lock_type == LockType::Write ==> 1 <= raw.l_type <= 2,
        params.lock_type == LockType::Unlock ==> 2 <= raw.l_type <= 3,
{
}

/// What no system numbers is refused, and the origins of positions are read alike on every system.
pub proof fn number_is_read_on_the_running_system(
    number: i32,
    whence: Result<LockWhence, Error>,
    lock_type: Result<LockType, Error>,
    action: Result<LockAction, Error>,
    raw: RawLock,
    params: Result<LockParams, Error>,
)
    requires
        call_ensures(<LockWhence as TryFrom<i32>>::try_from, (number,), whence),
        call_ensures(<LockType as TryFrom<i32>>::try_from, (number,), lock_type),
        call_ensures(<LockAction as TryFrom<i32>>::try_from, (number,), action),
        call_ensures(<LockParams as TryFrom<RawLock>>::try_from, (raw,), params),
    ensures
        number == 0 ==> whence == Ok::<LockWhence, Error>(LockWhence::Start),
        number == 1 ==> whence == Ok::<LockWhence, Error>(LockWhence::Current),
        number == 2 ==> whence == Ok::<LockWhence, Error>(LockWhence::End),
        number < 0 || number > 2 ==> whence == Err::<LockWhence, Error>(
            Error::Own(Reason::InvalidLockWhence),
        ),
        number == 1 || number == 2 ==> lock_type is Ok,
        number < 0 || number > 3 ==> lock_type == Err::<LockType, Error>(
            Error::Own(Reason::InvalidLockType),
        ),
        number < 5 || number > 35 ==> action == Err::<LockAction, Error>(
            Error::Own(Reason::InvalidLockCommand),
        ),
        raw.l_type < 0 || raw.l_type > 3 ==> params == Err::<LockParams, Error>(
            Error::Own(Reason::InvalidLockType),
        ),
        (raw.l_type == 1 || raw.l_type == 2) && (raw.l_whence < 0 || raw.l_whence > 2) ==> params
            == Err::<LockParams, Error>(Error::Own(Reason::InvalidLockWhence)),
        params matches Ok(params) ==> {
            &&& params.start == raw.l_start
            &&& params.len == raw.l_len
            &&& params.pid == raw.l_pid
            &&& raw.l_whence == 0 <==> params.whence == LockWhence::Start
            &&& raw.l_whence == 1 <==> params.whence == LockWhence::Current
            &&& raw.l_whence == 2 <==> params.whence == LockWhence::End
            &&& raw.l_type == 0 ==> params.lock_type == LockType::Read
            &&& raw.l_type == 3 ==> params.lock_type == LockType::Unlock
        },
        (raw.l_type == 1 || raw.l_type == 2) && 0 <= raw.l_whence <= 2 ==> params is Ok,
{
}

/// A span of time keeps its length when whole seconds are carried over, and is refused only where its
/// seconds become too many. It is empty only if both its parts are.
pub proof fn span_keeps_its_length(secs: u64, nanos: u32, span: Option<Ttl>, ttl: Ttl, zero: bool)
    requires
        call_ensures(Ttl::carry, (secs, nanos), span),
        call_ensures(Ttl::is_zero, (ttl,), zero),
    ensures
        secs + nanos / 1_000_000_000 <= u64::MAX ==> span == Some(
            Ttl {
                secs: (secs + nanos / 1_000_000_000) as u64,
                nanos: (nanos % 1_000_000_000) as u32,
            },
        ),
        secs + nanos / 1_000_000_000 > u64::MAX ==> span is None,
        zero <==> ttl.secs == 0 && ttl.nanos == 0,
{
}

/// What a system call returned is handed on, whatever it is, except minus one, which stands for the
/// failure.
pub proof fn minus_one_is_the_failure<T: Into<i64> + Copy>(
    returned: T,
    last_error: Error,
    outcome: Result<T, Error>,
)
    requires
        T::obeys_into_spec(),
        call_ensures(cvt::<T>, (returned, last_error), outcome),
    ensures
        returned.into_spec() == -1 ==> outcome == Err::<T, Error>(last_error),
        returned.into_spec() != -1 ==> outcome == Ok::<T, Error>(returned),
{
}

/// A process that would not notice a signal is refused: one that ignores it, and one that has set
/// nothing up for it.
pub proof fn signal_needs_a_handler(
    codes: SystemCodes,
    handler: Result<usize, Error>,
    outcome: Result<(), Error>,
)
    requires
        call_ensures(ensure_sigaction_exists, (&codes, handler), outcome),
    ensures
        handler == Ok::<usize, Error>(codes.default_handler) ==> outcome == Err::<(), Error>(
            Error::Own(Reason::NoSignalHandler),
        ),
        handler == Ok::<usize, Error>(codes.ignoring_handler) ==> outcome == Err::<(), Error>(
            Error::Own(Reason::NoSignalHandler),
        ),
        handler matches Ok(address) && address != codes.default_handler && address
            != codes.ignoring_handler ==> outcome == Ok::<(), Error>(()),
        handler matches Err(error) ==> outcome == Err::<(), Error>(error),
{
}

/// Each of the library's own failures says what went wrong, and bytes that cannot be read say why.
pub proof fn failure_says_what_went_wrong(
    reason: Reason,
    text: String,
    failure: DecodeFailure,
    cause: String,
)
    requires
        call_ensures(Reason::message, (reason,), text),
        call_ensures(DecodeFailure::message, (failure,), cause),
    ensures
        reason == Reason::NoSignalHandler ==> text@
            == "the process must be able to handle signals"@,
        reason == Reason::ExpectedOneOwnerFd ==> text@ == "expected 1 owner FD"@,
        reason == Reason::InvalidPayload ==> text@ == "invalid payload"@,
        reason == Reason::InvalidDescriptorCount ==> text@ == "invalid number of file descriptors"@,
        reason == Reason::ConnectionTerminated ==> text@ == "connection terminated"@,
        reason == Reason::ShortMessageReceived ==> text@ == "short message received"@,
        reason == Reason::LengthOutOfRange ==> text@
            == "out of range integral type conversion attempted"@,
        reason == Reason::UnexpectedAncillary ==> text@ == "unexpected ancillary message"@,
        reason == Reason::NotEnoughFiles ==> text@ == "not enough files sent"@,
        reason == Reason::ShortMessageSent ==> text@ == "short message sent"@,
        reason == Reason::RequestClosed ==> text@ == "send_request: connection is closed"@,
        reason == Reason::RequestWithFdsClosed ==> text@
            == "send_request_with_fds: connection is closed"@,
        reason == Reason::NoDescriptors ==> text@ == "no file descriptors received"@,
        reason == Reason::OwnerExited ==> text@ == "owner already exited"@,
        reason == Reason::FilesRegistered ==> text@ == "there are still registered files"@,
        reason == Reason::AlreadyStarted ==> text@ == "daemon owner already started"@,
        reason == Reason::ThreadJoin ==> text@ == "thread join error: Any { .. }"@,
        reason == Reason::UnknownInterrupt ==> text@ == "no interrupts found with specified ID"@,
        reason == Reason::UnknownDescriptor ==> text@ == "file descriptor not found"@,
        reason == Reason::GetLockPending ==> text@
            == "getlk should not return a pending operation"@,
        reason == Reason::SetLockPending ==> text@
            == "setlk should not return a pending operation"@,
        reason == Reason::SetLockWaitPendingTwice ==> text@
            == "setlkw should not return a pending operation twice"@,
        reason == Reason::BlockingLockClosed ==> text@
            == "set_lock_blocking: connection is closed"@,
        reason == Reason::ThreadPanicked ==> text@ == "thread panicked"@,
        reason == Reason::TrackerShutDown ==> text@
            == "cannot spawn any threads, the tracker is shutting down"@,
        reason == Reason::CheckingThreadHungUp ==> text@ == "checking thread hung up"@,
        reason == Reason::InvalidLockCommand ==> text@ == "Invalid lock command"@,
        reason == Reason::InvalidLockType ==> text@ == "Invalid lock type"@,
        reason == Reason::InvalidLockWhence ==> text@ == "Invalid lock whence"@,
        reason == Reason::Undecodable(failure) ==> text@ == cause@,
        failure == DecodeFailure::EndOfInput ==> cause@ == "io error: unexpected end of file"@,
        failure == DecodeFailure::Overflow ==> cause@ == "overflow deserializing Duration"@,
        failure matches DecodeFailure::UnknownVariant { found, count } ==> cause@
            == "invalid value: integer `"@ + decimal(found as int)
            + "`, expected variant index 0 <= i < "@ + decimal(count as int),
        failure matches DecodeFailure::UnknownOutcome { number } ==> cause@
            == "invalid value: integer `"@ + decimal(number as int)
            + "`, expected `Ok` or `Err`"@,
{
}

/// Whether all characters are decimal digits.
pub open spec fn all_digits(text: Seq<char>) -> bool {
    forall|i: int| 0 <= i < text.len() ==> '0' <= #[trigger] text[i] <= '9'
}

/// The number that decimal digits stand for.
pub open spec fn value_of(text: Seq<char>) -> int {
    text.fold_left(0int, |value: int, c: char| 10 * value + (c as int - '0' as int))
}

/// Whether a text is a number in decimal notation: digits without needless zeros, behind a minus
/// sign if the number is negative.
pub open spec fn denotes(text: Seq<char>, number: int) -> bool {
    if number < 0 {
        text.len() > 1 && text[0] == '-' && denotes_size(text.drop_first(), -number)
    } else {
        denotes_size(text, number)
    }
}

/// Whether a text is a number in decimal notation, without a sign.
pub open spec fn denotes_size(text: Seq<char>, number: int) -> bool {
    &&& text.len() > 0
    &&& all_digits(text)
    &&& text[0] == '0' ==> text.len() == 1
    &&& value_of(text) == number
}

/// The digits of a number stand for it.
proof fn digits_denote(value: nat)
    ensures
        denotes_size(digits(value), value as int),
        value > 0 ==> digits(value)[0] != '0',
    decreases value,
{
    let step = |value: int, c: char| 10 * value + (c as int - '0' as int);
    let text = digits(value);
    if value < 10 {
        assert(text =~= seq![digit(value)]);
        reveal_with_fuel(Seq::fold_left, 2);
        assert(text.drop_last() =~= Seq::<char>::empty());
        assert(value_of(text) == step(0, digit(value)));
    } else {
        digits_denote(value / 10);
        assert(text.drop_last() =~= digits(value / 10));
        assert(text.last() == digit(value % 10));
        assert(value_of(text) == step(value_of(digits(value / 10)), digit(value % 10)));
    }
}

/// A number in decimal notation stands for it.
proof fn decimal_denotes(number: int)
    ensures
        denotes(decimal(number), number),
{
    if number < 0 {
        digits_denote((-number) as nat);
        assert(decimal(number).drop_first() =~= digits((-number) as nat));
    } else {
        digits_denote(number as nat);
    }
}

/// The command line of a helper process tells it what it is, which socket is its own and, for an owner
/// process, how long it outlives its last use: all numbers are in decimal notation.
pub proof fn command_line_tells_all(
    fd: i32,
    ttl: Ttl,
    owner: Vec<String>,
    coordinator: Vec<String>,
)
    requires
        call_ensures(owner_arguments, (fd, ttl), owner),
        call_ensures(coordinator_arguments, (fd,), coordinator),
    ensures
        owner@.len() == 6,
        owner@[0]@ == "owner"@,
        denotes(owner@[1]@, fd as int),
        owner@[2]@ == "--ttl-secs"@,
        denotes(owner@[3]@, ttl.secs as int),
        owner@[4]@ == "--ttl-nsecs"@,
        denotes(owner@[5]@, ttl.nanos as int),
        coordinator@.len() == 2,
        coordinator@[0]@ == "coordinator"@,
        denotes(coordinator@[1]@, fd as int),
{
    decimal_denotes(fd as int);
    decimal_denotes(ttl.secs as int);
    decimal_denotes(ttl.nanos as int);
}

} // verus!
