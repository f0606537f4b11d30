//! The parameters of file locks, and the numbers that the system gives them.

use crate::error::{Error, Reason};
use vstd::prelude::*;

verus! {

/// What to do with a lock.
#[derive(Debug, Clone, Copy, PartialEq, Eq, Structural)]
pub enum LockAction {
    /// Set the lock, or fail where another process holds a conflicting one.
    SetLockNonBlocking,
    /// Set the lock, waiting as long as another process holds a conflicting one.
    SetLockBlocking,
    /// Ask for a conflicting lock.
    GetLockStatus,
}

/// The kind of a lock.
#[derive(Debug, Clone, Copy, PartialEq, Eq, Structural)]
pub enum LockType {
    Read,
    Write,
    Unlock,
}

/// The point from which the start of a lock's range is counted.
#[derive(Debug, Clone, Copy, PartialEq, Eq, Structural)]
pub enum LockWhence {
    Start,
    Current,
    End,
}

/// A lock on a range of a file.
#[derive(Debug, Clone, Copy, PartialEq, Eq, Structural)]
pub struct LockParams {
    pub lock_type: LockType,
    pub whence: LockWhence,
    pub start: i64,
    pub len: i64,
    pub pid: i32,
}

/// A span of time.
#[derive(Debug, Clone, Copy, PartialEq, Eq, Structural)]
pub struct Ttl {
    pub secs: u64,
    pub nanos: u32,
}

impl Ttl {
    /// Whether the nanoseconds make up less than a second.
    pub open spec fn well_formed(self) -> bool {
        self.nanos < 1_000_000_000
    }

    /// The number of nanoseconds in a span of time.
    pub open spec fn total_nanos(self) -> int {
        self.secs * 1_000_000_000 + self.nanos
    }

    /// The span of some seconds and nanoseconds. Whole seconds among the nanoseconds are carried
    /// over; there is no such span where the seconds then become too many.
    pub fn carry(secs: u64, nanos: u32) -> (span: Option<Ttl>)
        ensures
            match span {
                Some(span) => {
                    &&& span.well_formed()
                    &&& span.total_nanos() == secs * 1_000_000_000 + nanos
                },
                None => secs * 1_000_000_000 + nanos >= 0x1_0000_0000_0000_0000 * 1_000_000_000,
            },
    {
        let carried = (nanos / 1_000_000_000) as u64;
        match secs.checked_add(carried) {
            Some(secs) => Some(Ttl { secs, nanos: nanos % 1_000_000_000 }),
            None => None,
        }
    }

    /// Whether the span is empty.
    pub fn is_zero(self) -> (zero: bool)
        ensures
            zero == (self.total_nanos() == 0),
    {
        self.secs == 0 && self.nanos == 0
    }
}

/// A lock as the system describes it: the fields of its `struct flock`, where file offsets have 64
/// bits.
#[derive(Debug, Clone, Copy, PartialEq, Eq, Structural)]
pub struct RawLock {
    pub l_type: i16,
    pub l_whence: i16,
    pub l_start: i64,
    pub l_len: i64,
    pub l_pid: i32,
}

/// The numbers that the system gives to lock commands, lock types and range anchors, to a lock that
/// is held elsewhere, and to the two handlers of a signal that are no function.
#[derive(Debug, Clone, Copy, PartialEq, Eq, Structural)]
pub struct SystemCodes {
    pub set_lock: i32,
    pub set_lock_wait: i32,
    pub get_lock: i32,
    pub read_lock: i32,
    pub write_lock: i32,
    pub unlock: i32,
    pub seek_start: i32,
    pub seek_current: i32,
    pub seek_end: i32,
    pub would_block: i32,
    pub default_handler: usize,
    pub ignoring_handler: usize,
}

impl SystemCodes {
    /// What holds of the numbers on every Linux system: the commands have one of a few numbers, the
    /// two that set a lock follow one another, the third differs from both, and the lock types count
    /// up from zero or one.
    pub open spec fn well_formed(self) -> bool {
        &&& self.set_lock == 6 || self.set_lock == 8 || self.set_lock == 13 || self.set_lock == 34
        &&& self.set_lock_wait == self.set_lock + 1
        &&& self.get_lock == 5 || self.get_lock == 7 || self.get_lock == 12 || self.get_lock == 14
            || self.get_lock == 33
        &&& self.get_lock != self.set_lock
        &&& self.get_lock != self.set_lock_wait
        &&& 0 <= self.read_lock <= 1
        &&& self.write_lock == self.read_lock + 1
        &&& self.unlock == self.read_lock + 2
        &&& self.seek_start == 0
        &&& self.seek_current == 1
        &&& self.seek_end == 2
        &&& self.would_block == 11
        &&& self.default_handler == 0
        &&& self.ignoring_handler == 1
    }

    /// The numbers of the running system.
    pub fn native() -> (codes: SystemCodes)
        ensures
            codes.well_formed(),
    {
        system_codes()
    }
}

/// The constants `F_SETLK`, `F_SETLKW`, `F_GETLK`, `F_RDLCK`, `F_WRLCK`, `F_UNLCK`, `SEEK_SET`,
/// `SEEK_CUR`, `SEEK_END`, `EAGAIN`, `SIG_DFL` and `SIG_IGN` of `libc`.
///
/// The last six are the same on all Linux targets of that crate. The others depend on the target. On
/// each of them `F_SETLK` is 6, 8, 13 or 34, `F_SETLKW` is one more, `F_GETLK` is 5, 7, 12, 14 or 33
/// and neither of them, and `F_RDLCK`, `F_WRLCK` and `F_UNLCK` are consecutive, starting with 0 or 1.
#[verifier::external_body]
fn system_codes() -> (codes: SystemCodes)
    ensures
        codes.well_formed(),
{
    SystemCodes {
        set_lock: libc::F_SETLK,
        set_lock_wait: libc::F_SETLKW,
        get_lock: libc::F_GETLK,
        read_lock: libc::F_RDLCK,
        write_lock: libc::F_WRLCK,
        unlock: libc::F_UNLCK,
        seek_start: libc::SEEK_SET,
        seek_current: libc::SEEK_CUR,
        seek_end: libc::SEEK_END,
        would_block: libc::EAGAIN,
        default_handler: libc::SIG_DFL,
        ignoring_handler: libc::SIG_IGN,
    }
}

impl LockAction {
    /// The number of a lock command.
    pub open spec fn spec_code(self, codes: SystemCodes) -> i32 {
        match self {
            LockAction::SetLockNonBlocking => codes.set_lock,
            LockAction::SetLockBlocking => codes.set_lock_wait,
            LockAction::GetLockStatus => codes.get_lock,
        }
    }

    /// Whether `read` is what `value` means as the number of a lock command.
    pub open spec fn means(codes: SystemCodes, value: i32, read: Result<LockAction, Error>) -> bool {
        match read {
            Ok(action) => action.spec_code(codes) == value,
            Err(error) => {
                &&& error == Error::Own(Reason::InvalidLockCommand)
                &&& value != codes.set_lock
                &&& value != codes.set_lock_wait
                &&& value != codes.get_lock
            },
        }
    }

    /// The number of the lock command.
    pub fn code(self, codes: &SystemCodes) -> (value: i32)
        ensures
            value == self.spec_code(*codes),
    {
        match self {
            LockAction::SetLockNonBlocking => codes.set_lock,
            LockAction::SetLockBlocking => codes.set_lock_wait,
            LockAction::GetLockStatus => codes.get_lock,
        }
    }

    /// The lock command with a number.
    pub fn from_code(codes: &SystemCodes, value: i32) -> (read: Result<LockAction, Error>)
        ensures
            LockAction::means(*codes, value, read),
    {
        if value == codes.set_lock {
            Ok(LockAction::SetLockNonBlocking)
        } else if value == codes.set_lock_wait {
            Ok(LockAction::SetLockBlocking)
        } else if value == codes.get_lock {
            Ok(LockAction::GetLockStatus)
        } else {
            Err(Error::Own(Reason::InvalidLockCommand))
        }
    }
}

impl LockType {
    /// The number of a lock type.
    pub open spec fn spec_code(self, codes: SystemCodes) -> i32 {
        match self {
            LockType::Read => codes.read_lock,
            LockType::Write => codes.write_lock,
            LockType::Unlock => codes.unlock,
        }
    }

    /// Whether `read` is what `value` means as the number of a lock type.
    pub open spec fn means(codes: SystemCodes, value: i32, read: Result<LockType, Error>) -> bool {
        match read {
            Ok(lock_type) => lock_type.spec_code(codes) == value,
            Err(error) => {
                &&& error == Error::Own(Reason::InvalidLockType)
                &&& value != codes.read_lock
                &&& value != codes.write_lock
                &&& value != codes.unlock
            },
        }
    }

    /// The number of the lock type.
    pub fn code(self, codes: &SystemCodes) -> (value: i16)
        requires
            codes.well_formed(),
        ensures
            value == self.spec_code(*codes),
    {
        match self {
            LockType::Read => codes.read_lock as i16,
            LockType::Write => codes.write_lock as i16,
            LockType::Unlock => codes.unlock as i16,
        }
    }

    /// The lock type with a number.
    pub fn from_code(codes: &SystemCodes, value: i32) -> (read: Result<LockType, Error>)
        ensures
            LockType::means(*codes, value, read),
    {
        if value == codes.read_lock {
            Ok(LockType::Read)
        } else if value == codes.write_lock {
            Ok(LockType::Write)
        } else if value == codes.unlock {
            Ok(LockType::Unlock)
        } else {
            Err(Error::Own(Reason::InvalidLockType))
        }
    }
}

impl LockWhence {
    /// The number of a range anchor.
    pub open spec fn spec_code(self, codes: SystemCodes) -> i32 {
        match self {
            LockWhence::Start => codes.seek_start,
            LockWhence::Current => codes.seek_current,
            LockWhence::End => codes.seek_end,
        }
    }

    /// Whether `read` is what `value` means as the number of a range anchor.
    pub open spec fn means(codes: SystemCodes, value: i32, read: Result<LockWhence, Error>) -> bool {
        match read {
            Ok(whence) => whence.spec_code(codes) == value,
            Err(error) => {
                &&& error == Error::Own(Reason::InvalidLockWhence)
                &&& value != codes.seek_start
                &&& value != codes.seek_current
                &&& value != codes.seek_end
            },
        }
    }

    /// The number of the range anchor.
    pub fn code(self, codes: &SystemCodes) -> (value: i16)
        requires
            codes.well_formed(),
        ensures
            value == self.spec_code(*codes),
    {
        match self {
            LockWhence::Start => codes.seek_start as i16,
            LockWhence::Current => codes.seek_current as i16,
            LockWhence::End => codes.seek_end as i16,
        }
    }

    /// The range anchor with a number.
    pub fn from_code(codes: &SystemCodes, value: i32) -> (read: Result<LockWhence, Error>)
        ensures
            LockWhence::means(*codes, value, read),
    {
        if value == codes.seek_start {
            Ok(LockWhence::Start)
        } else if value == codes.seek_current {
            Ok(LockWhence::Current)
        } else if value == codes.seek_end {
            Ok(LockWhence::End)
        } else {
            Err(Error::Own(Reason::InvalidLockWhence))
        }
    }
}

impl LockParams {
    /// Whether `raw` describes this lock to the system.
    pub open spec fn described(self, codes: SystemCodes, raw: RawLock) -> bool {
        &&& raw.l_type == self.lock_type.spec_code(codes)
        &&& raw.l_whence == self.whence.spec_code(codes)
        &&& raw.l_start == self.start
        &&& raw.l_len == self.len
        &&& raw.l_pid == self.pid
    }

    /// Whether `read` is the lock that `raw` describes. An unknown lock type is reported before an
    /// unknown anchor.
    pub open spec fn means(codes: SystemCodes, raw: RawLock, read: Result<LockParams, Error>) -> bool {
        match read {
            Ok(params) => params.described(codes, raw),
            Err(error) => {
                ||| LockType::means(codes, raw.l_type as i32, Err(error))
                ||| {
                    &&& LockWhence::means(codes, raw.l_whence as i32, Err(error))
                    &&& !LockType::means(codes, raw.l_type as i32, Err(
                        Error::Own(Reason::InvalidLockType),
                    ))
                }
            },
        }
    }

    /// The system's description of the lock.
    pub fn to_raw(self, codes: &SystemCodes) -> (raw: RawLock)
        requires
            codes.well_formed(),
        ensures
            self.described(*codes, raw),
    {
        RawLock {
            l_type: self.lock_type.code(codes),
            l_whence: self.whence.code(codes),
            l_start: self.start,
            l_len: self.len,
            l_pid: self.pid,
        }
    }

    /// The lock that the system describes.
    pub fn from_raw(codes: &SystemCodes, raw: RawLock) -> (read: Result<LockParams, Error>)
        ensures
            LockParams::means(*codes, raw, read),
    {
        let lock_type = match LockType::from_code(codes, raw.l_type as i32) {
            Ok(lock_type) => lock_type,
            Err(error) => return Err(error),
        };
        assert(lock_type.spec_code(*codes) == raw.l_type);
        let whence = match LockWhence::from_code(codes, raw.l_whence as i32) {
            Ok(whence) => whence,
            Err(error) => return Err(error),
        };
        Ok(
            LockParams {
                lock_type,
                whence,
                start: raw.l_start,
                len: raw.l_len,
                pid: raw.l_pid,
            },
        )
    }
}

/// A lock command is read back from its number.
pub proof fn action_number_is_read_back(
    codes: SystemCodes,
    action: LockAction,
    read: Result<LockAction, Error>,
)
    requires
        codes.well_formed(),
        LockAction::means(codes, action.spec_code(codes), read),
    ensures
        read == Ok::<LockAction, Error>(action),
{
}

/// A lock type is read back from its number.
pub proof fn type_number_is_read_back(
    codes: SystemCodes,
    lock_type: LockType,
    read: Result<LockType, Error>,
)
    requires
        codes.well_formed(),
        LockType::means(codes, lock_type.spec_code(codes), read),
    ensures
        read == Ok::<LockType, Error>(lock_type),
{
}

/// A range anchor is read back from its number.
pub proof fn whence_number_is_read_back(
    codes: SystemCodes,
    whence: LockWhence,
    read: Result<LockWhence, Error>,
)
    requires
        codes.well_formed(),
        LockWhence::means(codes, whence.spec_code(codes), read),
    ensures
        read == Ok::<LockWhence, Error>(whence),
{
}

/// A lock is read back from the system's description of it.
pub proof fn lock_is_read_back(
    codes: SystemCodes,
    params: LockParams,
    raw: RawLock,
    read: Result<LockParams, Error>,
)
    requires
        codes.well_formed(),
        params.described(codes, raw),
        LockParams::means(codes, raw, read),
    ensures
        read == Ok::<LockParams, Error>(params),
{
    assert(params.lock_type.spec_code(codes) == raw.l_type);
    assert(params.whence.spec_code(codes) == raw.l_whence);
}

impl TryFrom<i32> for LockAction {
    type Error = Error;

    /// The lock command with a number of the running system.
    fn try_from(value: i32) -> (read: Result<LockAction, Error>)
        ensures
            exists|codes: SystemCodes|
                codes.well_formed() && #[trigger] LockAction::means(codes, value, read),
    {
        let codes = SystemCodes::native();
        let read = LockAction::from_code(&codes, value);
        assert(LockAction::means(codes, value, read));
        read
    }
}

impl vstd::std_specs::convert::TryFromSpecImpl<i32> for LockAction {
    open spec fn obeys_try_from_spec() -> bool {
        false
    }

    open spec fn try_from_spec(value: i32) -> Result<LockAction, Error> {
        arbitrary()
    }
}

impl TryFrom<i32> for LockType {
    type Error = Error;

    /// The lock type with a number of the running system.
    fn try_from(value: i32) -> (read: Result<LockType, Error>)
        ensures
            exists|codes: SystemCodes|
                codes.well_formed() && #[trigger] LockType::means(codes, value, read),
    {
        let codes = SystemCodes::native();
        let read = LockType::from_code(&codes, value);
        assert(LockType::means(codes, value, read));
        read
    }
}

impl vstd::std_specs::convert::TryFromSpecImpl<i32> for LockType {
    open spec fn obeys_try_from_spec() -> bool {
        false
    }

    open spec fn try_from_spec(value: i32) -> Result<LockType, Error> {
        arbitrary()
    }
}

impl TryFrom<i32> for LockWhence {
    type Error = Error;

    /// The range anchor with a number of the running system.
    fn try_from(value: i32) -> (read: Result<LockWhence, Error>)
        ensures
            exists|codes: SystemCodes|
                codes.well_formed() && #[trigger] LockWhence::means(codes, value, read),
    {
        let codes = SystemCodes::native();
        let read = LockWhence::from_code(&codes, value);
        assert(LockWhence::means(codes, value, read));
        read
    }
}

impl vstd::std_specs::convert::TryFromSpecImpl<i32> for LockWhence {
    open spec fn obeys_try_from_spec() -> bool {
        false
    }

    open spec fn try_from_spec(value: i32) -> Result<LockWhence, Error> {
        arbitrary()
    }
}

impl From<LockAction> for i32 {
    /// The number of a lock command on the running system.
    fn from(value: LockAction) -> (number: i32)
        ensures
            exists|codes: SystemCodes|
                codes.well_formed() && number == #[trigger] value.spec_code(codes),
    {
        let codes = SystemCodes::native();
        let number: i32 = value.code(&codes);
        assert(number == value.spec_code(codes));
        number
    }
}

impl vstd::std_specs::convert::FromSpecImpl<LockAction> for i32 {
    open spec fn obeys_from_spec() -> bool {
        false
    }

    open spec fn from_spec(value: LockAction) -> i32 {
        arbitrary()
    }
}

impl From<LockType> for i16 {
    /// The number of a lock type on the running system.
    fn from(value: LockType) -> (number: i16)
        ensures
            exists|codes: SystemCodes|
                codes.well_formed() && number == #[trigger] value.spec_code(codes),
    {
        let codes = SystemCodes::native();
        let number: i16 = value.code(&codes);
        assert(number == value.spec_code(codes));
        number
    }
}

impl vstd::std_specs::convert::FromSpecImpl<LockType> for i16 {
    open spec fn obeys_from_spec() -> bool {
        false
    }

    open spec fn from_spec(value: LockType) -> i16 {
        arbitrary()
    }
}

impl From<LockType> for i32 {
    /// The number of a lock type on the running system.
    fn from(value: LockType) -> (number: i32)
        ensures
            exists|codes: SystemCodes|
                codes.well_formed() && number == #[trigger] value.spec_code(codes),
    {
        let codes = SystemCodes::native();
        let number: i32 = value.code(&codes) as i32;
        assert(number == value.spec_code(codes));
        number
    }
}

impl vstd::std_specs::convert::FromSpecImpl<LockType> for i32 {
    open spec fn obeys_from_spec() -> bool {
        false
    }

    open spec fn from_spec(value: LockType) -> i32 {
        arbitrary()
    }
}

impl From<LockWhence> for i16 {
    /// The number of a range anchor on the running system.
    fn from(value: LockWhence) -> (number: i16)
        ensures
            exists|codes: SystemCodes|
                codes.well_formed() && number == #[trigger] value.spec_code(codes),
    {
        let codes = SystemCodes::native();
        let number: i16 = value.code(&codes);
        assert(number == value.spec_code(codes));
        number
    }
}

impl vstd::std_specs::convert::FromSpecImpl<LockWhence> for i16 {
    open spec fn obeys_from_spec() -> bool {
        false
    }

    open spec fn from_spec(value: LockWhence) -> i16 {
        arbitrary()
    }
}

impl From<LockWhence> for i32 {
    /// The number of a range anchor on the running system.
    fn from(value: LockWhence) -> (number: i32)
        ensures
            exists|codes: SystemCodes|
                codes.well_formed() && number == #[trigger] value.spec_code(codes),
    {
        let codes = SystemCodes::native();
        let number: i32 = value.code(&codes) as i32;
        assert(number == value.spec_code(codes));
        number
    }
}

impl vstd::std_specs::convert::FromSpecImpl<LockWhence> for i32 {
    open spec fn obeys_from_spec() -> bool {
        false
    }

    open spec fn from_spec(value: LockWhence) -> i32 {
        arbitrary()
    }
}

impl TryFrom<RawLock> for LockParams {
    type Error = Error;

    /// The lock that the running system describes.
    fn try_from(value: RawLock) -> (read: Result<LockParams, Error>)
        ensures
            exists|codes: SystemCodes|
                codes.well_formed() && #[trigger] LockParams::means(codes, value, read),
    {
        let codes = SystemCodes::native();
        let read = LockParams::from_raw(&codes, value);
        assert(LockParams::means(codes, value, read));
        read
    }
}

impl vstd::std_specs::convert::TryFromSpecImpl<RawLock> for LockParams {
    open spec fn obeys_try_from_spec() -> bool {
        false
    }

    open spec fn try_from_spec(value: RawLock) -> Result<LockParams, Error> {
        arbitrary()
    }
}

impl From<LockParams> for RawLock {
    /// The running system's description of a lock.
    fn from(value: LockParams) -> (raw: RawLock)
        ensures
            exists|codes: SystemCodes|
                codes.well_formed() && #[trigger] value.described(codes, raw),
    {
        let codes = SystemCodes::native();
        let raw = value.to_raw(&codes);
        assert(value.described(codes, raw));
        raw
    }
}

impl vstd::std_specs::convert::FromSpecImpl<LockParams> for RawLock {
    open spec fn obeys_from_spec() -> bool {
        false
    }

    open spec fn from_spec(value: LockParams) -> RawLock {
        arbitrary()
    }
}

} // verus!
