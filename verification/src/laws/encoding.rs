//! Laws of the bytes in which values travel: which they are, how they are read back, and which bytes
//! are refused.

use crate::error::{DecodeFailure, Errno, Error, Reason};
use crate::messages::{
    next_reply, reply, reply_with_fds, sent_as, Item, LockCommand, Payload, Ping, RawMessage,
    Register, ReplyLockCommandData, Replyable, RequestSpawnOwner,
};
use crate::types::{LockAction, LockParams, LockType, LockWhence, Ttl};
use crate::wire::{
    begins, deserialize, lock_fields, serialize, tag_begins, tag_of, tagged_layout,
    value_is_read_back, Tagged, Wire,
};
use vstd::bytes::{
    lemma_auto_spec_u32_to_from_le_bytes, lemma_auto_spec_u64_to_from_le_bytes,
    spec_u32_to_le_bytes, spec_u64_to_le_bytes,
};
use vstd::prelude::*;

verus! {

/// A value is read back from its bytes, whatever follows them.
pub proof fn value_read_is_value_written<T: Wire>(
    value: T,
    bytes: Vec<u8>,
    trailing: Seq<u8>,
    found: &[u8],
    read: Result<T, DecodeFailure>,
)
    requires
        call_ensures(serialize::<T>, (&value,), bytes),
        found@ == bytes@ + trailing,
        call_ensures(deserialize::<T>, (found,), read),
    ensures
        read == Ok::<T, DecodeFailure>(value),
{
    value_is_read_back(value, trailing, read);
}

/// The four bytes of a number, the lowest first.
pub open spec fn word(number: u32) -> Seq<u8> {
    spec_u32_to_le_bytes(number)
}

/// The eight bytes of a number, the lowest first.
pub open spec fn long(number: u64) -> Seq<u8> {
    spec_u64_to_le_bytes(number)
}

/// Actions, lock types and origins of positions are numbers in four bytes.
pub proof fn choice_has_these_bytes(
    action: LockAction,
    lock_type: LockType,
    whence: LockWhence,
    action_bytes: Vec<u8>,
    type_bytes: Vec<u8>,
    whence_bytes: Vec<u8>,
)
    requires
        call_ensures(serialize::<LockAction>, (&action,), action_bytes),
        call_ensures(serialize::<LockType>, (&lock_type,), type_bytes),
        call_ensures(serialize::<LockWhence>, (&whence,), whence_bytes),
    ensures
        action == LockAction::SetLockNonBlocking ==> action_bytes@ == word(0),
        action == LockAction::SetLockBlocking ==> action_bytes@ == word(1),
        action == LockAction::GetLockStatus ==> action_bytes@ == word(2),
        lock_type == LockType::Read ==> type_bytes@ == word(0),
        lock_type == LockType::Write ==> type_bytes@ == word(1),
        lock_type == LockType::Unlock ==> type_bytes@ == word(2),
        whence == LockWhence::Start ==> whence_bytes@ == word(0),
        whence == LockWhence::Current ==> whence_bytes@ == word(1),
        whence == LockWhence::End ==> whence_bytes@ == word(2),
{
    assert(action_bytes@ =~= word(action.variant()));
    assert(type_bytes@ =~= word(lock_type.variant()));
    assert(whence_bytes@ =~= word(whence.variant()));
}

/// A lock is its type, its origin, its start and its length in eight bytes each, and its process in
/// four.
pub proof fn lock_has_these_bytes(
    params: LockParams,
    type_bytes: Vec<u8>,
    whence_bytes: Vec<u8>,
    bytes: Vec<u8>,
)
    requires
        call_ensures(serialize::<LockType>, (&params.lock_type,), type_bytes),
        call_ensures(serialize::<LockWhence>, (&params.whence,), whence_bytes),
        call_ensures(serialize::<LockParams>, (&params,), bytes),
    ensures
        bytes@ == type_bytes@ + whence_bytes@ + long(params.start as u64) + long(params.len as u64)
            + word(params.pid as u32),
{
    assert(bytes@ =~= type_bytes@ + whence_bytes@ + long(params.start as u64) + long(
        params.len as u64,
    ) + word(params.pid as u32));
}

/// A request to an owner process is the number of its kind in four bytes, followed by its fields, of
/// which an id takes eight bytes.
pub proof fn request_has_these_bytes(
    message: RawMessage,
    bytes: Vec<u8>,
    action_bytes: Vec<u8>,
    lock_bytes: Vec<u8>,
)
    requires
        call_ensures(serialize::<RawMessage>, (&message,), bytes),
        message matches RawMessage::LockCommand { id, action, params } ==> {
            &&& call_ensures(serialize::<LockAction>, (&action,), action_bytes)
            &&& call_ensures(serialize::<LockParams>, (&params,), lock_bytes)
        },
    ensures
        message matches RawMessage::Ping {} ==> bytes@ == word(0),
        message matches RawMessage::Interrupt { id } ==> bytes@ == word(1) + long(id),
        message matches RawMessage::RemoveInterrupt { id } ==> bytes@ == word(2) + long(id),
        message matches RawMessage::Register {} ==> bytes@ == word(3),
        message matches RawMessage::Unregister { id } ==> bytes@ == word(4) + long(id),
        message matches RawMessage::LockCommand { id, action, params } ==> bytes@ == word(5) + long(
            id,
        ) + action_bytes@ + lock_bytes@,
{
    match message {
        RawMessage::LockCommand { id, action, params } => {
            assert(bytes@ =~= word(5) + long(id) + action_bytes@ + lock_bytes@);
        },
        RawMessage::Ping {} => {
            assert(bytes@ =~= word(0));
        },
        RawMessage::Register {} => {
            assert(bytes@ =~= word(3));
        },
        _ => {},
    }
}

/// The answer to a lock command is the number of its kind in four bytes, followed by the id or the
/// lock.
pub proof fn lock_answer_has_these_bytes(
    data: ReplyLockCommandData,
    bytes: Vec<u8>,
    lock_bytes: Vec<u8>,
)
    requires
        call_ensures(serialize::<ReplyLockCommandData>, (&data,), bytes),
        data matches ReplyLockCommandData::Done(params) ==> call_ensures(
            serialize::<LockParams>,
            (&params,),
            lock_bytes,
        ),
    ensures
        data matches ReplyLockCommandData::Pending(id) ==> bytes@ == word(0) + long(id),
        data matches ReplyLockCommandData::Done(params) ==> bytes@ == word(1) + lock_bytes@,
{
}

/// A time to live is its seconds in eight bytes and its nanoseconds in four.
pub proof fn time_to_live_has_these_bytes(ttl: Ttl, bytes: Vec<u8>)
    requires
        call_ensures(<Ttl as Payload>::to_bytes, (&ttl,), bytes),
    ensures
        bytes@ == long(ttl.secs) + word(ttl.nanos),
{
}

/// A favourable answer is a zero in four bytes, followed by what it says. A refusal is a one in four
/// bytes, followed by its number in four bytes.
pub proof fn answer_has_these_bytes<R: Replyable>(
    message: Result<R::Type, Errno>,
    bytes: Vec<u8>,
    bytes_with_fds: Vec<u8>,
    said: Vec<u8>,
)
    requires
        call_ensures(reply::<R>, (message,), bytes),
        call_ensures(reply_with_fds::<R>, (message,), bytes_with_fds),
        message matches Ok(value) ==> call_ensures(serialize::<R::Type>, (&value,), said),
    ensures
        message is Ok ==> bytes@ == word(0) + said@ && bytes_with_fds@ == word(0) + said@,
        message matches Err(Errno::Raw(number)) ==> bytes@ == word(1) + word(number as u32)
            && bytes_with_fds@ == word(1) + word(number as u32),
        message matches Err(Errno::NoEnt) ==> bytes@ == word(1) + word(2),
        message matches Err(Errno::Pipe) ==> bytes@ == word(1) + word(32),
{
}

/// What begins with a number in four bytes, for a reader of tagged values.
proof fn number_begins(number: u32, rest: Seq<u8>)
    ensures
        (word(number) + rest).len() == 4 + rest.len(),
        tag_of(word(number) + rest) == number,
        (word(number) + rest).skip(4) == rest,
{
    lemma_auto_spec_u32_to_from_le_bytes();
    assert(word(number).len() == 4);
    assert((word(number) + rest).take(4) =~= word(number));
    assert((word(number) + rest).skip(4) =~= rest);
}

/// Bytes whose number stands for none of the choices are refused with that number, whatever follows
/// it.
pub proof fn unknown_number_is_refused(
    number: u32,
    rest: Seq<u8>,
    found: &[u8],
    message: Result<RawMessage, DecodeFailure>,
    data: Result<ReplyLockCommandData, DecodeFailure>,
    action: Result<LockAction, DecodeFailure>,
    lock_type: Result<LockType, DecodeFailure>,
    whence: Result<LockWhence, DecodeFailure>,
)
    requires
        found@ == word(number) + rest,
        call_ensures(deserialize::<RawMessage>, (found,), message),
        call_ensures(deserialize::<ReplyLockCommandData>, (found,), data),
        call_ensures(deserialize::<LockAction>, (found,), action),
        call_ensures(deserialize::<LockType>, (found,), lock_type),
        call_ensures(deserialize::<LockWhence>, (found,), whence),
    ensures
        number >= 6 ==> message == Err::<RawMessage, DecodeFailure>(
            DecodeFailure::UnknownVariant { found: number, count: 6 },
        ),
        number >= 2 ==> data == Err::<ReplyLockCommandData, DecodeFailure>(
            DecodeFailure::UnknownVariant { found: number, count: 2 },
        ),
        number >= 3 ==> action == Err::<LockAction, DecodeFailure>(
            DecodeFailure::UnknownVariant { found: number, count: 3 },
        ),
        number >= 3 ==> lock_type == Err::<LockType, DecodeFailure>(
            DecodeFailure::UnknownVariant { found: number, count: 3 },
        ),
        number >= 3 ==> whence == Err::<LockWhence, DecodeFailure>(
            DecodeFailure::UnknownVariant { found: number, count: 3 },
        ),
{
    number_begins(number, rest);
    if let Ok(value) = message {
        tag_begins(value, found@);
    }
    if let Ok(value) = data {
        tag_begins(value, found@);
    }
    if let Ok(value) = action {
        tag_begins(value, found@);
    }
    if let Ok(value) = lock_type {
        tag_begins(value, found@);
    }
    if let Ok(value) = whence {
        tag_begins(value, found@);
    }
}

/// An answer whose number stands neither for success nor for failure is refused with that number,
/// whatever was asked.
pub proof fn unknown_outcome_is_refused<R: Replyable, F>(
    number: u32,
    rest: Seq<u8>,
    bytes: Vec<u8>,
    fds: Vec<F>,
    item: Item<R::Type, F>,
)
    requires
        number >= 2,
        bytes@ == word(number) + rest,
        call_ensures(next_reply::<R, F>, (Ok::<_, Error>((bytes, fds)),), item),
    ensures
        item == Some(
            Err::<Result<(R::Type, Vec<F>), i32>, Error>(
                Error::Own(Reason::Undecodable(DecodeFailure::UnknownOutcome { number })),
            ),
        ),
{
    number_begins(number, rest);
    let read = choose|read: Result<Result<R::Type, i32>, DecodeFailure>| #[trigger]
        begins(bytes@, read) && item == match read {
            Err(failure) => Some(Err(Error::Own(Reason::Undecodable(failure)))),
            Ok(Err(number)) => Some(Ok(Err(number))),
            Ok(Ok(value)) => Some(Ok(Ok((value, fds)))),
        };
    if let Ok(value) = read {
        tag_begins(value, bytes@);
    }
}

/// Whether the start of the layout of a value is always refused as too short.
spec fn refused_if_cut<T: Wire>() -> bool {
    forall|value: T, end: int|
        0 <= end < value.layout().len() ==> T::failing(#[trigger] value.layout().take(end))
            == DecodeFailure::EndOfInput
}

/// No value is found at the start of the layout of another.
proof fn start_is_no_value<T: Wire>(value: T, end: int, other: T)
    requires
        0 <= end < value.layout().len(),
    ensures
        !other.layout().is_prefix_of(value.layout().take(end)),
{
    let whole = value.layout();
    if other.layout().is_prefix_of(whole.take(end)) {
        assert(other.layout().is_prefix_of(whole));
        assert(whole =~= whole.subrange(0, whole.len() as int));
        T::layout_is_prefix_free(value, other, whole);
    }
}

/// The failure to read a pair is that of its second part, once there is a first.
proof fn second_is_to_blame<A: Wire, B: Wire>(first: A, rest: Seq<u8>)
    ensures
        <(A, B)>::failing(first.layout() + rest) == B::failing(rest),
{
    let bytes = first.layout() + rest;
    assert(first.layout() =~= bytes.subrange(0, first.layout().len() as int));
    assert(first.layout().is_prefix_of(bytes));
    let other = choose|other: A| (#[trigger] other.layout()).is_prefix_of(bytes);
    A::layout_is_prefix_free(first, other, bytes);
    assert(bytes.skip(first.layout().len() as int) =~= rest);
}

/// A pair is refused where it is cut, if its parts are.
proof fn pair_is_refused_if_cut<A: Wire, B: Wire>()
    requires
        refused_if_cut::<A>(),
        refused_if_cut::<B>(),
    ensures
        refused_if_cut::<(A, B)>(),
{
    assert forall|value: (A, B), end: int| 0 <= end < value.layout().len() implies <(
        A,
        B,
    )>::failing(#[trigger] value.layout().take(end)) == DecodeFailure::EndOfInput by {
        let first = value.0.layout();
        let bytes = value.layout().take(end);
        if end < first.len() {
            assert(bytes =~= first.take(end));
            assert forall|other: A| !(#[trigger] other.layout()).is_prefix_of(bytes) by {
                start_is_no_value(value.0, end, other);
            }
        } else {
            let rest = value.1.layout().take(end - first.len());
            assert(bytes =~= first + rest);
            second_is_to_blame::<A, B>(value.0, rest);
        }
    }
}

/// The layouts of numbers and choices are refused where they are cut.
proof fn numbers_are_refused_if_cut()
    ensures
        refused_if_cut::<u32>(),
        refused_if_cut::<u64>(),
        refused_if_cut::<i32>(),
        refused_if_cut::<i64>(),
        refused_if_cut::<()>(),
        refused_if_cut::<LockAction>(),
        refused_if_cut::<LockType>(),
        refused_if_cut::<LockWhence>(),
{
    lemma_auto_spec_u32_to_from_le_bytes();
    assert forall|value: LockAction, end: int| 0 <= end < value.layout().len() implies
        LockAction::failing(#[trigger] value.layout().take(end)) == DecodeFailure::EndOfInput by {
        assert(word(value.variant()).len() == 4);
    }
    assert forall|value: LockType, end: int| 0 <= end < value.layout().len() implies
        LockType::failing(#[trigger] value.layout().take(end)) == DecodeFailure::EndOfInput by {
        assert(word(value.variant()).len() == 4);
    }
    assert forall|value: LockWhence, end: int| 0 <= end < value.layout().len() implies
        LockWhence::failing(#[trigger] value.layout().take(end)) == DecodeFailure::EndOfInput by {
        assert(word(value.variant()).len() == 4);
    }
}

/// The layouts of locks and lock commands are refused where they are cut.
proof fn locks_are_refused_if_cut()
    ensures
        refused_if_cut::<LockParams>(),
        refused_if_cut::<(u64, (LockAction, LockParams))>(),
{
    numbers_are_refused_if_cut();
    pair_is_refused_if_cut::<i64, i32>();
    pair_is_refused_if_cut::<i64, (i64, i32)>();
    pair_is_refused_if_cut::<LockWhence, (i64, (i64, i32))>();
    pair_is_refused_if_cut::<LockType, (LockWhence, (i64, (i64, i32)))>();
    assert forall|value: LockParams, end: int| 0 <= end < value.layout().len() implies
        LockParams::failing(#[trigger] value.layout().take(end)) == DecodeFailure::EndOfInput by {
        assert(value.layout().take(end) == lock_fields(value).layout().take(end));
    }
    pair_is_refused_if_cut::<LockAction, LockParams>();
    pair_is_refused_if_cut::<u64, (LockAction, LockParams)>();
}

/// A request that is cut is refused as too short, wherever it is cut.
pub proof fn cut_request_is_refused(
    message: RawMessage,
    bytes: Vec<u8>,
    end: int,
    found: &[u8],
    read: Result<RawMessage, DecodeFailure>,
)
    requires
        call_ensures(serialize::<RawMessage>, (&message,), bytes),
        0 <= end < bytes@.len(),
        found@ == bytes@.take(end),
        call_ensures(deserialize::<RawMessage>, (found,), read),
    ensures
        read == Err::<RawMessage, DecodeFailure>(DecodeFailure::EndOfInput),
{
    lemma_auto_spec_u32_to_from_le_bytes();
    numbers_are_refused_if_cut();
    locks_are_refused_if_cut();
    if let Ok(other) = read {
        start_is_no_value(message, end, other);
    }
    let number = word(message.variant());
    assert(number.len() == 4);
    if end >= 4 {
        let rest = message.fields().take(end - 4);
        assert(found@ =~= number + rest);
        number_begins(message.variant(), rest);
        message.variant_is_counted();
        if let RawMessage::LockCommand { id, action, params } = message {
            assert(rest == (id, (action, params)).layout().take(end - 4));
        }
    }
}

/// An answer to a lock command that is cut is refused as too short, wherever it is cut.
pub proof fn cut_lock_answer_is_refused(
    data: ReplyLockCommandData,
    bytes: Vec<u8>,
    end: int,
    found: &[u8],
    read: Result<ReplyLockCommandData, DecodeFailure>,
)
    requires
        call_ensures(serialize::<ReplyLockCommandData>, (&data,), bytes),
        0 <= end < bytes@.len(),
        found@ == bytes@.take(end),
        call_ensures(deserialize::<ReplyLockCommandData>, (found,), read),
    ensures
        read == Err::<ReplyLockCommandData, DecodeFailure>(DecodeFailure::EndOfInput),
{
    if let Ok(other) = read {
        start_is_no_value(data, end, other);
    }
    lock_answer_is_refused_if_cut();
}

/// The layout of an answer to a lock command is refused where it is cut.
proof fn lock_answer_is_refused_if_cut()
    ensures
        refused_if_cut::<ReplyLockCommandData>(),
{
    lemma_auto_spec_u32_to_from_le_bytes();
    numbers_are_refused_if_cut();
    locks_are_refused_if_cut();
    assert forall|value: ReplyLockCommandData, end: int| 0 <= end < value.layout().len() implies
        ReplyLockCommandData::failing(#[trigger] value.layout().take(end))
        == DecodeFailure::EndOfInput by {
        let number = word(value.variant());
        assert(number.len() == 4);
        if end >= 4 {
            let rest = value.fields().take(end - 4);
            assert(value.layout().take(end) =~= number + rest);
            number_begins(value.variant(), rest);
        }
    }
}

/// The layout of an outcome is refused where it is cut, if that of its value is.
proof fn outcome_is_refused_if_cut<T: Wire>()
    requires
        refused_if_cut::<T>(),
    ensures
        refused_if_cut::<Result<T, i32>>(),
{
    lemma_auto_spec_u32_to_from_le_bytes();
    numbers_are_refused_if_cut();
    assert forall|value: Result<T, i32>, end: int| 0 <= end < value.layout().len() implies Result::<
        T,
        i32,
    >::failing(#[trigger] value.layout().take(end)) == DecodeFailure::EndOfInput by {
        let number = word(value.variant());
        assert(number.len() == 4);
        if end >= 4 {
            let rest = value.fields().take(end - 4);
            assert(value.layout().take(end) =~= number + rest);
            number_begins(value.variant(), rest);
        }
    }
}

/// An answer that is cut is refused as too short, wherever it is cut.
proof fn outcome_is_refused<R: Replyable, F>(
    message: Result<R::Type, Errno>,
    bytes: Vec<u8>,
    end: int,
    cut: Vec<u8>,
    fds: Vec<F>,
    item: Item<R::Type, F>,
)
    requires
        refused_if_cut::<R::Type>(),
        call_ensures(reply_with_fds::<R>, (message,), bytes),
        0 <= end < bytes@.len(),
        cut@ == bytes@.take(end),
        call_ensures(next_reply::<R, F>, (Ok::<_, Error>((cut, fds)),), item),
    ensures
        item == Some(
            Err::<Result<(R::Type, Vec<F>), i32>, Error>(
                Error::Own(Reason::Undecodable(DecodeFailure::EndOfInput)),
            ),
        ),
{
    outcome_is_refused_if_cut::<R::Type>();
    let sent = choose|sent: Result<R::Type, i32>| #[trigger]
        sent_as(message, sent) && bytes@ == sent.layout();
    let read = choose|read: Result<Result<R::Type, i32>, DecodeFailure>| #[trigger]
        begins(cut@, read) && item == match read {
            Err(failure) => Some(Err(Error::Own(Reason::Undecodable(failure)))),
            Ok(Err(number)) => Some(Ok(Err(number))),
            Ok(Ok(value)) => Some(Ok(Ok((value, fds)))),
        };
    if let Ok(value) = read {
        start_is_no_value(sent, end, value);
    }
}

/// An answer that is cut is refused as too short, wherever it is cut, whatever was asked.
pub proof fn cut_answer_is_refused<F>(
    ping: (Result<(), Errno>, Vec<u8>, Vec<u8>, Item<(), F>),
    spawn: (Result<(), Errno>, Vec<u8>, Vec<u8>, Item<(), F>),
    register: (Result<u64, Errno>, Vec<u8>, Vec<u8>, Item<u64, F>),
    command: (
        Result<ReplyLockCommandData, Errno>,
        Vec<u8>,
        Vec<u8>,
        Item<ReplyLockCommandData, F>,
    ),
    end: int,
    fds: Vec<F>,
)
    requires
        call_ensures(reply_with_fds::<Ping>, (ping.0,), ping.1),
        call_ensures(reply_with_fds::<RequestSpawnOwner>, (spawn.0,), spawn.1),
        call_ensures(reply_with_fds::<Register<F>>, (register.0,), register.1),
        call_ensures(reply_with_fds::<LockCommand>, (command.0,), command.1),
        0 <= end,
        ping.2@ == ping.1@.take(end),
        spawn.2@ == spawn.1@.take(end),
        register.2@ == register.1@.take(end),
        command.2@ == command.1@.take(end),
        call_ensures(next_reply::<Ping, F>, (Ok::<_, Error>((ping.2, fds)),), ping.3),
        call_ensures(next_reply::<RequestSpawnOwner, F>, (Ok::<_, Error>((spawn.2, fds)),), spawn.3),
        call_ensures(next_reply::<Register<F>, F>, (Ok::<_, Error>((register.2, fds)),), register.3),
        call_ensures(next_reply::<LockCommand, F>, (Ok::<_, Error>((command.2, fds)),), command.3),
    ensures
        end < ping.1@.len() ==> ping.3 == Some(
            Err::<Result<((), Vec<F>), i32>, Error>(
                Error::Own(Reason::Undecodable(DecodeFailure::EndOfInput)),
            ),
        ),
        end < spawn.1@.len() ==> spawn.3 == Some(
            Err::<Result<((), Vec<F>), i32>, Error>(
                Error::Own(Reason::Undecodable(DecodeFailure::EndOfInput)),
            ),
        ),
        end < register.1@.len() ==> register.3 == Some(
            Err::<Result<(u64, Vec<F>), i32>, Error>(
                Error::Own(Reason::Undecodable(DecodeFailure::EndOfInput)),
            ),
        ),
        end < command.1@.len() ==> command.3 == Some(
            Err::<Result<(ReplyLockCommandData, Vec<F>), i32>, Error>(
                Error::Own(Reason::Undecodable(DecodeFailure::EndOfInput)),
            ),
        ),
{
    numbers_are_refused_if_cut();
    lock_answer_is_refused_if_cut();
    if end < ping.1@.len() {
        outcome_is_refused::<Ping, F>(ping.0, ping.1, end, ping.2, fds, ping.3);
    }
    if end < spawn.1@.len() {
        outcome_is_refused::<RequestSpawnOwner, F>(spawn.0, spawn.1, end, spawn.2, fds, spawn.3);
    }
    if end < register.1@.len() {
        outcome_is_refused::<Register<F>, F>(
            register.0,
            register.1,
            end,
            register.2,
            fds,
            register.3,
        );
    }
    if end < command.1@.len() {
        outcome_is_refused::<LockCommand, F>(command.0, command.1, end, command.2, fds, command.3);
    }
}

/// No choice is found where its number is unknown.
proof fn no_choice_has_an_unknown_number<T: Tagged>(number: u32, rest: Seq<u8>, value: T)
    requires
        number >= T::count(),
    ensures
        !tagged_layout(value).is_prefix_of(word(number) + rest),
{
    number_begins(number, rest);
    if tagged_layout(value).is_prefix_of(word(number) + rest) {
        tag_begins(value, word(number) + rest);
    }
}

/// A lock whose type is unknown is refused with the number of the type, and else one whose origin is
/// unknown with the number of the origin.
pub proof fn lock_with_an_unknown_number_is_refused(
    lock_type: LockType,
    type_bytes: Vec<u8>,
    number: u32,
    rest: Seq<u8>,
    of_type: &[u8],
    by_type: Result<LockParams, DecodeFailure>,
    of_whence: &[u8],
    by_whence: Result<LockParams, DecodeFailure>,
)
    requires
        number >= 3,
        call_ensures(serialize::<LockType>, (&lock_type,), type_bytes),
        of_type@ == word(number) + rest,
        call_ensures(deserialize::<LockParams>, (of_type,), by_type),
        of_whence@ == type_bytes@ + (word(number) + rest),
        call_ensures(deserialize::<LockParams>, (of_whence,), by_whence),
    ensures
        by_type == Err::<LockParams, DecodeFailure>(
            DecodeFailure::UnknownVariant { found: number, count: 3 },
        ),
        by_whence == Err::<LockParams, DecodeFailure>(
            DecodeFailure::UnknownVariant { found: number, count: 3 },
        ),
{
    number_begins(number, rest);
    let bytes = word(number) + rest;
    assert forall|other: LockType| !(#[trigger] other.layout()).is_prefix_of(bytes) by {
        no_choice_has_an_unknown_number(number, rest, other);
    }
    assert forall|other: LockWhence| !(#[trigger] other.layout()).is_prefix_of(bytes) by {
        no_choice_has_an_unknown_number(number, rest, other);
    }
    if let Ok(params) = by_type {
        first_begins(lock_fields(params), bytes);
    }
    second_is_to_blame::<LockType, (LockWhence, (i64, (i64, i32)))>(lock_type, bytes);
    if let Ok(params) = by_whence {
        second_begins(lock_fields(params), lock_type, bytes);
        first_begins(lock_fields(params).1, bytes);
    }
}

/// A pair at the start of some bytes begins with its first part.
proof fn first_begins<A: Wire, B: Wire>(pair: (A, B), bytes: Seq<u8>)
    requires
        pair.layout().is_prefix_of(bytes),
    ensures
        pair.0.layout().is_prefix_of(bytes),
{
    let size = pair.0.layout().len() as int;
    assert(pair.0.layout() =~= pair.layout().subrange(0, size));
    assert(pair.0.layout() =~= bytes.subrange(0, size));
}

/// The second part of a pair is found behind what is known to be the first.
proof fn second_begins<A: Wire, B: Wire>(pair: (A, B), first: A, rest: Seq<u8>)
    requires
        pair.layout().is_prefix_of(first.layout() + rest),
    ensures
        pair.0 == first,
        pair.1.layout().is_prefix_of(rest),
{
    let bytes = first.layout() + rest;
    first_begins(pair, bytes);
    assert(first.layout() =~= bytes.subrange(0, first.layout().len() as int));
    A::layout_is_prefix_free(pair.0, first, bytes);
    let size = first.layout().len() as int;
    let whole = pair.layout();
    assert(pair.1.layout() =~= whole.subrange(size, whole.len() as int));
    assert(pair.1.layout() =~= rest.subrange(0, pair.1.layout().len() as int));
}

/// A lock command whose action is unknown is refused with the number of the action.
pub proof fn command_with_an_unknown_action_is_refused(
    id: u64,
    number: u32,
    rest: Seq<u8>,
    found: &[u8],
    read: Result<RawMessage, DecodeFailure>,
)
    requires
        number >= 3,
        found@ == word(5) + (long(id) + (word(number) + rest)),
        call_ensures(deserialize::<RawMessage>, (found,), read),
    ensures
        read == Err::<RawMessage, DecodeFailure>(
            DecodeFailure::UnknownVariant { found: number, count: 3 },
        ),
{
    let unknown = word(number) + rest;
    number_begins(5, long(id) + unknown);
    number_begins(number, rest);
    assert forall|other: LockAction| !(#[trigger] other.layout()).is_prefix_of(unknown) by {
        no_choice_has_an_unknown_number(number, rest, other);
    }
    second_is_to_blame::<u64, (LockAction, LockParams)>(id, unknown);
    if let Ok(message) = read {
        tag_begins(message, found@);
        if let RawMessage::LockCommand { id: other_id, action, params } = message {
            second_begins((other_id, (action, params)), id, unknown);
            first_begins((action, params), unknown);
        }
    }
}

/// What is wrong with the lock of a lock command is wrong with the command.
pub proof fn command_is_refused_as_its_lock(
    id: u64,
    action: LockAction,
    action_bytes: Vec<u8>,
    lock: &[u8],
    failure: DecodeFailure,
    found: &[u8],
    read: Result<RawMessage, DecodeFailure>,
)
    requires
        call_ensures(serialize::<LockAction>, (&action,), action_bytes),
        call_ensures(deserialize::<LockParams>, (lock,), Err::<LockParams, _>(failure)),
        found@ == word(5) + (long(id) + (action_bytes@ + lock@)),
        call_ensures(deserialize::<RawMessage>, (found,), read),
    ensures
        read == Err::<RawMessage, DecodeFailure>(failure),
{
    let rest = action.layout() + lock@;
    number_begins(5, long(id) + rest);
    second_is_to_blame::<u64, (LockAction, LockParams)>(id, rest);
    second_is_to_blame::<LockAction, LockParams>(action, lock@);
    if let Ok(message) = read {
        tag_begins(message, found@);
        if let RawMessage::LockCommand { id: other_id, action: other, params } = message {
            second_begins((other_id, (other, params)), id, rest);
            second_begins((other, params), action, lock@);
        }
    }
}

/// A time to live is read from seconds and nanoseconds, whatever follows them, and whole seconds
/// among the nanoseconds count as seconds. It is refused where the seconds then become too many, or
/// where there are too few bytes.
pub proof fn time_to_live_is_read(
    secs: u64,
    nanos: u32,
    trailing: Seq<u8>,
    found: &[u8],
    read: Result<Ttl, DecodeFailure>,
    short: &[u8],
    refused: Result<Ttl, DecodeFailure>,
)
    requires
        found@ == long(secs) + word(nanos) + trailing,
        call_ensures(<Ttl as Payload>::from_bytes, (found,), read),
        short@.len() < 12,
        call_ensures(<Ttl as Payload>::from_bytes, (short,), refused),
    ensures
        nanos < 1_000_000_000 ==> read == Ok::<Ttl, DecodeFailure>(Ttl { secs, nanos }),
        secs + nanos / 1_000_000_000 <= u64::MAX ==> read == Ok::<Ttl, DecodeFailure>(
            Ttl {
                secs: (secs + nanos / 1_000_000_000) as u64,
                nanos: (nanos % 1_000_000_000) as u32,
            },
        ),
        secs + nanos / 1_000_000_000 > u64::MAX ==> read == Err::<Ttl, DecodeFailure>(
            DecodeFailure::Overflow,
        ),
        refused == Err::<Ttl, DecodeFailure>(DecodeFailure::EndOfInput),
{
    lemma_auto_spec_u32_to_from_le_bytes();
    lemma_auto_spec_u64_to_from_le_bytes();
    let bytes = found@;
    let fields = (secs, nanos);
    assert(fields.layout().is_prefix_of(bytes)) by {
        assert(fields.layout() =~= bytes.subrange(0, fields.layout().len() as int));
    }
    assert forall|s: u64, n: u32| (#[trigger] (s, n).layout()).is_prefix_of(bytes) implies s == secs
        && n == nanos by {
        <(u64, u32)>::layout_is_prefix_free(fields, (s, n), bytes);
    }
    assert forall|s: u64, n: u32| !(#[trigger] (s, n).layout()).is_prefix_of(short@) by {
        assert(long(s).len() == 8);
        assert(word(n).len() == 4);
    }
}

} // verus!
