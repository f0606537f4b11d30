//! Laws of the messages between the processes: what is sent is what is received, and what is
//! refused.

use crate::error::{DecodeFailure, Errno, Error, ErrorKind, Reason};
use crate::frame::{
    check_sent, frame_header, frame_size_is_received, has_other, native_bytes,
    native_value_is_read_back, rights, AfterPeek, AfterRead, Ancillary, Peek, Read,
};
use crate::messages::{
    answer_is_received, discard_fds, next_reply, pack_request, receive_request, reply,
    reply_with_fds, request_is_received, sole_reply, Interrupt, Item, LockCommand, Message, Payload,
    Ping, RawMessage, Register, RemoveInterrupt, Replyable, RequestSpawnOwner, Serializable,
    Unregister,
};
use crate::types::Ttl;
use crate::wire::{begins, deserialize, serialize, Wire};
use vstd::bytes::spec_u64_to_le_bytes;
use vstd::endian::{endianness, Endian};
use vstd::prelude::*;

verus! {

/// The receiver of a request gets the request that was sent, with its reply channel.
pub proof fn request_received_is_request_sent<R: Serializable<F>, F>(
    request: R,
    oneshot: F,
    packed: (Vec<u8>, Vec<F>),
    received: Result<(R, F), Error>,
)
    requires
        request.payload().sendable(),
        call_ensures(pack_request::<R, F>, (request, oneshot), packed),
        call_ensures(receive_request::<R, F>, (Ok::<_, Error>(packed),), received),
    ensures
        received == Ok::<(R, F), Error>((request, oneshot)),
{
    request_is_received(request, oneshot, received);
}

/// What a message is sent as, an owner process receives.
proof fn message_is_received<F>(
    message: Message<F>,
    oneshot: F,
    packed: (Vec<u8>, Vec<F>),
    received: Result<(Message<F>, F), Error>,
)
    requires
        packed.0@ == message.payload().layout(),
        packed.1@ == seq![oneshot] + message.descriptors(),
        call_ensures(receive_request::<Message<F>, F>, (Ok::<_, Error>(packed),), received),
    ensures
        received == Ok::<(Message<F>, F), Error>((message, oneshot)),
{
    request_is_received(message, oneshot, received);
}

/// An owner process, which reads messages, gets each request as what it is. Its reply channel is the
/// first descriptor, and only a registration has another.
pub proof fn owner_receives_each_request<F>(
    ping: (Ping, (Vec<u8>, Vec<F>), Result<(Message<F>, F), Error>),
    interrupt: (Interrupt, (Vec<u8>, Vec<F>), Result<(Message<F>, F), Error>),
    remove: (RemoveInterrupt, (Vec<u8>, Vec<F>), Result<(Message<F>, F), Error>),
    register: (Register<F>, (Vec<u8>, Vec<F>), Result<(Message<F>, F), Error>),
    unregister: (Unregister, (Vec<u8>, Vec<F>), Result<(Message<F>, F), Error>),
    command: (LockCommand, (Vec<u8>, Vec<F>), Result<(Message<F>, F), Error>),
    oneshot: F,
)
    requires
        call_ensures(pack_request::<Ping, F>, (ping.0, oneshot), ping.1),
        call_ensures(pack_request::<Interrupt, F>, (interrupt.0, oneshot), interrupt.1),
        call_ensures(pack_request::<RemoveInterrupt, F>, (remove.0, oneshot), remove.1),
        call_ensures(pack_request::<Register<F>, F>, (register.0, oneshot), register.1),
        call_ensures(pack_request::<Unregister, F>, (unregister.0, oneshot), unregister.1),
        call_ensures(pack_request::<LockCommand, F>, (command.0, oneshot), command.1),
        call_ensures(receive_request::<Message<F>, F>, (Ok::<_, Error>(ping.1),), ping.2),
        call_ensures(receive_request::<Message<F>, F>, (Ok::<_, Error>(interrupt.1),), interrupt.2),
        call_ensures(receive_request::<Message<F>, F>, (Ok::<_, Error>(remove.1),), remove.2),
        call_ensures(receive_request::<Message<F>, F>, (Ok::<_, Error>(register.1),), register.2),
        call_ensures(
            receive_request::<Message<F>, F>,
            (Ok::<_, Error>(unregister.1),),
            unregister.2,
        ),
        call_ensures(receive_request::<Message<F>, F>, (Ok::<_, Error>(command.1),), command.2),
    ensures
        ping.2 == Ok::<(Message<F>, F), Error>((Message::Ping(ping.0), oneshot)),
        interrupt.2 == Ok::<(Message<F>, F), Error>((Message::Interrupt(interrupt.0), oneshot)),
        remove.2 == Ok::<(Message<F>, F), Error>((Message::RemoveInterrupt(remove.0), oneshot)),
        register.2 == Ok::<(Message<F>, F), Error>((Message::Register(register.0), oneshot)),
        unregister.2 == Ok::<(Message<F>, F), Error>((Message::Unregister(unregister.0), oneshot)),
        command.2 == Ok::<(Message<F>, F), Error>((Message::LockCommand(command.0), oneshot)),
        ping.1.1@ == seq![oneshot],
        interrupt.1.1@ == seq![oneshot],
        remove.1.1@ == seq![oneshot],
        register.1.1@ == seq![oneshot, register.0.fd],
        unregister.1.1@ == seq![oneshot],
        command.1.1@ == seq![oneshot],
{
    assert(seq![oneshot] + Seq::<F>::empty() =~= seq![oneshot]);
    assert(seq![oneshot] + seq![register.0.fd] =~= seq![oneshot, register.0.fd]);
    message_is_received(Message::Ping(ping.0), oneshot, ping.1, ping.2);
    message_is_received(Message::Interrupt(interrupt.0), oneshot, interrupt.1, interrupt.2);
    message_is_received(Message::RemoveInterrupt(remove.0), oneshot, remove.1, remove.2);
    message_is_received(Message::Register(register.0), oneshot, register.1, register.2);
    message_is_received(Message::Unregister(unregister.0), oneshot, unregister.1, unregister.2);
    message_is_received(Message::LockCommand(command.0), oneshot, command.1, command.2);
}

/// A coordinator gets the time to live that it is asked to give, with the reply channel as the only
/// descriptor.
pub proof fn coordinator_receives_the_time_to_live<F>(
    ttl: Ttl,
    request: RequestSpawnOwner,
    oneshot: F,
    packed: (Vec<u8>, Vec<F>),
    received: Result<(RequestSpawnOwner, F), Error>,
)
    requires
        ttl.nanos < 1_000_000_000,
        call_ensures(RequestSpawnOwner::new, (ttl,), request),
        call_ensures(pack_request::<RequestSpawnOwner, F>, (request, oneshot), packed),
        call_ensures(receive_request::<RequestSpawnOwner, F>, (Ok::<_, Error>(packed),), received),
    ensures
        received == Ok::<(RequestSpawnOwner, F), Error>((RequestSpawnOwner { ttl }, oneshot)),
        packed.1@ == seq![oneshot],
{
    assert(seq![oneshot] + Seq::<F>::empty() =~= seq![oneshot]);
    request_is_received(request, oneshot, received);
}

/// A request is refused where nothing was received, where it has no reply channel, where its bytes
/// cannot be read, and where a registration does not come with exactly one file. What comes with
/// other requests is ignored.
pub proof fn senseless_request_is_refused<F>(
    payload: RawMessage,
    bytes: Vec<u8>,
    fds: Vec<F>,
    received: Result<(Message<F>, F), Error>,
    other: Vec<u8>,
    found: &[u8],
    read: Result<RawMessage, DecodeFailure>,
    refused: Result<(Message<F>, F), Error>,
    error: Error,
    failed: Result<(Message<F>, F), Error>,
)
    requires
        call_ensures(serialize::<RawMessage>, (&payload,), bytes),
        call_ensures(receive_request::<Message<F>, F>, (Ok::<_, Error>((bytes, fds)),), received),
        found@ == other@,
        call_ensures(deserialize::<RawMessage>, (found,), read),
        call_ensures(receive_request::<Message<F>, F>, (Ok::<_, Error>((other, fds)),), refused),
        call_ensures(receive_request::<Message<F>, F>, (Err(error),), failed),
    ensures
        failed == Err::<(Message<F>, F), Error>(error),
        fds@.len() == 0 ==> received == Err::<(Message<F>, F), Error>(
            Error::Own(Reason::NoDescriptors),
        ),
        fds@.len() == 0 ==> refused == Err::<(Message<F>, F), Error>(
            Error::Own(Reason::NoDescriptors),
        ),
        fds@.len() > 0 && read is Err ==> refused == Err::<(Message<F>, F), Error>(
            Error::Own(Reason::Undecodable(read->Err_0)),
        ),
        fds@.len() > 0 && payload == (RawMessage::Register {  }) ==> received == (if fds@.len() == 2 {
            Ok::<(Message<F>, F), Error>((Message::Register(Register { fd: fds@[1] }), fds@[0]))
        } else {
            Err(Error::Own(Reason::InvalidDescriptorCount))
        }),
        fds@.len() > 0 && payload != (RawMessage::Register {  }) ==> received is Ok
            && received->Ok_0.1 == fds@[0],
        fds@.len() > 0 ==> {
            &&& payload matches RawMessage::Ping {} ==> received->Ok_0.0 == Message::<F>::Ping(
                Ping {  },
            )
            &&& payload matches RawMessage::Interrupt { id } ==> received->Ok_0.0 == Message::<
                F,
            >::Interrupt(Interrupt { id })
            &&& payload matches RawMessage::RemoveInterrupt { id } ==> received->Ok_0.0
                == Message::<F>::RemoveInterrupt(RemoveInterrupt { id })
            &&& payload matches RawMessage::Unregister { id } ==> received->Ok_0.0 == Message::<
                F,
            >::Unregister(Unregister { id })
            &&& payload matches RawMessage::LockCommand { id, action, params }
                ==> received->Ok_0.0 == Message::<F>::LockCommand(
                LockCommand { id, action, params },
            )
        },
{
    if fds@.len() > 0 {
        let found = choose|found: Result<RawMessage, DecodeFailure>| #[trigger]
            begins(bytes@, found) && received == match found {
                Err(failure) => Err(Error::Own(Reason::Undecodable(failure))),
                Ok(payload) => match Message::<F>::unpacked(payload, fds@.drop_first()) {
                    Ok(message) => Ok((message, fds@[0])),
                    Err(error) => Err(error),
                },
            };
        RawMessage::payload_is_read_back(payload, found);
    }
}

/// What is found in a received request, if its bytes are those of a payload.
proof fn payload_is_unpacked<R: Serializable<F, Payload = RawMessage>, F>(
    payload: RawMessage,
    bytes: Vec<u8>,
    fds: Vec<F>,
    received: Result<(R, F), Error>,
)
    requires
        bytes@ == payload.layout(),
        fds@.len() > 0,
        call_ensures(receive_request::<R, F>, (Ok::<_, Error>((bytes, fds)),), received),
    ensures
        received == match R::unpacked(payload, fds@.drop_first()) {
            Ok(message) => Ok((message, fds@[0])),
            Err(error) => Err(error),
        },
{
    let found = choose|found: Result<RawMessage, DecodeFailure>| #[trigger]
        <R::Payload as Payload>::held(bytes@, found) && received == match found {
            Err(failure) => Err(Error::Own(Reason::Undecodable(failure))),
            Ok(payload) => match R::unpacked(payload, fds@.drop_first()) {
                Ok(message) => Ok((message, fds@[0])),
                Err(error) => Err(error),
            },
        };
    RawMessage::payload_is_read_back(payload, found);
}

/// A request that is read as one of another kind is refused, and one that is read as its own kind is
/// what it says.
pub proof fn request_of_another_kind_is_refused<F>(
    payload: RawMessage,
    bytes: Vec<u8>,
    fds: Vec<F>,
    ping: Result<(Ping, F), Error>,
    interrupt: Result<(Interrupt, F), Error>,
    remove: Result<(RemoveInterrupt, F), Error>,
    register: Result<(Register<F>, F), Error>,
    unregister: Result<(Unregister, F), Error>,
    command: Result<(LockCommand, F), Error>,
)
    requires
        fds@.len() > 0,
        call_ensures(serialize::<RawMessage>, (&payload,), bytes),
        call_ensures(receive_request::<Ping, F>, (Ok::<_, Error>((bytes, fds)),), ping),
        call_ensures(receive_request::<Interrupt, F>, (Ok::<_, Error>((bytes, fds)),), interrupt),
        call_ensures(receive_request::<RemoveInterrupt, F>, (Ok::<_, Error>((bytes, fds)),), remove),
        call_ensures(receive_request::<Register<F>, F>, (Ok::<_, Error>((bytes, fds)),), register),
        call_ensures(receive_request::<Unregister, F>, (Ok::<_, Error>((bytes, fds)),), unregister),
        call_ensures(receive_request::<LockCommand, F>, (Ok::<_, Error>((bytes, fds)),), command),
    ensures
        ping == match payload {
            RawMessage::Ping {} => Ok::<(Ping, F), Error>((Ping {  }, fds@[0])),
            _ => Err(Error::Own(Reason::InvalidPayload)),
        },
        interrupt == match payload {
            RawMessage::Interrupt { id } => Ok::<(Interrupt, F), Error>(
                (Interrupt { id }, fds@[0]),
            ),
            _ => Err(Error::Own(Reason::InvalidPayload)),
        },
        remove == match payload {
            RawMessage::RemoveInterrupt { id } => Ok::<(RemoveInterrupt, F), Error>(
                (RemoveInterrupt { id }, fds@[0]),
            ),
            _ => Err(Error::Own(Reason::InvalidPayload)),
        },
        fds@.len() != 2 ==> register == Err::<(Register<F>, F), Error>(
            Error::Own(Reason::InvalidDescriptorCount),
        ),
        fds@.len() == 2 ==> register == match payload {
            RawMessage::Register {} => Ok::<(Register<F>, F), Error>(
                (Register { fd: fds@[1] }, fds@[0]),
            ),
            _ => Err(Error::Own(Reason::InvalidPayload)),
        },
        unregister == match payload {
            RawMessage::Unregister { id } => Ok::<(Unregister, F), Error>(
                (Unregister { id }, fds@[0]),
            ),
            _ => Err(Error::Own(Reason::InvalidPayload)),
        },
        command == match payload {
            RawMessage::LockCommand { id, action, params } => Ok::<(LockCommand, F), Error>(
                (LockCommand { id, action, params }, fds@[0]),
            ),
            _ => Err(Error::Own(Reason::InvalidPayload)),
        },
{
    payload_is_unpacked(payload, bytes, fds, ping);
    payload_is_unpacked(payload, bytes, fds, interrupt);
    payload_is_unpacked(payload, bytes, fds, remove);
    payload_is_unpacked(payload, bytes, fds, register);
    payload_is_unpacked(payload, bytes, fds, unregister);
    payload_is_unpacked(payload, bytes, fds, command);
}

/// The asker gets the answer that was given: the value and its descriptors, or the number of the
/// failure.
pub proof fn answer_received_is_answer_given<R: Replyable, F>(
    message: Result<R::Type, Errno>,
    bytes: Vec<u8>,
    bytes_with_fds: Vec<u8>,
    fds: Vec<F>,
    item: Item<R::Type, F>,
    item_with_fds: Item<R::Type, F>,
)
    requires
        call_ensures(reply::<R>, (message,), bytes),
        call_ensures(reply_with_fds::<R>, (message,), bytes_with_fds),
        call_ensures(next_reply::<R, F>, (Ok::<_, Error>((bytes, fds)),), item),
        call_ensures(next_reply::<R, F>, (Ok::<_, Error>((bytes_with_fds, fds)),), item_with_fds),
    ensures
        message matches Ok(value) ==> item == Some(Ok::<_, Error>(Ok::<_, i32>((value, fds)))),
        message matches Ok(value) ==> item_with_fds == item,
        message matches Err(Errno::Raw(number)) ==> item == Some(
            Ok::<_, Error>(Err::<(R::Type, Vec<F>), i32>(number)),
        ),
        message matches Err(Errno::Raw(number)) ==> item_with_fds == item,
        message is Err ==> (item matches Some(Ok(Err(number))) && 1 <= number <= 4095),
        message is Err ==> (item_with_fds matches Some(Ok(Err(number))) && 1 <= number <= 4095),
{
    answer_is_received::<R, F>(message, bytes@, fds, item);
    answer_is_received::<R, F>(message, bytes_with_fds@, fds, item_with_fds);
}

/// Nothing comes from a reply channel that the peer has closed. Any other failure to receive is
/// handed on.
pub proof fn closed_channel_yields_nothing<R: Replyable, F>(error: Error, item: Item<R::Type, F>)
    requires
        call_ensures(next_reply::<R, F>, (Err::<(Vec<u8>, Vec<F>), Error>(error),), item),
    ensures
        error.kind() == ErrorKind::BrokenPipe ==> item is None,
        error.kind() != ErrorKind::BrokenPipe ==> item == Some(
            Err::<Result<(R::Type, Vec<F>), i32>, Error>(error),
        ),
{
}

/// Only the coordinator answers with descriptors.
pub proof fn coordinator_answers_with_descriptors<F>(
    ping: bool,
    interrupt: bool,
    remove: bool,
    register: bool,
    unregister: bool,
    command: bool,
    spawn: bool,
)
    requires
        call_ensures(<Ping as Replyable>::expects_fds, (), ping),
        call_ensures(<Interrupt as Replyable>::expects_fds, (), interrupt),
        call_ensures(<RemoveInterrupt as Replyable>::expects_fds, (), remove),
        call_ensures(<Register<F> as Replyable>::expects_fds, (), register),
        call_ensures(<Unregister as Replyable>::expects_fds, (), unregister),
        call_ensures(<LockCommand as Replyable>::expects_fds, (), command),
        call_ensures(<RequestSpawnOwner as Replyable>::expects_fds, (), spawn),
    ensures
        spawn,
        !ping && !interrupt && !remove && !register && !unregister && !command,
{
}

/// The first thing that a reply channel yields is the answer. Where it yields nothing, the asker is
/// told that it was closed.
pub proof fn first_answer_is_the_answer<T>(
    next: Option<Result<Result<T, Error>, Error>>,
    closed: Reason,
    answer: Result<Result<T, Error>, Error>,
)
    requires
        call_ensures(sole_reply::<T>, (next, closed), answer),
    ensures
        next matches Some(item) ==> answer == item,
        next is None ==> answer == Err::<Result<T, Error>, Error>(Error::Own(closed)),
{
}

/// An answer that is freed of its descriptors says the same.
pub proof fn answer_without_descriptors_says_the_same<T, F>(
    item: Item<T, F>,
    bare: Option<Result<Result<T, i32>, Error>>,
)
    requires
        call_ensures(discard_fds::<T, F>, (item,), bare),
    ensures
        item is None ==> bare is None,
        item matches Some(Err(error)) ==> bare == Some(Err::<Result<T, i32>, Error>(error)),
        item matches Some(Ok(Err(number))) ==> bare == Some(
            Ok::<Result<T, i32>, Error>(Err(number)),
        ),
        item matches Some(Ok(Ok((value, fds)))) ==> bare == Some(
            Ok::<Result<T, i32>, Error>(Ok(value)),
        ),
{
}

/// The descriptors that control data brings, in order.
pub open spec fn brought<F>(control: Seq<Ancillary<F>>) -> Seq<F> {
    control.map_values(|item: Ancillary<F>| item->Rights_0@).flatten()
}

/// Control data without anything else brings its descriptors in order.
proof fn rights_are_brought<F>(control: Seq<Ancillary<F>>)
    requires
        forall|i: int| 0 <= i < control.len() ==> #[trigger] control[i] is Rights,
    ensures
        rights(control) == brought(control),
    decreases control.len(),
{
    let fds = |item: Ancillary<F>| item->Rights_0@;
    if control.len() > 0 {
        let rest = control.drop_first();
        assert forall|i: int| 0 <= i < rest.len() implies #[trigger] rest[i] is Rights by {
            assert(rest[i] == control[i + 1]);
        }
        rights_are_brought(rest);
        assert(control.map_values(fds).drop_first() =~= rest.map_values(fds));
        assert(control[0] is Rights);
    }
}

/// A frame arrives as it was sent: the receiver makes room for what the start of the frame announces,
/// and then gets the payload and the descriptors, though these come in several parts.
pub proof fn frame_received_is_frame_sent<F>(
    payload: Vec<u8>,
    fds: Seq<F>,
    header: Vec<u8>,
    peek: Peek,
    peeked: [u8; 16],
    go: AfterPeek,
    read: Read,
    count: usize,
    found: Vec<u8>,
    control: Vec<Ancillary<F>>,
    next: AfterRead<F>,
    lengths: (usize, usize),
)
    requires
        lengths.0 == payload@.len(),
        lengths.1 == fds.len(),
        call_ensures(frame_header, (lengths.0, lengths.1), header),
        header@ == peeked@,
        call_ensures(Peek::peeked, (peek, Ok::<_, Error>((16usize, peeked))), go),
        go matches AfterPeek::Go(then) ==> read == then,
        count == header@.len() + payload@.len(),
        found@ == payload@,
        forall|i: int| 0 <= i < control@.len() ==> #[trigger] control@[i] is Rights,
        brought(control@) == fds,
        call_ensures(Read::read::<F>, (read, Ok::<_, Error>((count, found, control))), next),
    ensures
        header@.len() == 16,
        go == AfterPeek::Go(Read { retried: false, bytes: lengths.0, descriptors: lengths.1 }),
        next matches AfterRead::Done(bytes, received) && bytes@ == payload@ && received@ == fds,
{
    frame_size_is_received(peek, lengths.0, lengths.1, peeked);
    rights_are_brought(control@);
}

/// A frame starts with the length of its payload and the number of its descriptors, in eight bytes
/// each, in the byte order of the machine.
pub proof fn frame_starts_with_its_lengths(bytes: usize, descriptors: usize, header: Vec<u8>)
    requires
        call_ensures(frame_header, (bytes, descriptors), header),
    ensures
        endianness() == Endian::Little ==> header@ == spec_u64_to_le_bytes(bytes as u64)
            + spec_u64_to_le_bytes(descriptors as u64),
        endianness() == Endian::Big ==> header@ == spec_u64_to_le_bytes(bytes as u64).reverse()
            + spec_u64_to_le_bytes(descriptors as u64).reverse(),
{
}

/// A frame that announces more than the machine can count is refused.
pub proof fn oversized_frame_is_refused(
    bytes: u64,
    descriptors: u64,
    peek: Peek,
    peeked: [u8; 16],
    next: AfterPeek,
)
    requires
        peeked@ == native_bytes(bytes) + native_bytes(descriptors),
        call_ensures(Peek::peeked, (peek, Ok::<_, Error>((16usize, peeked))), next),
    ensures
        bytes > usize::MAX || descriptors > usize::MAX ==> next == AfterPeek::Failed(
            Error::Own(Reason::LengthOutOfRange),
        ),
        bytes <= usize::MAX && descriptors <= usize::MAX ==> next == AfterPeek::Go(
            Read { retried: false, bytes: bytes as usize, descriptors: descriptors as usize },
        ),
{
    native_value_is_read_back(bytes);
    native_value_is_read_back(descriptors);
    assert(peeked@.subrange(0, 8) =~= native_bytes(bytes));
    assert(peeked@.subrange(8, 16) =~= native_bytes(descriptors));
}

/// A receiver starts by peeking. It tries again once where it finds nothing, and then takes the peer
/// for gone. A start that is cut is refused, and a failure is handed on.
pub proof fn silence_is_believed_the_second_time(
    first: Peek,
    headers: ([u8; 16], [u8; 16]),
    after: AfterPeek,
    again: Peek,
    then: AfterPeek,
    peek: Peek,
    count: usize,
    short: AfterPeek,
    error: Error,
    failed: AfterPeek,
)
    requires
        call_ensures(Peek::new, (), first),
        call_ensures(Peek::peeked, (first, Ok::<_, Error>((0usize, headers.0))), after),
        after matches AfterPeek::Again(next) ==> again == next,
        call_ensures(Peek::peeked, (again, Ok::<_, Error>((0usize, headers.1))), then),
        count != 0 && count != 16,
        call_ensures(Peek::peeked, (peek, Ok::<_, Error>((count, headers.0))), short),
        call_ensures(Peek::peeked, (peek, Err::<(usize, [u8; 16]), Error>(error)), failed),
    ensures
        after is Again,
        then == AfterPeek::Failed(Error::Own(Reason::ConnectionTerminated)),
        short == AfterPeek::Failed(Error::Own(Reason::ShortMessageReceived)),
        failed == AfterPeek::Failed(error),
{
}

/// A receiver that knows the size of a frame tries again once where it finds nothing, and then takes
/// the peer for gone. It refuses a frame of another size, control data that is no descriptor, and
/// another number of descriptors, and hands a failure on.
pub proof fn senseless_frame_is_refused<F>(
    first: Read,
    payload: Vec<u8>,
    control: Vec<Ancillary<F>>,
    after: AfterRead<F>,
    again: Read,
    then: AfterRead<F>,
    read: Read,
    count: usize,
    next: AfterRead<F>,
    error: Error,
    failed: AfterRead<F>,
)
    requires
        !first.retried,
        call_ensures(Read::read::<F>, (first, Ok::<_, Error>((0usize, payload, control))), after),
        after matches AfterRead::Again(next) ==> again == next,
        call_ensures(Read::read::<F>, (again, Ok::<_, Error>((0usize, payload, control))), then),
        count != 0,
        call_ensures(Read::read::<F>, (read, Ok::<_, Error>((count, payload, control))), next),
        call_ensures(
            Read::read::<F>,
            (read, Err::<(usize, Vec<u8>, Vec<Ancillary<F>>), Error>(error)),
            failed,
        ),
    ensures
        after is Again,
        again.bytes == first.bytes && again.descriptors == first.descriptors,
        then == AfterRead::<F>::Failed(Error::Own(Reason::ConnectionTerminated)),
        count != 16 + read.bytes ==> next == AfterRead::<F>::Failed(
            Error::Own(Reason::ShortMessageReceived),
        ),
        count == 16 + read.bytes ==> {
            &&& (exists|i: int| 0 <= i < control@.len() && #[trigger] control@[i] is Other)
                ==> next == AfterRead::<F>::Failed(Error::Own(Reason::UnexpectedAncillary))
            &&& (forall|i: int| 0 <= i < control@.len() ==> #[trigger] control@[i] is Rights)
                && brought(control@).len() != read.descriptors ==> next == AfterRead::<F>::Failed(
                Error::Own(Reason::NotEnoughFiles),
            )
        },
        failed == AfterRead::<F>::Failed(error),
{
    if forall|i: int| 0 <= i < control@.len() ==> #[trigger] control@[i] is Rights {
        rights_are_brought(control@);
        assert(!has_other(control@));
    }
}

/// A frame was sent if all of it went out: the start and the payload. Otherwise the sender is told
/// what failed, or that it was cut.
pub proof fn frame_is_sent_whole(
    sent: Result<usize, Error>,
    bytes: usize,
    descriptors: usize,
    header: Vec<u8>,
    outcome: Result<(), Error>,
)
    requires
        call_ensures(frame_header, (bytes, descriptors), header),
        call_ensures(check_sent, (sent, bytes), outcome),
    ensures
        sent matches Ok(count) ==> outcome == (if count == header@.len() + bytes {
            Ok::<(), Error>(())
        } else {
            Err(Error::Own(Reason::ShortMessageSent))
        }),
        sent matches Err(error) ==> outcome == Err::<(), Error>(error),
{
}

} // verus!
