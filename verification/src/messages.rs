//! The requests that a file system sends to the owner and coordinator processes, and the replies.
//!
//! A request travels as a payload with descriptors. The first descriptor is the channel on which the
//! reply is expected; the others belong to the request. Descriptors are of a type of the user's
//! choice.

use crate::error::{DecodeFailure, Errno, Error, ErrorKind, Reason};
use crate::types::{LockAction, LockParams, Ttl};
use crate::wire::{
    begins, deserialize, has_tag, read_tag, serialize, tag_failing, tag_of, tagged_layout,
    tagged_value_is_read, tags_agree, value_is_read_back, Tagged, Wire,
};
use vstd::prelude::*;

verus! {

/// The payload of a request to an owner process.
#[derive(Debug, Clone, Copy, PartialEq, Eq, Structural)]
pub enum RawMessage {
    /// Checks that the owner is alive.
    Ping {},
    /// Interrupts the pending lock with this id.
    Interrupt { id: u64 },
    /// Forgets the pending lock with this id.
    RemoveInterrupt { id: u64 },
    /// Registers a file, which travels as a descriptor.
    Register {},
    /// Unregisters the file with this id.
    Unregister { id: u64 },
    /// Performs a lock command on the file with this id.
    LockCommand { id: u64, action: LockAction, params: LockParams },
}

impl Tagged for RawMessage {
    open spec fn count() -> u32 {
        6
    }

    open spec fn variant(self) -> u32 {
        match self {
            RawMessage::Ping {} => 0,
            RawMessage::Interrupt { .. } => 1,
            RawMessage::RemoveInterrupt { .. } => 2,
            RawMessage::Register {} => 3,
            RawMessage::Unregister { .. } => 4,
            RawMessage::LockCommand { .. } => 5,
        }
    }

    open spec fn fields(self) -> Seq<u8> {
        match self {
            RawMessage::Ping {} | RawMessage::Register {} => Seq::empty(),
            RawMessage::Interrupt { id } => id.layout(),
            RawMessage::RemoveInterrupt { id } => id.layout(),
            RawMessage::Unregister { id } => id.layout(),
            RawMessage::LockCommand { id, action, params } => (id, (action, params)).layout(),
        }
    }

    open spec fn unknown(found: u32) -> DecodeFailure {
        DecodeFailure::UnknownVariant { found, count: 6 }
    }

    proof fn variant_is_counted(self) {
    }

    fn refuse(found: u32) -> (failure: Option<DecodeFailure>) {
        if found < 6 {
            None
        } else {
            Some(DecodeFailure::UnknownVariant { found, count: 6 })
        }
    }
}

impl Wire for RawMessage {
    open spec fn layout(self) -> Seq<u8> {
        tagged_layout(self)
    }

    open spec fn failing(bytes: Seq<u8>) -> DecodeFailure {
        if !has_tag::<RawMessage>(bytes) {
            tag_failing::<RawMessage>(bytes)
        } else if tag_of(bytes) == 5 {
            <(u64, (LockAction, LockParams))>::failing(bytes.skip(4))
        } else {
            u64::failing(bytes.skip(4))
        }
    }

    proof fn layout_is_prefix_free(a: Self, b: Self, bytes: Seq<u8>) {
        tags_agree(a, b, bytes);
        let rest = bytes.skip(4);
        match (a, b) {
            (RawMessage::Interrupt { id: x }, RawMessage::Interrupt { id: y }) => {
                u64::layout_is_prefix_free(x, y, rest);
            },
            (RawMessage::RemoveInterrupt { id: x }, RawMessage::RemoveInterrupt { id: y }) => {
                u64::layout_is_prefix_free(x, y, rest);
            },
            (RawMessage::Unregister { id: x }, RawMessage::Unregister { id: y }) => {
                u64::layout_is_prefix_free(x, y, rest);
            },
            (
                RawMessage::LockCommand { id: x, action: x_action, params: x_params },
                RawMessage::LockCommand { id: y, action: y_action, params: y_params },
            ) => {
                <(u64, (LockAction, LockParams))>::layout_is_prefix_free(
                    (x, (x_action, x_params)),
                    (y, (y_action, y_params)),
                    rest,
                );
            },
            _ => {},
        }
    }

    fn write(&self, out: &mut Vec<u8>) {
        let ghost before = out@;
        match *self {
            RawMessage::Ping {} => 0u32.write(out),
            RawMessage::Interrupt { id } => (1u32, id).write(out),
            RawMessage::RemoveInterrupt { id } => (2u32, id).write(out),
            RawMessage::Register {} => 3u32.write(out),
            RawMessage::Unregister { id } => (4u32, id).write(out),
            RawMessage::LockCommand { id, action, params } => {
                (5u32, (id, (action, params))).write(out)
            },
        }
        assert(out@ =~= before + self.layout());
    }

    fn read(bytes: &[u8], at: usize) -> (found: Result<(Self, usize), DecodeFailure>) {
        let (tag, middle) = match read_tag::<RawMessage>(bytes, at) {
            Ok(found) => found,
            Err(failure) => return Err(failure),
        };
        let (message, end) = if tag == 0 {
            (RawMessage::Ping {}, middle)
        } else if tag == 3 {
            (RawMessage::Register {}, middle)
        } else if tag == 5 {
            match <(u64, (LockAction, LockParams))>::read(bytes, middle) {
                Ok(((id, (action, params)), end)) => {
                    (RawMessage::LockCommand { id, action, params }, end)
                },
                Err(failure) => {
                    assert forall|message: RawMessage| !(#[trigger] message.layout()).is_prefix_of(
                        bytes@.skip(at as int),
                    ) by {
                        if let RawMessage::LockCommand { id, action, params } = message {
                            assert(!(id, (action, params)).layout().is_prefix_of(
                                bytes@.skip(middle as int),
                            ));
                        }
                    }
                    return Err(failure);
                },
            }
        } else {
            match u64::read(bytes, middle) {
                Ok((id, end)) => if tag == 1 {
                    (RawMessage::Interrupt { id }, end)
                } else if tag == 2 {
                    (RawMessage::RemoveInterrupt { id }, end)
                } else {
                    (RawMessage::Unregister { id }, end)
                },
                Err(failure) => return Err(failure),
            }
        };
        proof {
            assert(bytes@.subrange(middle as int, end as int) =~= message.fields());
            tagged_value_is_read(bytes@, at as int, middle as int, end as int, message);
        }
        Ok((message, end))
    }
}

/// The answer to a lock command.
#[derive(Debug, Clone, Copy, PartialEq, Eq, Structural)]
pub enum ReplyLockCommandData {
    /// The lock is awaited under this id. The answer follows later.
    Pending(u64),
    /// The command is done.
    Done(LockParams),
}

impl Tagged for ReplyLockCommandData {
    open spec fn count() -> u32 {
        2
    }

    open spec fn variant(self) -> u32 {
        match self {
            ReplyLockCommandData::Pending(_) => 0,
            ReplyLockCommandData::Done(_) => 1,
        }
    }

    open spec fn fields(self) -> Seq<u8> {
        match self {
            ReplyLockCommandData::Pending(id) => id.layout(),
            ReplyLockCommandData::Done(params) => params.layout(),
        }
    }

    open spec fn unknown(found: u32) -> DecodeFailure {
        DecodeFailure::UnknownVariant { found, count: 2 }
    }

    proof fn variant_is_counted(self) {
    }

    fn refuse(found: u32) -> (failure: Option<DecodeFailure>) {
        if found < 2 {
            None
        } else {
            Some(DecodeFailure::UnknownVariant { found, count: 2 })
        }
    }
}

impl Wire for ReplyLockCommandData {
    open spec fn layout(self) -> Seq<u8> {
        tagged_layout(self)
    }

    open spec fn failing(bytes: Seq<u8>) -> DecodeFailure {
        if !has_tag::<ReplyLockCommandData>(bytes) {
            tag_failing::<ReplyLockCommandData>(bytes)
        } else if tag_of(bytes) == 0 {
            u64::failing(bytes.skip(4))
        } else {
            LockParams::failing(bytes.skip(4))
        }
    }

    proof fn layout_is_prefix_free(a: Self, b: Self, bytes: Seq<u8>) {
        tags_agree(a, b, bytes);
        match (a, b) {
            (ReplyLockCommandData::Pending(x), ReplyLockCommandData::Pending(y)) => {
                u64::layout_is_prefix_free(x, y, bytes.skip(4));
            },
            (ReplyLockCommandData::Done(x), ReplyLockCommandData::Done(y)) => {
                LockParams::layout_is_prefix_free(x, y, bytes.skip(4));
            },
            _ => {},
        }
    }

    fn write(&self, out: &mut Vec<u8>) {
        match *self {
            ReplyLockCommandData::Pending(id) => (0u32, id).write(out),
            ReplyLockCommandData::Done(params) => (1u32, params).write(out),
        }
    }

    fn read(bytes: &[u8], at: usize) -> (found: Result<(Self, usize), DecodeFailure>) {
        let (tag, middle) = match read_tag::<ReplyLockCommandData>(bytes, at) {
            Ok(found) => found,
            Err(failure) => return Err(failure),
        };
        let (data, end) = if tag == 0 {
            match u64::read(bytes, middle) {
                Ok((id, end)) => (ReplyLockCommandData::Pending(id), end),
                Err(failure) => return Err(failure),
            }
        } else {
            match LockParams::read(bytes, middle) {
                Ok((params, end)) => (ReplyLockCommandData::Done(params), end),
                Err(failure) => return Err(failure),
            }
        };
        proof {
            tagged_value_is_read(bytes@, at as int, middle as int, end as int, data);
        }
        Ok((data, end))
    }
}

/// What a request turns into on its way.
pub trait Payload: Sized {
    /// Whether the value can be sent.
    spec fn sendable(self) -> bool;

    /// The bytes of a payload.
    spec fn bytes(self) -> Seq<u8>;

    /// Whether `read` is the payload that `bytes` hold, or why they hold none.
    spec fn held(bytes: Seq<u8>, read: Result<Self, DecodeFailure>) -> bool;

    /// A payload is read back from its bytes.
    proof fn payload_is_read_back(payload: Self, read: Result<Self, DecodeFailure>)
        requires
            payload.sendable(),
            Self::held(payload.bytes(), read),
        ensures
            read == Ok::<Self, DecodeFailure>(payload),
    ;

    /// The bytes of the payload.
    fn to_bytes(&self) -> (bytes: Vec<u8>)
        ensures
            bytes@ == self.bytes(),
    ;

    /// The payload that some bytes hold.
    fn from_bytes(bytes: &[u8]) -> (read: Result<Self, DecodeFailure>)
        ensures
            Self::held(bytes@, read),
    ;
}

impl Payload for RawMessage {
    open spec fn sendable(self) -> bool {
        true
    }

    open spec fn bytes(self) -> Seq<u8> {
        self.layout()
    }

    open spec fn held(bytes: Seq<u8>, read: Result<RawMessage, DecodeFailure>) -> bool {
        begins(bytes, read)
    }

    proof fn payload_is_read_back(payload: RawMessage, read: Result<RawMessage, DecodeFailure>) {
        assert(payload.layout() + Seq::empty() =~= payload.layout());
        value_is_read_back(payload, Seq::empty(), read);
    }

    fn to_bytes(&self) -> (bytes: Vec<u8>) {
        serialize(self)
    }

    fn from_bytes(bytes: &[u8]) -> (read: Result<RawMessage, DecodeFailure>) {
        deserialize(bytes)
    }
}

impl Payload for Ttl {
    open spec fn sendable(self) -> bool {
        self.well_formed()
    }

    /// The seconds and the nanoseconds.
    open spec fn bytes(self) -> Seq<u8> {
        (self.secs, self.nanos).layout()
    }

    /// Whole seconds among the nanoseconds count as seconds.
    open spec fn held(bytes: Seq<u8>, read: Result<Ttl, DecodeFailure>) -> bool {
        match read {
            Ok(ttl) => ttl.well_formed() && exists|secs: u64, nanos: u32|
                (#[trigger] (secs, nanos).layout()).is_prefix_of(bytes) && ttl.total_nanos()
                    == secs * 1_000_000_000 + nanos,
            Err(failure) => if exists|secs: u64, nanos: u32|
                (#[trigger] (secs, nanos).layout()).is_prefix_of(bytes) {
                &&& failure == DecodeFailure::Overflow
                &&& forall|secs: u64, nanos: u32|
                    (#[trigger] (secs, nanos).layout()).is_prefix_of(bytes) ==> secs * 1_000_000_000
                        + nanos >= 0x1_0000_0000_0000_0000 * 1_000_000_000
            } else {
                failure == <(u64, u32)>::failing(bytes)
            },
        }
    }

    proof fn payload_is_read_back(payload: Ttl, read: Result<Ttl, DecodeFailure>) {
        let fields = (payload.secs, payload.nanos);
        assert(fields.layout().is_prefix_of(payload.bytes())) by {
            assert(fields.layout() =~= fields.layout().subrange(0, fields.layout().len() as int));
        }
        if read is Ok {
            let (secs, nanos) = choose|secs: u64, nanos: u32|
                (#[trigger] (secs, nanos).layout()).is_prefix_of(payload.bytes())
                    && read->Ok_0.total_nanos() == secs * 1_000_000_000 + nanos;
            <(u64, u32)>::layout_is_prefix_free(fields, (secs, nanos), payload.bytes());
        }
    }

    fn to_bytes(&self) -> (bytes: Vec<u8>) {
        serialize(&(self.secs, self.nanos))
    }

    fn from_bytes(bytes: &[u8]) -> (read: Result<Ttl, DecodeFailure>) {
        match deserialize::<(u64, u32)>(bytes) {
            Ok((secs, nanos)) => {
                proof {
                    assert((secs, nanos).layout().is_prefix_of(bytes@));
                    assert forall|other_secs: u64, other_nanos: u32|
                        (#[trigger] (other_secs, other_nanos).layout()).is_prefix_of(
                            bytes@,
                        ) implies other_secs == secs && other_nanos == nanos by {
                        <(u64, u32)>::layout_is_prefix_free(
                            (secs, nanos),
                            (other_secs, other_nanos),
                            bytes@,
                        );
                    }
                }
                match Ttl::carry(secs, nanos) {
                    Some(ttl) => Ok(ttl),
                    None => Err(DecodeFailure::Overflow),
                }
            },
            Err(failure) => Err(failure),
        }
    }
}

/// Asks the coordinator for a new owner process.
#[derive(Debug, Clone, Copy, PartialEq, Eq, Structural)]
pub struct RequestSpawnOwner {
    /// How long the owner process outlives its last use.
    pub ttl: Ttl,
}

impl RequestSpawnOwner {
    /// A request for an owner process with this time to live.
    pub fn new(ttl: Ttl) -> (request: RequestSpawnOwner)
        ensures
            request.ttl == ttl,
    {
        RequestSpawnOwner { ttl }
    }
}

/// A request, as a payload and descriptors.
pub trait Serializable<F>: Sized {
    /// What the request turns into.
    type Payload: Payload;

    /// The payload of a request.
    spec fn payload(self) -> Self::Payload;

    /// The descriptors of a request.
    spec fn descriptors(self) -> Seq<F>;

    /// The request with a payload and descriptors.
    spec fn unpacked(payload: Self::Payload, fds: Seq<F>) -> Result<Self, Error>;

    /// A request is found again in its payload and descriptors.
    proof fn packing_is_undone(request: Self)
        ensures
            Self::unpacked(request.payload(), request.descriptors()) == Ok::<Self, Error>(request),
    ;

    /// The payload and the descriptors of the request.
    fn serialize(self) -> (packed: (Self::Payload, Vec<F>))
        ensures
            packed.0 == self.payload(),
            packed.1@ == self.descriptors(),
    ;

    /// The request with a payload and descriptors.
    fn deserialize(payload: Self::Payload, fds: Vec<F>) -> (request: Result<Self, Error>)
        ensures
            request == Self::unpacked(payload, fds@),
    ;
}

/// Checks that an owner process is alive.
#[derive(Debug, Clone, Copy, PartialEq, Eq, Structural)]
pub struct Ping {}

/// Interrupts a pending lock.
#[derive(Debug, Clone, Copy, PartialEq, Eq, Structural)]
pub struct Interrupt {
    pub id: u64,
}

/// Forgets a pending lock.
#[derive(Debug, Clone, Copy, PartialEq, Eq, Structural)]
pub struct RemoveInterrupt {
    pub id: u64,
}

/// Registers a file.
#[derive(Debug)]
pub struct Register<F> {
    pub fd: F,
}

/// Unregisters a file.
#[derive(Debug, Clone, Copy, PartialEq, Eq, Structural)]
pub struct Unregister {
    pub id: u64,
}

/// Performs a lock command on a file.
#[derive(Debug, Clone, Copy, PartialEq, Eq, Structural)]
pub struct LockCommand {
    pub id: u64,
    pub action: LockAction,
    pub params: LockParams,
}

/// A request to an owner process.
#[derive(Debug)]
pub enum Message<F> {
    Ping(Ping),
    Interrupt(Interrupt),
    RemoveInterrupt(RemoveInterrupt),
    Register(Register<F>),
    Unregister(Unregister),
    LockCommand(LockCommand),
}

impl<F> Serializable<F> for Ping {
    type Payload = RawMessage;

    open spec fn payload(self) -> RawMessage {
        RawMessage::Ping {}
    }

    open spec fn descriptors(self) -> Seq<F> {
        Seq::empty()
    }

    /// Descriptors are ignored.
    open spec fn unpacked(payload: RawMessage, fds: Seq<F>) -> Result<Ping, Error> {
        match payload {
            RawMessage::Ping {} => Ok(Ping {}),
            _ => Err(Error::Own(Reason::InvalidPayload)),
        }
    }

    proof fn packing_is_undone(request: Ping) {
    }

    fn serialize(self) -> (packed: (RawMessage, Vec<F>)) {
        (RawMessage::Ping {}, Vec::new())
    }

    fn deserialize(payload: RawMessage, _fds: Vec<F>) -> (request: Result<Ping, Error>) {
        match payload {
            RawMessage::Ping {} => Ok(Ping {}),
            _ => Err(Error::Own(Reason::InvalidPayload)),
        }
    }
}

impl<F> Serializable<F> for Interrupt {
    type Payload = RawMessage;

    open spec fn payload(self) -> RawMessage {
        RawMessage::Interrupt { id: self.id }
    }

    open spec fn descriptors(self) -> Seq<F> {
        Seq::empty()
    }

    /// Descriptors are ignored.
    open spec fn unpacked(payload: RawMessage, fds: Seq<F>) -> Result<Interrupt, Error> {
        match payload {
            RawMessage::Interrupt { id } => Ok(Interrupt { id }),
            _ => Err(Error::Own(Reason::InvalidPayload)),
        }
    }

    proof fn packing_is_undone(request: Interrupt) {
    }

    fn serialize(self) -> (packed: (RawMessage, Vec<F>)) {
        (RawMessage::Interrupt { id: self.id }, Vec::new())
    }

    fn deserialize(payload: RawMessage, _fds: Vec<F>) -> (request: Result<Interrupt, Error>) {
        match payload {
            RawMessage::Interrupt { id } => Ok(Interrupt { id }),
            _ => Err(Error::Own(Reason::InvalidPayload)),
        }
    }
}

impl<F> Serializable<F> for RemoveInterrupt {
    type Payload = RawMessage;

    open spec fn payload(self) -> RawMessage {
        RawMessage::RemoveInterrupt { id: self.id }
    }

    open spec fn descriptors(self) -> Seq<F> {
        Seq::empty()
    }

    /// Descriptors are ignored.
    open spec fn unpacked(payload: RawMessage, fds: Seq<F>) -> Result<RemoveInterrupt, Error> {
        match payload {
            RawMessage::RemoveInterrupt { id } => Ok(RemoveInterrupt { id }),
            _ => Err(Error::Own(Reason::InvalidPayload)),
        }
    }

    proof fn packing_is_undone(request: RemoveInterrupt) {
    }

    fn serialize(self) -> (packed: (RawMessage, Vec<F>)) {
        (RawMessage::RemoveInterrupt { id: self.id }, Vec::new())
    }

    fn deserialize(payload: RawMessage, _fds: Vec<F>) -> (request: Result<RemoveInterrupt, Error>) {
        match payload {
            RawMessage::RemoveInterrupt { id } => Ok(RemoveInterrupt { id }),
            _ => Err(Error::Own(Reason::InvalidPayload)),
        }
    }
}

impl<F> Serializable<F> for Unregister {
    type Payload = RawMessage;

    open spec fn payload(self) -> RawMessage {
        RawMessage::Unregister { id: self.id }
    }

    open spec fn descriptors(self) -> Seq<F> {
        Seq::empty()
    }

    /// Descriptors are ignored.
    open spec fn unpacked(payload: RawMessage, fds: Seq<F>) -> Result<Unregister, Error> {
        match payload {
            RawMessage::Unregister { id } => Ok(Unregister { id }),
            _ => Err(Error::Own(Reason::InvalidPayload)),
        }
    }

    proof fn packing_is_undone(request: Unregister) {
    }

    fn serialize(self) -> (packed: (RawMessage, Vec<F>)) {
        (RawMessage::Unregister { id: self.id }, Vec::new())
    }

    fn deserialize(payload: RawMessage, _fds: Vec<F>) -> (request: Result<Unregister, Error>) {
        match payload {
            RawMessage::Unregister { id } => Ok(Unregister { id }),
            _ => Err(Error::Own(Reason::InvalidPayload)),
        }
    }
}

impl<F> Serializable<F> for LockCommand {
    type Payload = RawMessage;

    open spec fn payload(self) -> RawMessage {
        RawMessage::LockCommand { id: self.id, action: self.action, params: self.params }
    }

    open spec fn descriptors(self) -> Seq<F> {
        Seq::empty()
    }

    /// Descriptors are ignored.
    open spec fn unpacked(payload: RawMessage, fds: Seq<F>) -> Result<LockCommand, Error> {
        match payload {
            RawMessage::LockCommand { id, action, params } => Ok(LockCommand { id, action, params }),
            _ => Err(Error::Own(Reason::InvalidPayload)),
        }
    }

    proof fn packing_is_undone(request: LockCommand) {
    }

    fn serialize(self) -> (packed: (RawMessage, Vec<F>)) {
        (RawMessage::LockCommand { id: self.id, action: self.action, params: self.params }, Vec::new())
    }

    fn deserialize(payload: RawMessage, _fds: Vec<F>) -> (request: Result<LockCommand, Error>) {
        match payload {
            RawMessage::LockCommand { id, action, params } => Ok(LockCommand { id, action, params }),
            _ => Err(Error::Own(Reason::InvalidPayload)),
        }
    }
}

impl<F> Serializable<F> for Register<F> {
    type Payload = RawMessage;

    open spec fn payload(self) -> RawMessage {
        RawMessage::Register {}
    }

    /// The file.
    open spec fn descriptors(self) -> Seq<F> {
        seq![self.fd]
    }

    /// There is exactly one descriptor, which is the file.
    open spec fn unpacked(payload: RawMessage, fds: Seq<F>) -> Result<Register<F>, Error> {
        if fds.len() != 1 {
            Err(Error::Own(Reason::InvalidDescriptorCount))
        } else {
            match payload {
                RawMessage::Register {} => Ok(Register { fd: fds[0] }),
                _ => Err(Error::Own(Reason::InvalidPayload)),
            }
        }
    }

    proof fn packing_is_undone(request: Register<F>) {
    }

    fn serialize(self) -> (packed: (RawMessage, Vec<F>)) {
        let mut fds = Vec::new();
        fds.push(self.fd);
        assert(fds@ =~= seq![self.fd]);
        (RawMessage::Register {}, fds)
    }

    fn deserialize(payload: RawMessage, fds: Vec<F>) -> (request: Result<Register<F>, Error>) {
        let mut fds = fds;
        if fds.len() != 1 {
            return Err(Error::Own(Reason::InvalidDescriptorCount));
        }
        match payload {
            RawMessage::Register {} => Ok(Register { fd: fds.pop().unwrap() }),
            _ => Err(Error::Own(Reason::InvalidPayload)),
        }
    }
}

impl<F> Serializable<F> for Message<F> {
    type Payload = RawMessage;

    open spec fn payload(self) -> RawMessage {
        match self {
            Message::Ping(ping) => <Ping as Serializable<F>>::payload(ping),
            Message::Interrupt(interrupt) => <Interrupt as Serializable<F>>::payload(interrupt),
            Message::RemoveInterrupt(remove_interrupt) => {
                <RemoveInterrupt as Serializable<F>>::payload(remove_interrupt)
            },
            Message::Register(register) => <Register<F> as Serializable<F>>::payload(register),
            Message::Unregister(unregister) => <Unregister as Serializable<F>>::payload(unregister),
            Message::LockCommand(lock_command) => {
                <LockCommand as Serializable<F>>::payload(lock_command)
            },
        }
    }

    /// Only a registration has a descriptor.
    open spec fn descriptors(self) -> Seq<F> {
        match self {
            Message::Register(register) => seq![register.fd],
            _ => Seq::empty(),
        }
    }

    /// The payload decides what the request is. Descriptors are ignored, except by a registration,
    /// which needs exactly one.
    open spec fn unpacked(payload: RawMessage, fds: Seq<F>) -> Result<Message<F>, Error> {
        match payload {
            RawMessage::Ping {} => Ok(Message::Ping(Ping {})),
            RawMessage::Interrupt { id } => Ok(Message::Interrupt(Interrupt { id })),
            RawMessage::RemoveInterrupt { id } => {
                Ok(Message::RemoveInterrupt(RemoveInterrupt { id }))
            },
            RawMessage::Register {} => if fds.len() == 1 {
                Ok(Message::Register(Register { fd: fds[0] }))
            } else {
                Err(Error::Own(Reason::InvalidDescriptorCount))
            },
            RawMessage::Unregister { id } => Ok(Message::Unregister(Unregister { id })),
            RawMessage::LockCommand { id, action, params } => {
                Ok(Message::LockCommand(LockCommand { id, action, params }))
            },
        }
    }

    proof fn packing_is_undone(request: Message<F>) {
    }

    fn serialize(self) -> (packed: (RawMessage, Vec<F>)) {
        match self {
            Message::Ping(ping) => ping.serialize(),
            Message::Interrupt(interrupt) => interrupt.serialize(),
            Message::RemoveInterrupt(remove_interrupt) => remove_interrupt.serialize(),
            Message::Register(register) => register.serialize(),
            Message::Unregister(unregister) => unregister.serialize(),
            Message::LockCommand(lock_command) => lock_command.serialize(),
        }
    }

    fn deserialize(payload: RawMessage, fds: Vec<F>) -> (request: Result<Message<F>, Error>) {
        match payload {
            RawMessage::Ping {} => match Ping::deserialize(payload, fds) {
                Ok(ping) => Ok(Message::Ping(ping)),
                Err(error) => Err(error),
            },
            RawMessage::Interrupt { .. } => match Interrupt::deserialize(payload, fds) {
                Ok(interrupt) => Ok(Message::Interrupt(interrupt)),
                Err(error) => Err(error),
            },
            RawMessage::RemoveInterrupt { .. } => match RemoveInterrupt::deserialize(payload, fds) {
                Ok(remove_interrupt) => Ok(Message::RemoveInterrupt(remove_interrupt)),
                Err(error) => Err(error),
            },
            RawMessage::Register {} => match Register::deserialize(payload, fds) {
                Ok(register) => Ok(Message::Register(register)),
                Err(error) => Err(error),
            },
            RawMessage::Unregister { .. } => match Unregister::deserialize(payload, fds) {
                Ok(unregister) => Ok(Message::Unregister(unregister)),
                Err(error) => Err(error),
            },
            RawMessage::LockCommand { .. } => match LockCommand::deserialize(payload, fds) {
                Ok(lock_command) => Ok(Message::LockCommand(lock_command)),
                Err(error) => Err(error),
            },
        }
    }
}

impl<F> Serializable<F> for RequestSpawnOwner {
    type Payload = Ttl;

    open spec fn payload(self) -> Ttl {
        self.ttl
    }

    open spec fn descriptors(self) -> Seq<F> {
        Seq::empty()
    }

    /// Descriptors are ignored.
    open spec fn unpacked(payload: Ttl, fds: Seq<F>) -> Result<RequestSpawnOwner, Error> {
        Ok(RequestSpawnOwner { ttl: payload })
    }

    proof fn packing_is_undone(request: RequestSpawnOwner) {
    }

    fn serialize(self) -> (packed: (Ttl, Vec<F>)) {
        (self.ttl, Vec::new())
    }

    fn deserialize(payload: Ttl, _fds: Vec<F>) -> (request: Result<RequestSpawnOwner, Error>) {
        Ok(RequestSpawnOwner { ttl: payload })
    }
}

/// Whether `request` is what the bytes and descriptors of a frame ask for: the first descriptor is
/// the reply channel, and the others belong to the request.
pub open spec fn asks<R: Serializable<F>, F>(
    bytes: Seq<u8>,
    fds: Seq<F>,
    request: Result<(R, F), Error>,
) -> bool {
    if fds.len() == 0 {
        request == Err::<(R, F), Error>(Error::Own(Reason::NoDescriptors))
    } else {
        exists|payload: Result<R::Payload, DecodeFailure>| #[trigger]
            <R::Payload as Payload>::held(bytes, payload) && request == match payload {
                Err(failure) => Err(Error::Own(Reason::Undecodable(failure))),
                Ok(payload) => match R::unpacked(payload, fds.drop_first()) {
                    Ok(message) => Ok((message, fds[0])),
                    Err(error) => Err(error),
                },
            }
    }
}

/// Turns a request into the bytes and the descriptors of a frame. `oneshot` is the channel on which
/// the reply is expected.
pub fn pack_request<R: Serializable<F>, F>(request: R, oneshot: F) -> (packed: (Vec<u8>, Vec<F>))
    ensures
        packed.0@ == request.payload().bytes(),
        packed.1@ == seq![oneshot] + request.descriptors(),
{
    let (payload, mut fds) = request.serialize();
    let bytes = payload.to_bytes();
    fds.insert(0, oneshot);
    assert(fds@ =~= seq![oneshot] + request.descriptors());
    (bytes, fds)
}

/// Reads a request and its reply channel from a received frame.
pub fn receive_request<R: Serializable<F>, F>(
    received: Result<(Vec<u8>, Vec<F>), Error>,
) -> (request: Result<(R, F), Error>)
    ensures
        match received {
            Ok((bytes, fds)) => asks(bytes@, fds@, request),
            Err(error) => request == Err::<(R, F), Error>(error),
        },
{
    let (bytes, mut fds) = match received {
        Ok(frame) => frame,
        Err(error) => return Err(error),
    };
    if fds.is_empty() {
        return Err(Error::Own(Reason::NoDescriptors));
    }
    let ghost all = fds@;
    let payload = match <R::Payload as Payload>::from_bytes(bytes.as_slice()) {
        Ok(payload) => payload,
        Err(failure) => {
            assert(<R::Payload as Payload>::held(bytes@, Err(failure)));
            return Err(Error::Own(Reason::Undecodable(failure)));
        },
    };
    let reply_fd = fds.remove(0);
    assert(fds@ =~= all.drop_first());
    assert(<R::Payload as Payload>::held(bytes@, Ok(payload)));
    match R::deserialize(payload, fds) {
        Ok(message) => Ok((message, reply_fd)),
        Err(error) => Err(error),
    }
}

/// The receiver of a request gets the request that was sent, with its reply channel.
pub proof fn request_is_received<R: Serializable<F>, F>(
    request: R,
    oneshot: F,
    received: Result<(R, F), Error>,
)
    requires
        request.payload().sendable(),
        asks(request.payload().bytes(), seq![oneshot] + request.descriptors(), received),
    ensures
        received == Ok::<(R, F), Error>((request, oneshot)),
{
    let fds = seq![oneshot] + request.descriptors();
    let payload = choose|payload: Result<R::Payload, DecodeFailure>| #[trigger]
        <R::Payload as Payload>::held(request.payload().bytes(), payload) && received
            == match payload {
            Err(failure) => Err(Error::Own(Reason::Undecodable(failure))),
            Ok(payload) => match R::unpacked(payload, fds.drop_first()) {
                Ok(message) => Ok((message, fds[0])),
                Err(error) => Err(error),
            },
        };
    <R::Payload as Payload>::payload_is_read_back(request.payload(), payload);
    assert(fds.drop_first() =~= request.descriptors());
    R::packing_is_undone(request);
}

/// A message travels as the request that it holds, so an owner process, which reads messages,
/// understands each request.
pub proof fn message_travels_as_its_request<F>(message: Message<F>)
    ensures
        match message {
            Message::Ping(request) => message.payload() == Serializable::<F>::payload(request)
                && message.descriptors() == Serializable::<F>::descriptors(request),
            Message::Interrupt(request) => message.payload() == Serializable::<F>::payload(request)
                && message.descriptors() == Serializable::<F>::descriptors(request),
            Message::RemoveInterrupt(request) => message.payload() == Serializable::<F>::payload(
                request,
            ) && message.descriptors() == Serializable::<F>::descriptors(request),
            Message::Register(request) => message.payload() == request.payload()
                && message.descriptors() == request.descriptors(),
            Message::Unregister(request) => message.payload() == Serializable::<F>::payload(request)
                && message.descriptors() == Serializable::<F>::descriptors(request),
            Message::LockCommand(request) => message.payload() == Serializable::<F>::payload(request)
                && message.descriptors() == Serializable::<F>::descriptors(request),
        },
{
}

/// A request that is answered.
pub trait Replyable {
    /// What a favourable answer says.
    type Type: Wire;

    /// Whether a favourable answer comes with descriptors.
    spec fn answered_with_fds() -> bool;

    /// Whether a favourable answer comes with descriptors.
    fn expects_fds() -> (expected: bool)
        ensures
            expected == Self::answered_with_fds(),
    ;
}

impl Replyable for Ping {
    type Type = ();

    open spec fn answered_with_fds() -> bool {
        false
    }

    fn expects_fds() -> (expected: bool) {
        false
    }
}

impl Replyable for Interrupt {
    type Type = ();

    open spec fn answered_with_fds() -> bool {
        false
    }

    fn expects_fds() -> (expected: bool) {
        false
    }
}

impl Replyable for RemoveInterrupt {
    type Type = ();

    open spec fn answered_with_fds() -> bool {
        false
    }

    fn expects_fds() -> (expected: bool) {
        false
    }
}

impl<F> Replyable for Register<F> {
    /// The id of the file.
    type Type = u64;

    open spec fn answered_with_fds() -> bool {
        false
    }

    fn expects_fds() -> (expected: bool) {
        false
    }
}

impl Replyable for Unregister {
    type Type = ();

    open spec fn answered_with_fds() -> bool {
        false
    }

    fn expects_fds() -> (expected: bool) {
        false
    }
}

impl Replyable for LockCommand {
    type Type = ReplyLockCommandData;

    open spec fn answered_with_fds() -> bool {
        false
    }

    fn expects_fds() -> (expected: bool) {
        false
    }
}

impl Replyable for RequestSpawnOwner {
    /// The socket of the owner process comes as a descriptor.
    type Type = ();

    open spec fn answered_with_fds() -> bool {
        true
    }

    fn expects_fds() -> (expected: bool) {
        true
    }
}

/// Whether an answer is sent as `sent`: a failure goes by its number.
pub open spec fn sent_as<T>(message: Result<T, Errno>, sent: Result<T, i32>) -> bool {
    match (message, sent) {
        (Ok(value), Ok(sent)) => value == sent,
        (Err(errno), Err(number)) => errno.numbered(number),
        _ => false,
    }
}

/// Whether the number of a failure, if the answer is one, can be sent.
pub open spec fn can_be_sent<T>(message: Result<T, Errno>) -> bool {
    message matches Err(errno) ==> errno.valid()
}

/// Whether `bytes` carry an answer.
pub open spec fn carries<T: Wire>(bytes: Seq<u8>, message: Result<T, Errno>) -> bool {
    exists|sent: Result<T, i32>| #[trigger] sent_as(message, sent) && bytes == sent.layout()
}

/// The bytes of an answer that may come with descriptors.
pub fn reply_with_fds<R: Replyable>(message: Result<R::Type, Errno>) -> (bytes: Vec<u8>)
    requires
        can_be_sent(message),
    ensures
        carries(bytes@, message),
{
    let ghost answer = message;
    let sent: Result<R::Type, i32> = match message {
        Ok(value) => Ok(value),
        Err(errno) => Err(errno.raw_os_error()),
    };
    assert(sent_as(answer, sent));
    serialize(&sent)
}

/// The bytes of an answer without descriptors. A request that is answered with descriptors can only
/// be refused this way.
pub fn reply<R: Replyable>(message: Result<R::Type, Errno>) -> (bytes: Vec<u8>)
    requires
        can_be_sent(message),
        R::answered_with_fds() ==> message is Err,
    ensures
        carries(bytes@, message),
{
    reply_with_fds::<R>(message)
}

/// What a reply channel yields: nothing where the peer has closed it, else an answer with its
/// descriptors, the number of a failure, or why the answer could not be received.
pub type Item<T, F> = Option<Result<Result<(T, Vec<F>), i32>, Error>>;

/// Whether `item` is what bytes with descriptors say in answer to a request.
pub open spec fn answers<R: Replyable, F>(bytes: Seq<u8>, fds: Vec<F>, item: Item<R::Type, F>) -> bool {
    exists|read: Result<Result<R::Type, i32>, DecodeFailure>| #[trigger]
        begins(bytes, read) && item == match read {
            Err(failure) => Some(Err(Error::Own(Reason::Undecodable(failure)))),
            Ok(Err(number)) => Some(Ok(Err(number))),
            Ok(Ok(value)) => Some(Ok(Ok((value, fds)))),
        }
}

/// What a reply channel yields where no frame was received. A closed channel is no failure.
pub open spec fn unreceived<T, F>(error: Error) -> Item<T, F> {
    if error.kind() == ErrorKind::BrokenPipe {
        None
    } else {
        Some(Err(error))
    }
}

/// Reads an answer from a received frame.
pub fn next_reply<R: Replyable, F>(
    received: Result<(Vec<u8>, Vec<F>), Error>,
) -> (item: Item<R::Type, F>)
    ensures
        match received {
            Ok((bytes, fds)) => answers::<R, F>(bytes@, fds, item),
            Err(error) => item == unreceived::<R::Type, F>(error),
        },
{
    let (bytes, fds) = match received {
        Ok(frame) => frame,
        Err(error) => {
            if error.kind() == ErrorKind::BrokenPipe {
                return None;
            }
            return Some(Err(error));
        },
    };
    let read: Result<Result<R::Type, i32>, DecodeFailure> = deserialize(bytes.as_slice());
    assert(begins(bytes@, read));
    match read {
        Ok(Ok(value)) => Some(Ok(Ok((value, fds)))),
        Ok(Err(number)) => Some(Ok(Err(number))),
        Err(failure) => Some(Err(Error::Own(Reason::Undecodable(failure)))),
    }
}

/// The asker gets the answer that was given: the value and its descriptors, or the number of the
/// failure.
pub proof fn answer_is_received<R: Replyable, F>(
    message: Result<R::Type, Errno>,
    bytes: Seq<u8>,
    fds: Vec<F>,
    item: Item<R::Type, F>,
)
    requires
        carries(bytes, message),
        answers::<R, F>(bytes, fds, item),
    ensures
        match message {
            Ok(value) => item == Some(Ok::<_, Error>(Ok::<_, i32>((value, fds)))),
            Err(errno) => item matches Some(Ok(Err(number))) && errno.numbered(number),
        },
{
    let sent = choose|sent: Result<R::Type, i32>| #[trigger]
        sent_as(message, sent) && bytes == sent.layout();
    let read = choose|read: Result<Result<R::Type, i32>, DecodeFailure>| #[trigger]
        begins(bytes, read) && item == match read {
            Err(failure) => Some(Err(Error::Own(Reason::Undecodable(failure)))),
            Ok(Err(number)) => Some(Ok(Err(number))),
            Ok(Ok(value)) => Some(Ok(Ok((value, fds)))),
        };
    assert(sent.layout() + Seq::empty() =~= sent.layout());
    value_is_read_back(sent, Seq::empty(), read);
}

/// The answer to a request that expects a single one. `closed` is the failure where there is none.
pub fn sole_reply<T>(
    next: Option<Result<Result<T, Error>, Error>>,
    closed: Reason,
) -> (reply: Result<Result<T, Error>, Error>)
    ensures
        reply == (match next {
            Some(item) => item,
            None => Err(Error::Own(closed)),
        }),
{
    match next {
        Some(item) => item,
        None => Err(Error::Own(closed)),
    }
}

/// An answer without its descriptors.
pub fn discard_fds<T, F>(item: Item<T, F>) -> (bare: Option<Result<Result<T, i32>, Error>>)
    ensures
        bare == (match item {
            None => None,
            Some(Err(error)) => Some(Err(error)),
            Some(Ok(Err(number))) => Some(Ok(Err(number))),
            Some(Ok(Ok((value, fds)))) => Some(Ok(Ok(value))),
        }),
{
    match item {
        None => None,
        Some(Err(error)) => Some(Err(error)),
        Some(Ok(Err(number))) => Some(Ok(Err(number))),
        Some(Ok(Ok((value, _fds)))) => Some(Ok(Ok(value))),
    }
}

} // verus!
