//! Frames: how a payload and descriptors travel over a socket.
//!
//! A frame is the length of its payload, the number of its descriptors and the payload. The two
//! numbers take eight bytes each, in the byte order of the machine. The descriptors travel beside the
//! bytes, as control data. A receiver first peeks at the two numbers, makes room, and then reads the
//! whole frame.

use crate::error::{Error, Reason};
use vstd::bytes::{
    lemma_auto_spec_u64_to_from_le_bytes, spec_u64_from_le_bytes, spec_u64_to_le_bytes,
};
use vstd::endian::{endianness, Endian};
use vstd::prelude::*;

verus! {

/// The size of the two numbers at the start of a frame.
pub const HEADER_SIZE: usize = 16;

/// The bytes of a number, in the byte order of the machine.
pub open spec fn native_bytes(value: u64) -> Seq<u8> {
    match endianness() {
        Endian::Little => spec_u64_to_le_bytes(value),
        Endian::Big => spec_u64_to_le_bytes(value).reverse(),
    }
}

/// The number with some bytes, in the byte order of the machine.
pub open spec fn native_value(bytes: Seq<u8>) -> u64 {
    match endianness() {
        Endian::Little => spec_u64_from_le_bytes(bytes),
        Endian::Big => spec_u64_from_le_bytes(bytes.reverse()),
    }
}

/// `u64::to_ne_bytes`: the bytes of a number in the byte order of the machine.
#[verifier::external_body]
fn to_native(value: u64) -> (bytes: [u8; 8])
    ensures
        bytes@ == native_bytes(value),
{
    value.to_ne_bytes()
}

/// `u64::from_ne_bytes`: the number with these bytes in the byte order of the machine.
#[verifier::external_body]
fn from_native(bytes: [u8; 8]) -> (value: u64)
    ensures
        value == native_value(bytes@),
{
    u64::from_ne_bytes(bytes)
}

/// A number is read back from its bytes.
pub proof fn native_value_is_read_back(value: u64)
    ensures
        native_bytes(value).len() == 8,
        native_value(native_bytes(value)) == value,
{
    lemma_auto_spec_u64_to_from_le_bytes();
    let bytes = spec_u64_to_le_bytes(value);
    assert(bytes.len() == 8);
    assert(bytes.reverse().reverse() =~= bytes);
}

/// The start of a frame.
pub open spec fn header_bytes(bytes: u64, descriptors: u64) -> Seq<u8> {
    native_bytes(bytes) + native_bytes(descriptors)
}

/// The start of a frame with a payload of this length and this number of descriptors.
pub fn frame_header(bytes: usize, descriptors: usize) -> (header: Vec<u8>)
    ensures
        header@ == header_bytes(bytes as u64, descriptors as u64),
        header@.len() == HEADER_SIZE,
{
    proof {
        native_value_is_read_back(bytes as u64);
        native_value_is_read_back(descriptors as u64);
    }
    let buffer_length = to_native(bytes as u64);
    let fd_length = to_native(descriptors as u64);
    let mut header: Vec<u8> = Vec::new();
    for i in 0..8usize
        invariant
            header@ == buffer_length@.take(i as int),
    {
        header.push(buffer_length[i]);
        assert(buffer_length@.take(i + 1) =~= buffer_length@.take(i as int).push(
            buffer_length@[i as int],
        ));
    }
    assert(header@ =~= buffer_length@);
    for i in 0..8usize
        invariant
            header@ == buffer_length@ + fd_length@.take(i as int),
    {
        header.push(fd_length[i]);
        assert(fd_length@.take(i + 1) =~= fd_length@.take(i as int).push(fd_length@[i as int]));
    }
    assert(header@ =~= buffer_length@ + fd_length@);
    header
}

/// Whether a frame with a payload of `bytes` has `count` bytes.
pub open spec fn is_whole(count: usize, bytes: usize) -> bool {
    count == HEADER_SIZE + bytes
}

/// Judges an attempt to send a frame: it fails unless the whole frame went out.
pub fn check_sent(sent: Result<usize, Error>, bytes: usize) -> (outcome: Result<(), Error>)
    ensures
        outcome == (match sent {
            Err(error) => Err(error),
            Ok(count) => if is_whole(count, bytes) {
                Ok(())
            } else {
                Err(Error::Own(Reason::ShortMessageSent))
            },
        }),
{
    match sent {
        Err(error) => Err(error),
        Ok(count) => if count >= HEADER_SIZE && count - HEADER_SIZE == bytes {
            Ok(())
        } else {
            Err(Error::Own(Reason::ShortMessageSent))
        },
    }
}

/// An item of control data.
#[derive(Debug)]
pub enum Ancillary<F> {
    /// Descriptors.
    Rights(Vec<F>),
    /// Anything else.
    Other,
}

/// The descriptors among control data, in order.
pub open spec fn rights<F>(control: Seq<Ancillary<F>>) -> Seq<F>
    decreases control.len(),
{
    if control.len() == 0 {
        Seq::empty()
    } else {
        (match control[0] {
            Ancillary::Rights(fds) => fds@,
            Ancillary::Other => Seq::empty(),
        }) + rights(control.drop_first())
    }
}

/// Whether control data holds anything but descriptors.
pub open spec fn has_other<F>(control: Seq<Ancillary<F>>) -> bool {
    exists|i: int| 0 <= i < control.len() && #[trigger] control[i] is Other
}

/// The next step of a receiver that waits for the start of a frame.
#[derive(Debug, Clone, Copy, PartialEq, Eq, Structural)]
pub struct Peek {
    /// Whether an earlier attempt found nothing.
    pub retried: bool,
}

/// The next step of a receiver that knows the size of a frame.
#[derive(Debug, Clone, Copy, PartialEq, Eq, Structural)]
pub struct Read {
    /// Whether an earlier attempt found nothing.
    pub retried: bool,
    /// The length of the payload.
    pub bytes: usize,
    /// The number of descriptors.
    pub descriptors: usize,
}

/// What follows an attempt to peek at the start of a frame.
#[derive(Debug, Clone, Copy, PartialEq, Eq, Structural)]
pub enum AfterPeek {
    /// Peek again.
    Again(Peek),
    /// Read the frame.
    Go(Read),
    /// Give up.
    Failed(Error),
}

/// What follows an attempt to read a frame.
#[derive(Debug)]
pub enum AfterRead<F> {
    /// Read again.
    Again(Read),
    /// The payload and the descriptors.
    Done(Vec<u8>, Vec<F>),
    /// Give up.
    Failed(Error),
}

impl Peek {
    /// What follows an attempt to peek: `count` bytes were found, and they begin `header`.
    ///
    /// A closed socket is only believed the second time.
    pub open spec fn spec_peeked(self, found: Result<(usize, [u8; 16]), Error>) -> AfterPeek {
        match found {
            Err(error) => AfterPeek::Failed(error),
            Ok((count, header)) => if count == 0 {
                if self.retried {
                    AfterPeek::Failed(Error::Own(Reason::ConnectionTerminated))
                } else {
                    AfterPeek::Again(Peek { retried: true })
                }
            } else if count != HEADER_SIZE {
                AfterPeek::Failed(Error::Own(Reason::ShortMessageReceived))
            } else {
                let bytes = native_value(header@.subrange(0, 8));
                let descriptors = native_value(header@.subrange(8, 16));
                if bytes > usize::MAX || descriptors > usize::MAX {
                    AfterPeek::Failed(Error::Own(Reason::LengthOutOfRange))
                } else {
                    AfterPeek::Go(
                        Read {
                            retried: false,
                            bytes: bytes as usize,
                            descriptors: descriptors as usize,
                        },
                    )
                }
            },
        }
    }

    /// The first step of a receiver.
    pub fn new() -> (peek: Peek)
        ensures
            peek == (Peek { retried: false }),
    {
        Peek { retried: false }
    }

    /// Decides what follows an attempt to peek.
    pub fn peeked(self, found: Result<(usize, [u8; 16]), Error>) -> (next: AfterPeek)
        ensures
            next == self.spec_peeked(found),
    {
        let (count, header) = match found {
            Ok(found) => found,
            Err(error) => return AfterPeek::Failed(error),
        };
        if count == 0 {
            if self.retried {
                return AfterPeek::Failed(Error::Own(Reason::ConnectionTerminated));
            }
            return AfterPeek::Again(Peek { retried: true });
        }
        if count != HEADER_SIZE {
            return AfterPeek::Failed(Error::Own(Reason::ShortMessageReceived));
        }
        let buffer_length = [
            header[0], header[1], header[2], header[3], header[4], header[5], header[6], header[7],
        ];
        let fd_length = [
            header[8], header[9], header[10], header[11], header[12], header[13], header[14],
            header[15],
        ];
        assert(buffer_length@ =~= header@.subrange(0, 8));
        assert(fd_length@ =~= header@.subrange(8, 16));
        let bytes = from_native(buffer_length);
        let descriptors = from_native(fd_length);
        if bytes > usize::MAX as u64 || descriptors > usize::MAX as u64 {
            return AfterPeek::Failed(Error::Own(Reason::LengthOutOfRange));
        }
        AfterPeek::Go(
            Read { retried: false, bytes: bytes as usize, descriptors: descriptors as usize },
        )
    }
}

/// Collects the descriptors of control data.
fn collect_rights<F>(items: Vec<Ancillary<F>>) -> (fds: Option<Vec<F>>)
    ensures
        match fds {
            Some(fds) => !has_other(items@) && fds@ == rights(items@),
            None => has_other(items@),
        },
{
    let ghost all = items@;
    let ghost mut done: int = 0;
    let mut control = items;
    let mut fds: Vec<F> = Vec::new();
    assert(control@ =~= all.skip(0));
    while control.len() > 0
        invariant
            all == items@,
            0 <= done <= all.len(),
            control@ == all.skip(done),
            forall|i: int| 0 <= i < done ==> !(#[trigger] all[i] is Other),
            fds@ + rights(control@) == rights(all),
        decreases control.len(),
    {
        let ghost before = control@;
        match control.remove(0) {
            Ancillary::Rights(mut received) => {
                let ghost collected = fds@;
                let ghost new = received@;
                fds.append(&mut received);
                proof {
                    assert(control@ =~= before.drop_first());
                    assert(collected + (new + rights(control@)) =~= fds@ + rights(control@));
                    assert(all[done] == before[0]);
                    done = done + 1;
                    assert(control@ =~= all.skip(done));
                }
            },
            Ancillary::Other => {
                assert(all[done] is Other);
                return None;
            },
        }
    }
    assert(fds@ =~= rights(all));
    Some(fds)
}

impl Read {
    /// Whether `next` follows an attempt to read: `count` bytes were found, with a payload and
    /// control data.
    ///
    /// A closed socket is only believed the second time.
    pub open spec fn follows<F>(
        self,
        found: Result<(usize, Vec<u8>, Vec<Ancillary<F>>), Error>,
        next: AfterRead<F>,
    ) -> bool {
        match found {
            Err(error) => next == AfterRead::<F>::Failed(error),
            Ok((count, payload, control)) => if count == 0 {
                if self.retried {
                    next == AfterRead::<F>::Failed(Error::Own(Reason::ConnectionTerminated))
                } else {
                    next == AfterRead::<F>::Again(Read { retried: true, ..self })
                }
            } else if !is_whole(count, self.bytes) {
                next == AfterRead::<F>::Failed(Error::Own(Reason::ShortMessageReceived))
            } else if has_other(control@) {
                next == AfterRead::<F>::Failed(Error::Own(Reason::UnexpectedAncillary))
            } else if rights(control@).len() != self.descriptors {
                next == AfterRead::<F>::Failed(Error::Own(Reason::NotEnoughFiles))
            } else {
                next matches AfterRead::Done(bytes, fds) && bytes@ == payload@ && fds@ == rights(
                    control@,
                )
            },
        }
    }

    /// Decides what follows an attempt to read.
    pub fn read<F>(
        self,
        found: Result<(usize, Vec<u8>, Vec<Ancillary<F>>), Error>,
    ) -> (next: AfterRead<F>)
        ensures
            self.follows(found, next),
    {
        let (count, payload, control) = match found {
            Ok(found) => found,
            Err(error) => return AfterRead::Failed(error),
        };
        if count == 0 {
            if self.retried {
                return AfterRead::Failed(Error::Own(Reason::ConnectionTerminated));
            }
            return AfterRead::Again(
                Read { retried: true, bytes: self.bytes, descriptors: self.descriptors },
            );
        }
        if count < HEADER_SIZE || count - HEADER_SIZE != self.bytes {
            return AfterRead::Failed(Error::Own(Reason::ShortMessageReceived));
        }
        let fds = match collect_rights(control) {
            Some(fds) => fds,
            None => return AfterRead::Failed(Error::Own(Reason::UnexpectedAncillary)),
        };
        if fds.len() != self.descriptors {
            return AfterRead::Failed(Error::Own(Reason::NotEnoughFiles));
        }
        AfterRead::Done(payload, fds)
    }
}

/// The receiver of a frame makes room for exactly what was sent.
pub proof fn frame_size_is_received(peek: Peek, bytes: usize, descriptors: usize, header: [u8; 16])
    requires
        header@ == header_bytes(bytes as u64, descriptors as u64),
    ensures
        peek.spec_peeked(Ok((HEADER_SIZE, header))) == AfterPeek::Go(
            Read { retried: false, bytes, descriptors },
        ),
{
    native_value_is_read_back(bytes as u64);
    native_value_is_read_back(descriptors as u64);
    assert(header@.subrange(0, 8) =~= native_bytes(bytes as u64));
    assert(header@.subrange(8, 16) =~= native_bytes(descriptors as u64));
}

/// The receiver of a whole frame gets the payload and the descriptors that were sent.
pub proof fn frame_is_received<F>(
    read: Read,
    payload: Vec<u8>,
    control: Vec<Ancillary<F>>,
    fds: Seq<F>,
    count: usize,
    next: AfterRead<F>,
)
    requires
        read.bytes == payload@.len(),
        read.descriptors == fds.len(),
        is_whole(count, read.bytes),
        !has_other(control@),
        rights(control@) == fds,
        read.follows(Ok((count, payload, control)), next),
    ensures
        next matches AfterRead::Done(bytes, received) && bytes@ == payload@ && received@ == fds,
{
}

/// A socket that stays silent twice is taken as closed, whether the receiver waits for the start of a
/// frame or for the frame itself.
pub proof fn second_silence_ends<F>(
    peek: Peek,
    peek_again: Peek,
    headers: ([u8; 16], [u8; 16]),
    read: Read,
    read_again: Read,
    payload: Vec<u8>,
    control: Vec<Ancillary<F>>,
    next: AfterRead<F>,
)
    requires
        peek.spec_peeked(Ok((0, headers.0))) == AfterPeek::Again(peek_again),
        read.follows(Ok((0, payload, control)), AfterRead::<F>::Again(read_again)),
        read_again.follows(Ok((0, payload, control)), next),
    ensures
        peek_again.spec_peeked(Ok((0, headers.1))) == AfterPeek::Failed(
            Error::Own(Reason::ConnectionTerminated),
        ),
        next == AfterRead::<F>::Failed(Error::Own(Reason::ConnectionTerminated)),
{
}

} // verus!
