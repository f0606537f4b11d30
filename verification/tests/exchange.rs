use ulockmgr::error::{DecodeFailure, Errno, Error, ErrorKind, Reason};
use ulockmgr::frame::{
    check_sent, frame_header, AfterPeek, AfterRead, Ancillary, Peek, Read, HEADER_SIZE,
};
use ulockmgr::messages::{
    discard_fds, next_reply, pack_request, receive_request, reply, reply_with_fds, sole_reply,
    Interrupt, Item, LockCommand, Message, Payload, Ping, RawMessage, Register, RemoveInterrupt,
    ReplyLockCommandData, RequestSpawnOwner, Unregister,
};
use ulockmgr::types::{LockAction, LockParams, LockType, LockWhence, Ttl};

fn params() -> LockParams {
    LockParams {
        lock_type: LockType::Write,
        whence: LockWhence::Start,
        start: 1,
        len: 2,
        pid: 3,
    }
}

fn failure() -> Error {
    Error::Os { errno: libc::EIO, kind: ErrorKind::Unlisted }
}

fn undecodable() -> Error {
    Error::Own(Reason::Undecodable(DecodeFailure::EndOfInput))
}

fn received(bytes: Vec<u8>, fds: Vec<u8>) -> Result<(Message<u8>, u8), Error> {
    receive_request(Ok((bytes, fds)))
}

#[test]
fn a_frame_starts_with_its_size() {
    let header = frame_header(3, 258);
    assert_eq!(header.len(), HEADER_SIZE);
    assert_eq!(header[..8], 3u64.to_ne_bytes());
    assert_eq!(header[8..], 258u64.to_ne_bytes());
}

#[test]
fn a_frame_size_is_received() {
    let mut header = [0u8; 16];
    header.copy_from_slice(&frame_header(1000, 2));
    assert_eq!(
        Peek::new().peeked(Ok((16, header))),
        AfterPeek::Go(Read { retried: false, bytes: 1000, descriptors: 2 })
    );
    assert_eq!(
        Peek { retried: true }.peeked(Ok((16, header))),
        AfterPeek::Go(Read { retried: false, bytes: 1000, descriptors: 2 })
    );
}

#[test]
fn a_closed_socket_is_believed_the_second_time() {
    let first = Peek::new();
    let again = Peek { retried: true };
    assert_eq!(first.peeked(Ok((0, [0; 16]))), AfterPeek::Again(again));
    let terminated = Error::Own(Reason::ConnectionTerminated);
    assert_eq!(again.peeked(Ok((0, [0; 16]))), AfterPeek::Failed(terminated));
    assert_eq!(terminated.kind(), ErrorKind::BrokenPipe);

    let read = Read { retried: false, bytes: 4, descriptors: 0 };
    let again = Read { retried: true, bytes: 4, descriptors: 0 };
    assert!(matches!(
        read.read::<u8>(Ok((0, vec![], vec![]))),
        AfterRead::Again(next) if next == again
    ));
    assert!(matches!(
        again.read::<u8>(Ok((0, vec![], vec![]))),
        AfterRead::Failed(error) if error == terminated
    ));
}

#[test]
fn a_short_frame_is_refused() {
    let short = Error::Own(Reason::ShortMessageReceived);
    assert_eq!(Peek::new().peeked(Ok((15, [0; 16]))), AfterPeek::Failed(short));
    let read = Read { retried: false, bytes: 4, descriptors: 0 };
    for count in [1, 16, 19, 21, usize::MAX] {
        assert!(matches!(
            read.read::<u8>(Ok((count, vec![0; 4], vec![]))),
            AfterRead::Failed(error) if error == short
        ));
    }
    assert_eq!(short.kind(), ErrorKind::UnexpectedEof);
}

#[test]
fn failures_to_receive_are_passed_on() {
    assert_eq!(Peek::new().peeked(Err(failure())), AfterPeek::Failed(failure()));
    let read = Read { retried: false, bytes: 4, descriptors: 0 };
    assert!(matches!(
        read.read::<u8>(Err(failure())),
        AfterRead::Failed(error) if error == failure()
    ));
}

#[test]
fn a_frame_is_received_with_its_descriptors() {
    let read = Read { retried: false, bytes: 2, descriptors: 3 };
    let control = vec![Ancillary::Rights(vec![7u8, 8]), Ancillary::Rights(vec![9])];
    match read.read(Ok((18, vec![1, 2], control))) {
        AfterRead::Done(bytes, fds) => {
            assert_eq!(bytes, vec![1, 2]);
            assert_eq!(fds, vec![7, 8, 9]);
        }
        other => panic!("{:?}", other),
    }
}

#[test]
fn control_data_must_be_the_announced_descriptors() {
    let read = Read { retried: false, bytes: 0, descriptors: 2 };
    let missing = Error::Own(Reason::NotEnoughFiles);
    assert!(matches!(
        read.read(Ok((16, vec![], vec![Ancillary::Rights(vec![7u8])]))),
        AfterRead::Failed(error) if error == missing
    ));
    assert!(matches!(
        read.read(Ok((16, vec![], vec![Ancillary::Rights(vec![7u8, 8, 9])]))),
        AfterRead::Failed(error) if error == missing
    ));
    let unexpected = Error::Own(Reason::UnexpectedAncillary);
    assert!(matches!(
        read.read(Ok((16, vec![], vec![Ancillary::Rights(vec![7u8, 8]), Ancillary::Other]))),
        AfterRead::Failed(error) if error == unexpected
    ));
    assert_eq!(unexpected.kind(), ErrorKind::InvalidData);
}

#[test]
fn a_frame_must_go_out_whole() {
    assert_eq!(check_sent(Ok(20), 4), Ok(()));
    assert_eq!(check_sent(Ok(19), 4), Err(Error::Own(Reason::ShortMessageSent)));
    assert_eq!(check_sent(Ok(0), 4), Err(Error::Own(Reason::ShortMessageSent)));
    assert_eq!(check_sent(Ok(3), usize::MAX), Err(Error::Own(Reason::ShortMessageSent)));
    assert_eq!(check_sent(Err(failure()), 4), Err(failure()));
}

#[test]
fn requests_are_received_as_messages() {
    let (bytes, fds) = pack_request(Ping {}, 1u8);
    assert_eq!(fds, vec![1]);
    assert!(matches!(received(bytes, fds), Ok((Message::Ping(Ping {}), 1))));

    let (bytes, fds) = pack_request(Interrupt { id: 5 }, 2u8);
    assert!(matches!(received(bytes, fds), Ok((Message::Interrupt(Interrupt { id: 5 }), 2))));

    let (bytes, fds) = pack_request(RemoveInterrupt { id: 6 }, 3u8);
    assert!(matches!(
        received(bytes, fds),
        Ok((Message::RemoveInterrupt(RemoveInterrupt { id: 6 }), 3))
    ));

    let (bytes, fds) = pack_request(Register { fd: 9u8 }, 4u8);
    assert_eq!(fds, vec![4, 9]);
    assert!(matches!(received(bytes, fds), Ok((Message::Register(Register { fd: 9 }), 4))));

    let (bytes, fds) = pack_request(Unregister { id: 7 }, 5u8);
    assert!(matches!(received(bytes, fds), Ok((Message::Unregister(Unregister { id: 7 }), 5))));

    let command = LockCommand { id: 8, action: LockAction::SetLockBlocking, params: params() };
    let (bytes, fds) = pack_request(command, 6u8);
    assert!(matches!(
        received(bytes, fds),
        Ok((Message::LockCommand(found), 6)) if found == command
    ));
}

#[test]
fn messages_travel_like_the_requests_they_hold() {
    let (inner, _) = pack_request(Unregister { id: 7 }, 5u8);
    let (outer, fds) = pack_request(Message::Unregister(Unregister { id: 7 }), 5u8);
    assert_eq!(inner, outer);
    assert_eq!(fds, vec![5]);
    let (outer, fds) = pack_request(Message::Register(Register { fd: 2u8 }), 5u8);
    assert_eq!(outer, RawMessage::Register {}.to_bytes());
    assert_eq!(fds, vec![5, 2]);
}

#[test]
fn spawn_requests_are_received() {
    let ttl = Ttl { secs: 3, nanos: 4 };
    let (bytes, fds) = pack_request(RequestSpawnOwner::new(ttl), 1u8);
    let request: Result<(RequestSpawnOwner, u8), Error> = receive_request(Ok((bytes, fds)));
    assert_eq!(request, Ok((RequestSpawnOwner { ttl }, 1)));
}

#[test]
fn a_request_needs_a_reply_channel() {
    let ping = RawMessage::Ping {}.to_bytes();
    assert_eq!(received(ping, vec![]).unwrap_err(), Error::Own(Reason::NoDescriptors));
}

#[test]
fn nonsense_is_no_request() {
    assert_eq!(received(vec![1, 2], vec![1]).unwrap_err(), undecodable());
    assert_eq!(received(vec![], vec![1]).unwrap_err(), undecodable());
}

#[test]
fn a_registration_has_one_descriptor() {
    let bytes = RawMessage::Register {}.to_bytes();
    let wrong = Error::Own(Reason::InvalidDescriptorCount);
    assert_eq!(received(bytes.clone(), vec![1]).unwrap_err(), wrong);
    assert_eq!(received(bytes, vec![1, 2, 3]).unwrap_err(), wrong);
}

#[test]
fn a_payload_of_another_request_is_refused() {
    let bytes = RawMessage::Register {}.to_bytes();
    let request: Result<(Ping, u8), Error> = receive_request(Ok((bytes, vec![1])));
    assert_eq!(request, Err(Error::Own(Reason::InvalidPayload)));
    let bytes = RawMessage::Ping {}.to_bytes();
    let request: Result<(Register<u8>, u8), Error> = receive_request(Ok((bytes, vec![1, 2])));
    assert_eq!(request.unwrap_err(), Error::Own(Reason::InvalidPayload));
    let request: Result<(Ping, u8), Error> = receive_request(Err(failure()));
    assert_eq!(request, Err(failure()));
}

#[test]
fn answers_are_received() {
    let bytes = reply::<Register<u8>>(Ok(12));
    assert_eq!(bytes, bincode::serialize(&Ok::<u64, i32>(12)).unwrap());
    let item: Item<u64, u8> = next_reply::<Register<u8>, u8>(Ok((bytes, vec![])));
    assert_eq!(item, Some(Ok(Ok((12, vec![])))));

    let data = ReplyLockCommandData::Done(params());
    let bytes = reply::<LockCommand>(Ok(data));
    let item: Item<ReplyLockCommandData, u8> = next_reply::<LockCommand, u8>(Ok((bytes, vec![])));
    assert_eq!(discard_fds(item), Some(Ok(Ok(data))));

    for bytes in [
        reply::<Ping>(Ok(())),
        reply::<Interrupt>(Ok(())),
        reply::<RemoveInterrupt>(Ok(())),
        reply::<Unregister>(Ok(())),
    ] {
        assert_eq!(next_reply::<Ping, u8>(Ok((bytes, vec![]))), Some(Ok(Ok(((), vec![])))));
    }
}

#[test]
fn refusals_are_received_as_numbers() {
    let bytes = reply::<Register<u8>>(Err(Errno::NoEnt));
    let item = next_reply::<Register<u8>, u8>(Ok((bytes, vec![])));
    assert_eq!(discard_fds(item), Some(Ok(Err(libc::ENOENT))));
    let bytes = reply::<LockCommand>(Err(Errno::Raw(libc::EINTR)));
    let item = next_reply::<LockCommand, u8>(Ok((bytes, vec![])));
    assert_eq!(discard_fds(item), Some(Ok(Err(libc::EINTR))));
}

#[test]
fn a_spawned_owner_is_answered_with_its_socket() {
    let bytes = reply_with_fds::<RequestSpawnOwner>(Ok(()));
    let item = next_reply::<RequestSpawnOwner, u8>(Ok((bytes, vec![7])));
    assert_eq!(item, Some(Ok(Ok(((), vec![7])))));
}

#[test]
fn a_refused_spawn_is_answered_with_its_number() {
    let bytes = reply::<RequestSpawnOwner>(Err(Errno::Raw(libc::EMFILE)));
    assert_eq!(bytes, bincode::serialize(&Err::<(), i32>(libc::EMFILE)).unwrap());
    let item = next_reply::<RequestSpawnOwner, u8>(Ok((bytes, vec![])));
    assert_eq!(discard_fds(item), Some(Ok(Err(libc::EMFILE))));
}

#[test]
fn a_closed_reply_channel_yields_nothing() {
    let closed = Error::Own(Reason::ConnectionTerminated);
    assert_eq!(next_reply::<Ping, u8>(Err(closed)), None);
    let pipe = Error::Os { errno: libc::EPIPE, kind: ErrorKind::BrokenPipe };
    assert_eq!(next_reply::<Ping, u8>(Err(pipe)), None);
    assert_eq!(next_reply::<Ping, u8>(Err(failure())), Some(Err(failure())));
    assert_eq!(
        next_reply::<Ping, u8>(Ok((vec![9], vec![]))),
        Some(Err(undecodable()))
    );
}

#[test]
fn a_single_answer_is_expected() {
    assert_eq!(sole_reply(Some(Ok(Ok(4u8))), Reason::RequestClosed), Ok(Ok(4)));
    assert_eq!(sole_reply::<u8>(Some(Err(failure())), Reason::RequestClosed), Err(failure()));
    assert_eq!(
        sole_reply::<u8>(None, Reason::RequestClosed),
        Err(Error::Own(Reason::RequestClosed))
    );
    assert_eq!(
        sole_reply::<u8>(None, Reason::RequestWithFdsClosed),
        Err(Error::Own(Reason::RequestWithFdsClosed))
    );
}
