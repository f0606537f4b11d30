use ulockmgr::error::{DecodeFailure, Error, ErrorKind, Reason};
use ulockmgr::messages::{Payload, RawMessage, ReplyLockCommandData};
use ulockmgr::types::{LockAction, LockParams, LockType, LockWhence, Ttl};
use ulockmgr::wire::{deserialize, serialize, Wire};

fn sample() -> LockParams {
    LockParams {
        lock_type: LockType::Write,
        whence: LockWhence::End,
        start: -2,
        len: 300,
        pid: 77,
    }
}

/// The fields of `sample`, as a tuple that a general encoder understands.
fn sample_fields() -> (u32, u32, i64, i64, i32) {
    (1, 2, -2, 300, 77)
}

fn reads_back<T: Wire + PartialEq + std::fmt::Debug>(value: T) {
    let mut bytes = serialize(&value);
    assert_eq!(deserialize::<T>(&bytes), Ok(value));
    let short = bytes.len().saturating_sub(1);
    if !bytes.is_empty() {
        assert_eq!(deserialize::<T>(&bytes[..short]), Err(DecodeFailure::EndOfInput));
    }
    let value: Result<T, DecodeFailure> = deserialize(&bytes);
    bytes.extend_from_slice(&[1, 2, 3]);
    assert_eq!(deserialize::<T>(&bytes), value);
}

#[test]
fn ping_is_four_zero_bytes() {
    assert_eq!(RawMessage::Ping {}.to_bytes(), vec![0, 0, 0, 0]);
}

#[test]
fn integers_are_written_lowest_byte_first() {
    assert_eq!(serialize(&0x0102_0304u32), vec![4, 3, 2, 1]);
    assert_eq!(serialize(&0x0102_0304_0506_0708u64), vec![8, 7, 6, 5, 4, 3, 2, 1]);
    assert_eq!(serialize(&-2i32), vec![0xfe, 0xff, 0xff, 0xff]);
    assert_eq!(serialize(&-2i64), vec![0xfe, 0xff, 0xff, 0xff, 0xff, 0xff, 0xff, 0xff]);
    assert_eq!(serialize(&()), Vec::<u8>::new());
}

#[test]
fn integers_are_encoded_as_by_bincode() {
    for value in [0u32, 1, 255, 256, u32::MAX] {
        assert_eq!(serialize(&value), bincode::serialize(&value).unwrap());
    }
    for value in [0u64, 1, u64::from(u32::MAX) + 1, u64::MAX] {
        assert_eq!(serialize(&value), bincode::serialize(&value).unwrap());
    }
    for value in [i32::MIN, -1, 0, i32::MAX] {
        assert_eq!(serialize(&value), bincode::serialize(&value).unwrap());
    }
    for value in [i64::MIN, -1, 0, i64::MAX] {
        assert_eq!(serialize(&value), bincode::serialize(&value).unwrap());
    }
}

#[test]
fn values_are_read_back() {
    reads_back(7u32);
    reads_back(u64::MAX);
    reads_back(i32::MIN);
    reads_back(i64::MIN);
    reads_back((3u32, 4u64));
    reads_back(Ok::<u64, i32>(9));
    reads_back(Err::<u64, i32>(-9));
    reads_back(LockAction::GetLockStatus);
    reads_back(LockType::Unlock);
    reads_back(LockWhence::Current);
    reads_back(sample());
    reads_back(ReplyLockCommandData::Pending(5));
    reads_back(ReplyLockCommandData::Done(sample()));
    reads_back(RawMessage::LockCommand {
        id: 1,
        action: LockAction::SetLockBlocking,
        params: sample(),
    });
    assert_eq!(deserialize::<()>(&[]), Ok(()));
}

#[test]
fn structures_are_encoded_as_by_bincode() {
    assert_eq!(serialize(&sample()), bincode::serialize(&sample_fields()).unwrap());
    assert_eq!(
        serialize(&Ok::<u64, i32>(12)),
        bincode::serialize(&Ok::<u64, i32>(12)).unwrap()
    );
    assert_eq!(
        serialize(&Err::<u64, i32>(13)),
        bincode::serialize(&Err::<u64, i32>(13)).unwrap()
    );
    assert_eq!(
        serialize(&ReplyLockCommandData::Pending(3)),
        bincode::serialize(&(0u32, 3u64)).unwrap()
    );
    assert_eq!(
        serialize(&ReplyLockCommandData::Done(sample())),
        bincode::serialize(&(1u32, sample_fields())).unwrap()
    );
}

#[test]
fn messages_are_encoded_as_by_bincode() {
    assert_eq!(RawMessage::Ping {}.to_bytes(), bincode::serialize(&0u32).unwrap());
    assert_eq!(
        RawMessage::Interrupt { id: 21 }.to_bytes(),
        bincode::serialize(&(1u32, 21u64)).unwrap()
    );
    assert_eq!(
        RawMessage::RemoveInterrupt { id: 22 }.to_bytes(),
        bincode::serialize(&(2u32, 22u64)).unwrap()
    );
    assert_eq!(RawMessage::Register {}.to_bytes(), bincode::serialize(&3u32).unwrap());
    assert_eq!(
        RawMessage::Unregister { id: 23 }.to_bytes(),
        bincode::serialize(&(4u32, 23u64)).unwrap()
    );
    for (action, number) in [
        (LockAction::SetLockNonBlocking, 0u32),
        (LockAction::SetLockBlocking, 1),
        (LockAction::GetLockStatus, 2),
    ] {
        let message = RawMessage::LockCommand { id: 24, action, params: sample() };
        assert_eq!(
            message.to_bytes(),
            bincode::serialize(&(5u32, 24u64, number, sample_fields())).unwrap()
        );
    }
}

fn unknown(found: u32, count: u32) -> DecodeFailure {
    DecodeFailure::UnknownVariant { found, count }
}

#[test]
fn unknown_variants_are_refused() {
    assert_eq!(RawMessage::from_bytes(&[6, 0, 0, 0]), Err(unknown(6, 6)));
    assert_eq!(deserialize::<LockAction>(&[3, 0, 0, 0]), Err(unknown(3, 3)));
    assert_eq!(deserialize::<LockType>(&[4, 0, 0, 0]), Err(unknown(4, 3)));
    assert_eq!(deserialize::<LockWhence>(&[0, 1, 0, 0]), Err(unknown(256, 3)));
    assert_eq!(
        deserialize::<ReplyLockCommandData>(&[2, 0, 0, 0, 0, 0, 0, 0, 0, 0, 0, 0]),
        Err(unknown(2, 2))
    );
    assert_eq!(
        deserialize::<Result<(), i32>>(&[2, 0, 0, 0]),
        Err(DecodeFailure::UnknownOutcome { number: 2 })
    );
    assert_eq!(deserialize::<Result<(), i32>>(&[0, 0, 0, 0]), Ok(Ok(())));
    assert_eq!(
        unknown(6, 6).message(),
        "invalid value: integer `6`, expected variant index 0 <= i < 6"
    );
    assert_eq!(
        unknown(u32::MAX, 3).message(),
        "invalid value: integer `4294967295`, expected variant index 0 <= i < 3"
    );
}

#[test]
fn the_first_fault_is_reported() {
    let command = RawMessage::LockCommand {
        id: 1,
        action: LockAction::SetLockBlocking,
        params: sample(),
    };
    let mut bytes = command.to_bytes();
    // The lock type follows the variant, the id and the action.
    bytes[16] = 9;
    assert_eq!(RawMessage::from_bytes(&bytes), Err(unknown(9, 3)));
    assert_eq!(RawMessage::from_bytes(&bytes[..18]), Err(DecodeFailure::EndOfInput));
    bytes[12] = 8;
    assert_eq!(RawMessage::from_bytes(&bytes), Err(unknown(8, 3)));
    bytes[0] = 7;
    assert_eq!(RawMessage::from_bytes(&bytes), Err(unknown(7, 6)));
    assert_eq!(RawMessage::from_bytes(&bytes[..3]), Err(DecodeFailure::EndOfInput));
}

#[test]
fn failures_to_decode_read_as_by_bincode() {
    let text = bincode::deserialize::<u64>(&[1, 2, 3]).unwrap_err().to_string();
    assert_eq!(deserialize::<u64>(&[1, 2, 3]).unwrap_err().message(), text);
    assert_eq!(text, "io error: unexpected end of file");
    let bytes = [3u8, 0, 0, 0, 1];
    let text = bincode::deserialize::<Result<u64, i32>>(&bytes).unwrap_err().to_string();
    assert_eq!(deserialize::<Result<u64, i32>>(&bytes).unwrap_err().message(), text);
    assert_eq!(text, "invalid value: integer `3`, expected `Ok` or `Err`");
    let bytes = bincode::serialize(&(u64::MAX, u32::MAX)).unwrap();
    let text = bincode::deserialize::<std::time::Duration>(&bytes).unwrap_err().to_string();
    assert_eq!(Ttl::from_bytes(&bytes).unwrap_err().message(), text);
    assert_eq!(text, "overflow deserializing Duration");
    let reason = Reason::Undecodable(DecodeFailure::Overflow);
    assert_eq!(reason.message(), text);
    assert_eq!(Error::Own(reason).kind(), ErrorKind::InvalidData);
}

#[test]
fn times_to_live_are_encoded_as_by_bincode() {
    let ttl = Ttl { secs: 5, nanos: 250 };
    let span = std::time::Duration::new(5, 250);
    assert_eq!(ttl.to_bytes(), bincode::serialize(&span).unwrap());
    assert_eq!(Ttl::from_bytes(&ttl.to_bytes()), Ok(ttl));
}

#[test]
fn whole_seconds_among_the_nanoseconds_are_carried() {
    let bytes = bincode::serialize(&(1u64, 2_000_000_001u32)).unwrap();
    assert_eq!(Ttl::from_bytes(&bytes), Ok(Ttl { secs: 3, nanos: 1 }));
    assert_eq!(
        bincode::deserialize::<std::time::Duration>(&bytes).unwrap(),
        std::time::Duration::new(3, 1)
    );
}

#[test]
fn a_time_to_live_beyond_all_bounds_is_refused() {
    let bytes = bincode::serialize(&(u64::MAX, 1_000_000_000u32)).unwrap();
    assert_eq!(Ttl::from_bytes(&bytes), Err(DecodeFailure::Overflow));
    assert!(bincode::deserialize::<std::time::Duration>(&bytes).is_err());
    let bytes = bincode::serialize(&(u64::MAX, 999_999_999u32)).unwrap();
    assert_eq!(Ttl::from_bytes(&bytes), Ok(Ttl { secs: u64::MAX, nanos: 999_999_999 }));
    assert_eq!(Ttl::from_bytes(&bytes[..11]), Err(DecodeFailure::EndOfInput));
}

#[test]
fn empty_times_to_live_are_recognised() {
    assert!(Ttl { secs: 0, nanos: 0 }.is_zero());
    assert!(!Ttl { secs: 0, nanos: 1 }.is_zero());
    assert!(!Ttl { secs: 1, nanos: 0 }.is_zero());
}
