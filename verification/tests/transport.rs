use gitsitter::transport::{incoming_len, recv_message, send_message, FrameError, MAX_MESSAGE_SIZE};

/// Round-trip a raw message through send/recv.
#[test]
fn raw_message_round_trip() {
    let mut wire = Vec::new();
    let payload = b"hello world";
    send_message(&mut wire, payload).unwrap();
    let (received, used) = recv_message(&wire).unwrap();
    assert_eq!(received, payload);
    assert_eq!(used, wire.len());
}

/// Empty message round-trip.
#[test]
fn empty_message() {
    let mut wire = Vec::new();
    send_message(&mut wire, b"").unwrap();
    let (received, _) = recv_message(&wire).unwrap();
    assert!(received.is_empty());
}

/// Reject oversized incoming messages.
#[test]
fn reject_oversized_message() {
    let fake_len: u32 = MAX_MESSAGE_SIZE + 1;
    let err = recv_message(&fake_len.to_be_bytes()).unwrap_err();
    assert!(
        err.message().contains("exceeds maximum"),
        "unexpected error: {}",
        err.message()
    );
}

/// Multiple messages on the same stream.
#[test]
fn multiple_messages() {
    let mut wire = Vec::new();
    send_message(&mut wire, b"first").unwrap();
    send_message(&mut wire, b"second").unwrap();
    let (first, used) = recv_message(&wire).unwrap();
    assert_eq!(first, b"first");
    let (second, _) = recv_message(&wire[used..]).unwrap();
    assert_eq!(second, b"second");
}

#[test]
fn lengths_are_big_endian() {
    let mut wire = Vec::new();
    send_message(&mut wire, &[7; 300]).unwrap();
    assert_eq!(&wire[..4], [0, 0, 1, 44]);
    assert_eq!(incoming_len(&wire), Ok(300));
    assert_eq!(incoming_len(&MAX_MESSAGE_SIZE.to_be_bytes()), Ok(MAX_MESSAGE_SIZE));
}

#[test]
fn broken_frames_are_told_apart() {
    assert_eq!(recv_message(&[0, 0, 0]), Err(FrameError::MissingLength));
    assert_eq!(recv_message(&[0, 0, 0, 2, 1]), Err(FrameError::MissingPayload));
    let mut wire = vec![9];
    let big = vec![0u8; MAX_MESSAGE_SIZE as usize + 1];
    assert_eq!(
        send_message(&mut wire, &big),
        Err(FrameError::Oversized(MAX_MESSAGE_SIZE + 1))
    );
    assert_eq!(wire, [9]);
    assert_eq!(
        FrameError::Oversized(20_000_000).message(),
        "message size 20000000 exceeds maximum allowed size 16777216"
    );
}
