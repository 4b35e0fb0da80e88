use nck_daemon::channel::{
    decode_frame, encode_frame, receive, ChannelError, FrameError, FrameHeader, PendingChannel,
    ReadOutcome, SOCKET_TIMEOUT_SECS, U64_SIZE, USIZE_SIZE, ZYGOTE_HEADER_SIZE,
};

fn check_frame() -> Vec<u8> {
    let mut bytes = vec![9, 0, 0, 0, 0, 0, 0, 0];
    bytes.extend_from_slice(&[0xca, 0xd9, 0xb8, 0xc4, 0x14, 0xd9, 0xc6, 0xe9]);
    bytes.extend_from_slice(b"123456789");
    bytes
}

#[test]
fn header_is_sixteen_bytes() {
    assert_eq!(USIZE_SIZE, 8);
    assert_eq!(U64_SIZE, 8);
    assert_eq!(ZYGOTE_HEADER_SIZE, 16);
    assert_eq!(SOCKET_TIMEOUT_SECS, 2);
}

#[test]
fn header_carries_length_and_checksum() {
    let header = FrameHeader::for_payload(b"123456789");
    assert_eq!(header.length, 9);
    assert_eq!(header.checksum, 0xe9c6_d914_c4b8_d9ca);
    assert_eq!(header.to_bytes(), check_frame()[..16].to_vec());
}

#[test]
fn checksum_of_nothing_is_zero() {
    let header = FrameHeader::for_payload(b"");
    assert_eq!(header, FrameHeader { length: 0, checksum: 0 });
    assert_eq!(encode_frame(b""), vec![0u8; 16]);
}

#[test]
fn frame_is_header_then_payload() {
    assert_eq!(encode_frame(b"123456789"), check_frame());
}

#[test]
fn frame_decodes_to_its_payload() {
    assert_eq!(decode_frame(&check_frame()), Ok(b"123456789".to_vec()));
    assert_eq!(decode_frame(&encode_frame(b"")), Ok(Vec::new()));
    let payload: Vec<u8> = (0..=255u8).collect();
    assert_eq!(decode_frame(&encode_frame(&payload)), Ok(payload));
}

#[test]
fn short_input_is_truncated() {
    assert_eq!(decode_frame(b""), Err(FrameError::Truncated));
    assert_eq!(decode_frame(&check_frame()[..15]), Err(FrameError::Truncated));
    assert_eq!(FrameHeader::parse(&[0u8; 15]), Err(FrameError::Truncated));
}

#[test]
fn missing_or_extra_payload_is_a_length_mismatch() {
    let frame = check_frame();
    assert_eq!(decode_frame(&frame[..24]), Err(FrameError::LengthMismatch));
    assert_eq!(decode_frame(&frame[..16]), Err(FrameError::LengthMismatch));
    let mut longer = frame.clone();
    longer.push(0);
    assert_eq!(decode_frame(&longer), Err(FrameError::LengthMismatch));
}

#[test]
fn changed_payload_is_a_checksum_mismatch() {
    let mut frame = check_frame();
    frame[20] ^= 1;
    assert_eq!(decode_frame(&frame), Err(FrameError::ChecksumMismatch));
}

#[test]
fn changed_checksum_is_a_checksum_mismatch() {
    let mut frame = check_frame();
    frame[8] ^= 0x80;
    assert_eq!(decode_frame(&frame), Err(FrameError::ChecksumMismatch));
}

#[test]
fn length_is_checked_before_checksum() {
    let mut frame = check_frame();
    frame[0] = 8;
    frame[20] ^= 1;
    assert_eq!(decode_frame(&frame), Err(FrameError::LengthMismatch));
}

#[test]
fn parse_reads_little_endian_fields() {
    let mut bytes = vec![0x01, 0x02, 0, 0, 0, 0, 0, 0];
    bytes.extend_from_slice(&[0xff, 0, 0, 0, 0, 0, 0, 0x80]);
    bytes.extend_from_slice(b"ignored");
    assert_eq!(
        FrameHeader::parse(&bytes),
        Ok(FrameHeader { length: 0x0201, checksum: 0x8000_0000_0000_00ff })
    );
}

#[test]
fn verify_tells_length_from_checksum() {
    let header = FrameHeader::for_payload(b"123456789");
    assert_eq!(header.verify(b"123456789"), Ok(()));
    assert_eq!(header.verify(b"12345678"), Err(FrameError::LengthMismatch));
    assert_eq!(header.verify(b"123456780"), Err(FrameError::ChecksumMismatch));
}

#[test]
fn closed_transport_is_a_broken_channel() {
    assert_eq!(receive(ReadOutcome::Closed), Err(ChannelError::BrokenChannel));
}

#[test]
fn silence_is_a_timeout() {
    assert_eq!(receive(ReadOutcome::TimedOut), Err(ChannelError::Timeout));
}

#[test]
fn received_frame_gives_its_payload() {
    assert_eq!(receive(ReadOutcome::Data(check_frame())), Ok(b"123456789".to_vec()));
}

#[test]
fn bad_frames_are_corrupt_and_nothing_else() {
    assert_eq!(
        receive(ReadOutcome::Data(Vec::new())),
        Err(ChannelError::Corrupt(FrameError::Truncated))
    );
    assert_eq!(
        receive(ReadOutcome::Data(check_frame()[..20].to_vec())),
        Err(ChannelError::Corrupt(FrameError::LengthMismatch))
    );
    let mut frame = check_frame();
    frame[16] = b'0';
    assert_eq!(
        receive(ReadOutcome::Data(frame)),
        Err(ChannelError::Corrupt(FrameError::ChecksumMismatch))
    );
}

#[test]
fn three_failures_are_told_apart() {
    let broken = receive(ReadOutcome::Closed);
    let timeout = receive(ReadOutcome::TimedOut);
    let corrupt = receive(ReadOutcome::Data(vec![1, 2, 3]));
    assert_ne!(broken, timeout);
    assert_ne!(broken, corrupt);
    assert_ne!(timeout, corrupt);
}

#[test]
fn pending_channel_connects_to_its_descriptor() {
    let pending = PendingChannel::new(5);
    assert_eq!(pending.raw(), 5);
    let peer = pending.into_peer();
    assert_eq!(peer.raw(), 5);
}
