use palladium::protocol::{decode_header, encode, FrameError, PacketType, MAX_PAYLOAD};

#[test]
fn packet_types_round_trip_through_their_numbers() {
    for kind in [
        PacketType::Handshake,
        PacketType::Frame,
        PacketType::Close,
        PacketType::Ping,
        PacketType::Pong,
    ] {
        assert_eq!(PacketType::from_i32(kind.as_i32()), Some(kind));
    }
    assert_eq!(PacketType::Close.as_i32(), 2);
    assert_eq!(PacketType::from_i32(5), None);
    assert_eq!(PacketType::from_i32(-1), None);
}

#[test]
fn frames_are_type_length_payload_little_endian() {
    let bytes = encode(PacketType::Frame, b"{\"a\":1}");
    assert_eq!(&bytes[..8], &[1, 0, 0, 0, 7, 0, 0, 0]);
    assert_eq!(&bytes[8..], b"{\"a\":1}");
    let long = vec![b' '; 300];
    let bytes = encode(PacketType::Pong, &long);
    assert_eq!(&bytes[..8], &[4, 0, 0, 0, 0x2c, 0x01, 0, 0]);
}

#[test]
fn a_written_header_reads_back() {
    let payload = vec![b'x'; 1000];
    let bytes = encode(PacketType::Handshake, &payload);
    let mut header = [0u8; 8];
    header.copy_from_slice(&bytes[..8]);
    assert_eq!(decode_header(header), Ok((PacketType::Handshake, 1000)));
}

#[test]
fn unknown_types_are_refused_before_lengths() {
    let header = [9, 0, 0, 0, 0xff, 0xff, 0xff, 0xff];
    assert_eq!(decode_header(header), Err(FrameError::InvalidType(9)));
    let header = [0xff, 0xff, 0xff, 0xff, 0, 0, 0, 0];
    assert_eq!(decode_header(header), Err(FrameError::InvalidType(-1)));
}

#[test]
fn negative_and_oversized_lengths_are_refused() {
    let header = [1, 0, 0, 0, 0xff, 0xff, 0xff, 0xff];
    assert_eq!(decode_header(header), Err(FrameError::InvalidLength(-1)));
    let too_long = (MAX_PAYLOAD as u32 + 1).to_le_bytes();
    let header = [1, 0, 0, 0, too_long[0], too_long[1], too_long[2], too_long[3]];
    assert_eq!(
        decode_header(header),
        Err(FrameError::InvalidLength(MAX_PAYLOAD as i32 + 1))
    );
    let max = (MAX_PAYLOAD as u32).to_le_bytes();
    let header = [3, 0, 0, 0, max[0], max[1], max[2], max[3]];
    assert_eq!(decode_header(header), Ok((PacketType::Ping, MAX_PAYLOAD)));
    assert_eq!(decode_header([2, 0, 0, 0, 0, 0, 0, 0]), Ok((PacketType::Close, 0)));
}
