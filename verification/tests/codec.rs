use header_codec::header::header_bytes_needed;
use header_codec::{InputStream, ResponseStatus, WireHeader};

fn sample_header() -> WireHeader {
    WireHeader {
        provider: 3,
        session: 0x0102_0304_0506_0708,
        content_type: 2,
        accept_type: 2,
        auth_type: 1,
        body_len: 4096,
        auth_len: 12,
        opcode: 7,
        status: 0,
    }
}

fn encode(header: &WireHeader) -> Vec<u8> {
    let mut frame: Vec<u8> = Vec::new();
    header.write_to_stream(&mut frame).unwrap();
    frame
}

fn decode(bytes: Vec<u8>) -> (Result<WireHeader, ResponseStatus>, usize) {
    let mut input = InputStream::new(bytes);
    let result = WireHeader::read_from_stream(&mut input);
    (result, input.pos)
}

#[test]
fn new_header_is_all_zero() {
    let h = WireHeader::new();
    assert_eq!(h.provider, 0);
    assert_eq!(h.session, 0);
    assert_eq!(h.content_type, 0);
    assert_eq!(h.accept_type, 0);
    assert_eq!(h.auth_type, 0);
    assert_eq!(h.body_len, 0);
    assert_eq!(h.auth_len, 0);
    assert_eq!(h.opcode, 0);
    assert_eq!(h.status, 0);
}

#[test]
fn round_trip_returns_the_header() {
    let h = sample_header();
    let (result, consumed) = decode(encode(&h));
    assert_eq!(result, Ok(h));
    assert_eq!(consumed, 30);
}

#[test]
fn round_trip_boundary_values() {
    let boundaries = [
        WireHeader::new(),
        WireHeader {
            session: u64::MAX,
            body_len: u32::MAX,
            ..WireHeader::new()
        },
        WireHeader {
            provider: u8::MAX,
            session: 0,
            content_type: u8::MAX,
            accept_type: u8::MAX,
            auth_type: u8::MAX,
            body_len: 0,
            auth_len: u16::MAX,
            opcode: u16::MAX,
            status: u16::MAX,
        },
        WireHeader {
            session: 1,
            body_len: 1,
            ..WireHeader::new()
        },
    ];
    for h in boundaries {
        let (result, consumed) = decode(encode(&h));
        assert_eq!(result, Ok(h));
        assert_eq!(consumed, 30);
    }
}

#[test]
fn scenario_frame_matches_wire_layout() {
    let h = WireHeader {
        provider: 1,
        session: 0xFFFF_FFFF_FFFF_FFFF,
        content_type: 1,
        accept_type: 1,
        auth_type: 0,
        body_len: 100,
        auth_len: 0,
        opcode: 9,
        status: 0,
    };
    let frame = encode(&h);
    let expected: Vec<u8> = vec![
        // magic number 0x5EC0_A710, little-endian
        0x10, 0xA7, 0xC0, 0x5E, // declared header length 24
        24, 0, // version 1.0
        1, 0, // provider
        1, // session
        0xFF, 0xFF, 0xFF, 0xFF, 0xFF, 0xFF, 0xFF, 0xFF, // content type, accept type, auth type
        1, 1, 0, // body length 100
        100, 0, 0, 0, // auth length
        0, 0, // opcode 9
        9, 0, // status
        0, 0,
    ];
    assert_eq!(frame, expected);

    let (result, consumed) = decode(frame);
    assert_eq!(result, Ok(h));
    assert_eq!(consumed, 30);
}

#[test]
fn wrong_magic_fails_even_on_otherwise_valid_frame() {
    let mut frame = encode(&sample_header());
    frame[0] ^= 0x01;
    let (result, consumed) = decode(frame);
    assert_eq!(result, Err(ResponseStatus::InvalidHeader));
    // only the magic number was consumed; nothing after it was read
    assert_eq!(consumed, 4);
}

#[test]
fn version_two_zero_fails_unsupported() {
    let mut frame = encode(&sample_header());
    frame[6] = 2;
    frame[7] = 0;
    let (result, consumed) = decode(frame);
    assert_eq!(result, Err(ResponseStatus::WireProtocolVersionNotSupported));
    assert_eq!(consumed, 30);
}

#[test]
fn version_zero_nine_fails_unsupported() {
    let mut frame = encode(&sample_header());
    frame[6] = 0;
    frame[7] = 9;
    let (result, consumed) = decode(frame);
    assert_eq!(result, Err(ResponseStatus::WireProtocolVersionNotSupported));
    assert_eq!(consumed, 30);
}

#[test]
fn declared_length_23_fails_after_consuming_23_bytes() {
    let mut bytes: Vec<u8> = vec![0x10, 0xA7, 0xC0, 0x5E, 23, 0];
    bytes.extend(std::iter::repeat(0u8).take(23));
    // trailing bytes of a following frame must stay unread
    bytes.extend([0xAB, 0xCD]);
    let (result, consumed) = decode(bytes);
    assert_eq!(result, Err(ResponseStatus::InvalidHeader));
    assert_eq!(consumed, 6 + 23);
}

#[test]
fn declared_length_25_fails_after_consuming_25_bytes() {
    let mut bytes: Vec<u8> = vec![0x10, 0xA7, 0xC0, 0x5E, 25, 0];
    bytes.extend(std::iter::repeat(0u8).take(25));
    bytes.extend([0xAB, 0xCD]);
    let (result, consumed) = decode(bytes);
    assert_eq!(result, Err(ResponseStatus::InvalidHeader));
    assert_eq!(consumed, 6 + 25);
}

#[test]
fn truncated_stream_fails_connection_error() {
    let frame = encode(&sample_header());
    // cut before the magic, before the length, and inside the declared bytes
    for (cut, consumed_expected) in [(0, 0), (3, 0), (5, 4), (10, 6), (29, 6)] {
        let (result, consumed) = decode(frame[..cut].to_vec());
        assert_eq!(result, Err(ResponseStatus::ConnectionError));
        assert_eq!(consumed, consumed_expected);
    }
}

#[test]
fn bytes_needed_drives_staged_reads() {
    let frame = encode(&sample_header());
    let mut input = InputStream::new(Vec::new());
    assert_eq!(header_bytes_needed(&input), 4);
    input.feed(&frame[0..4]);
    assert_eq!(header_bytes_needed(&input), 2);
    input.feed(&frame[4..6]);
    assert_eq!(header_bytes_needed(&input), 24);
    input.feed(&frame[6..30]);
    assert_eq!(header_bytes_needed(&input), 0);
    let result = WireHeader::read_from_stream(&mut input);
    assert_eq!(result, Ok(sample_header()));
}

#[test]
fn bytes_needed_is_zero_on_wrong_magic() {
    let input = InputStream::new(vec![0x11, 0xA7, 0xC0, 0x5E]);
    assert_eq!(header_bytes_needed(&input), 0);
}

#[test]
fn encode_appends_to_existing_output() {
    let mut out: Vec<u8> = vec![0xEE, 0xEF];
    let r = sample_header().write_to_stream(&mut out);
    assert_eq!(r, Ok(()));
    assert_eq!(out.len(), 32);
    assert_eq!(&out[..2], &[0xEE, 0xEF]);
    assert_eq!(&out[2..6], &[0x10, 0xA7, 0xC0, 0x5E]);
}

#[test]
fn two_frames_decode_in_sequence() {
    let first = sample_header();
    let second = WireHeader {
        provider: 9,
        opcode: 2,
        ..WireHeader::new()
    };
    let mut bytes = encode(&first);
    bytes.append(&mut encode(&second));
    let mut input = InputStream::new(bytes);
    assert_eq!(WireHeader::read_from_stream(&mut input), Ok(first));
    assert_eq!(input.pos, 30);
    assert_eq!(WireHeader::read_from_stream(&mut input), Ok(second));
    assert_eq!(input.pos, 60);
}
