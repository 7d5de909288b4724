use stream_codec::hex::to_hex;
use stream_codec::packet::Packet;
use stream_codec::reader::Reader;
use stream_codec::wire::CodecError;
use stream_codec::writer::Writer;

#[test]
fn write_appends_verbatim_in_order() {
    let mut w = Writer::new();
    w.write(&[1, 2]);
    w.write(&[3]);
    assert_eq!(w.stream, vec![1, 2, 3]);
    assert_eq!(w.length(), 3);
}

#[test]
fn write_u16_is_big_endian() {
    let mut w = Writer::new();
    w.write_u16(0x1234);
    assert_eq!(w.stream, vec![0x12, 0x34]);
}

#[test]
fn write_u24_is_big_endian() {
    let mut w = Writer::new();
    w.write_u24(0x123456);
    assert_eq!(w.stream, vec![0x12, 0x34, 0x56]);
}

#[test]
fn write_u24_discards_bits_above_24() {
    let mut w = Writer::new();
    w.write_u24(0xFF123456);
    assert_eq!(w.stream, vec![0x12, 0x34, 0x56]);
}

#[test]
fn write_u32_is_big_endian() {
    let mut w = Writer::new();
    w.write_u32(0xDEADBEEF);
    assert_eq!(w.stream, vec![0xDE, 0xAD, 0xBE, 0xEF]);
}

#[test]
fn write_string_prefixes_byte_length() {
    let mut w = Writer::new();
    w.write_string("hi");
    assert_eq!(w.stream, vec![0, 0, 0, 2, b'h', b'i']);
}

#[test]
fn write_string_empty_is_zero_length_prefix() {
    let mut w = Writer::new();
    w.write_string("");
    assert_eq!(w.stream, vec![0, 0, 0, 0]);
}

#[test]
fn u16_round_trips() {
    for v in [0u16, 1, 0x00FF, 10100, 0xFFFF] {
        let mut w = Writer::new();
        w.write_u16(v);
        let mut r = Reader::new(&w.stream);
        assert_eq!(r.read_u16(), Ok(v));
    }
}

#[test]
fn u24_round_trips_up_to_boundary() {
    for v in [0u32, 1, 0x1234, 0xFFFFFF] {
        let mut w = Writer::new();
        w.write_u24(v);
        let mut r = Reader::new(&w.stream);
        assert_eq!(r.read_u24(), Ok(v));
    }
}

#[test]
fn u24_above_boundary_keeps_low_24_bits() {
    for v in [0x1000000u32, 0xFF123456, 0xFFFFFFFF] {
        let mut w = Writer::new();
        w.write_u24(v);
        let mut r = Reader::new(&w.stream);
        assert_eq!(r.read_u24(), Ok(v & 0xFFFFFF));
    }
}

#[test]
fn u32_round_trips() {
    for v in [0u32, 1, 0xDEADBEEF, 0xFFFFFFFF] {
        let mut w = Writer::new();
        w.write_u32(v);
        let mut r = Reader::new(&w.stream);
        assert_eq!(r.read_u32(), Ok(v));
    }
}

#[test]
fn string_round_trips() {
    for s in ["", "hello", "h\u{e9}llo \u{2603}", "\u{1F600}"] {
        let mut w = Writer::new();
        w.write_string(s);
        let mut r = Reader::new(&w.stream);
        assert_eq!(r.read_string(), Ok(s.to_string()));
        assert_eq!(r.read(1), Err(CodecError::BufferUnderrun));
    }
}

#[test]
fn string_sentinel_length_means_absent() {
    let mut r = Reader::new(&[0xFF, 0xFF, 0xFF, 0xFF, 0x05]);
    assert_eq!(r.read_string(), Ok(String::new()));
    assert_eq!(r.read_byte(), Ok(0x05));
}

#[test]
fn string_with_invalid_utf8_fails_without_consuming() {
    let mut r = Reader::new(&[0, 0, 0, 1, 0xFF]);
    assert_eq!(r.read_string(), Err(CodecError::InvalidEncoding));
    assert_eq!(r.read_u32(), Ok(1));
}

#[test]
fn string_with_truncated_body_fails_without_consuming() {
    let mut r = Reader::new(&[0, 0, 0, 9, b'a']);
    assert_eq!(r.read_string(), Err(CodecError::BufferUnderrun));
    assert_eq!(r.read_u32(), Ok(9));
}

#[test]
fn read_returns_next_bytes_and_advances() {
    let mut r = Reader::new(&[10, 20, 30, 40]);
    assert_eq!(r.read(2), Ok(vec![10, 20]));
    assert_eq!(r.read(2), Ok(vec![30, 40]));
}

#[test]
fn read_past_end_fails_and_leaves_cursor() {
    let mut r = Reader::new(&[1, 2]);
    assert_eq!(r.read(5), Err(CodecError::BufferUnderrun));
    assert_eq!(r.read(2), Ok(vec![1, 2]));
}

#[test]
fn read_byte_sequences() {
    let mut r = Reader::new(&[7, 8]);
    assert_eq!(r.read_byte(), Ok(7));
    assert_eq!(r.read_byte(), Ok(8));
    assert_eq!(r.read_byte(), Err(CodecError::BufferUnderrun));
}

#[test]
fn skip_advances_past_unwanted_bytes() {
    let mut r = Reader::new(&[1, 2, 3]);
    assert_eq!(r.skip(2), Ok(()));
    assert_eq!(r.read_byte(), Ok(3));
}

#[test]
fn skip_past_end_fails_and_leaves_cursor() {
    let mut r = Reader::new(&[1, 2, 3]);
    assert_eq!(r.skip(4), Err(CodecError::BufferUnderrun));
    assert_eq!(r.read_byte(), Ok(1));
}

#[test]
fn length_counts_whole_buffer_not_remainder() {
    let mut r = Reader::new(&[1, 2, 3]);
    assert_eq!(r.length(), 3);
    r.skip(2).unwrap();
    assert_eq!(r.length(), 3);
}

#[test]
fn vint_single_byte_values() {
    for (byte, value) in [
        (0x00u8, 0i32),
        (0x01, 1),
        (0x02, 2),
        (0x40, -1),
        (0x41, -2),
        (0x3F, 63),
        (0x7F, -64),
    ] {
        let mut r = Reader::new(&[byte]);
        assert_eq!(r.read_vint(), Ok(value));
    }
}

#[test]
fn vint_multi_byte_values() {
    let mut r = Reader::new(&[0x80, 0x01]);
    assert_eq!(r.read_vint(), Ok(64));
    let mut r = Reader::new(&[0xC0, 0x01]);
    assert_eq!(r.read_vint(), Ok(-65));
    let mut r = Reader::new(&[0x80, 0x80, 0x80, 0x80, 0x07]);
    assert_eq!(r.read_vint(), Ok(0x38000000));
}

#[test]
fn vint_advances_exactly_past_its_bytes() {
    let mut r = Reader::new(&[0x80, 0x01, 0x40]);
    assert_eq!(r.read_vint(), Ok(64));
    assert_eq!(r.read_vint(), Ok(-1));
}

#[test]
fn vint_without_terminator_underruns() {
    let mut r = Reader::new(&[0x80, 0x80]);
    assert_eq!(r.read_vint(), Err(CodecError::BufferUnderrun));
    assert_eq!(r.read_byte(), Ok(0x80));
}

#[test]
fn vint_longer_than_five_bytes_is_malformed() {
    let mut r = Reader::new(&[0x80, 0x80, 0x80, 0x80, 0x80, 0x00]);
    assert_eq!(r.read_vint(), Err(CodecError::InvalidEncoding));
    assert_eq!(r.read_byte(), Ok(0x80));
}

#[test]
fn build_produces_the_documented_hello_frame() {
    let mut p = Packet::new();
    let out = p.build(10100, 57, 325, 1);

    let mut header = Reader::new(&out[..7]);
    assert_eq!(header.read_u16(), Ok(10100));
    let body_len = header.read_u24().unwrap();
    assert_eq!(out.len(), 7 + body_len as usize);
    assert_eq!(header.read_u16(), Ok(0));

    let mut body = Reader::new(&out[7..]);
    assert_eq!(body.read_u32(), Ok(0));
    assert_eq!(body.read_u32(), Ok(0));
    assert_eq!(body.read_u32(), Ok(57));
    assert_eq!(body.read_u32(), Ok(1));
    assert_eq!(body.read_u32(), Ok(325));
    assert_eq!(body.read_string(), Ok(String::new()));
    assert_eq!(body.read_u32(), Ok(2));
    assert_eq!(body.read_u32(), Ok(2));
    assert_eq!(body.read(1), Err(CodecError::BufferUnderrun));
}

#[test]
fn build_frame_starts_with_id_and_body_length() {
    let mut p = Packet::new();
    let out = p.build(10100, 57, 325, 1);
    assert_eq!(out[0], 0x27);
    assert_eq!(out[1], 0x74);
    assert_eq!(out[2], 0);
    assert_eq!(out[3], 0);
    assert_eq!(out[4], 32);
    assert_eq!(out.len(), 39);
}

#[test]
fn write_header_encodes_current_body_length() {
    let mut p = Packet::new();
    p.write_packet(1, 2, 3);
    p.write_header(20103);
    let mut header = Reader::new(&p.header.stream);
    assert_eq!(header.read_u16(), Ok(20103));
    assert_eq!(header.read_u24(), Ok(p.packet.stream.len() as u32));
    assert_eq!(header.read_u16(), Ok(0));
}

#[test]
fn response_version_8_is_one_byte() {
    let mut r = Reader::new(&[0x05]);
    assert_eq!(r.read_response(8), Ok(5));
}

#[test]
fn response_other_versions_are_u32() {
    let mut r = Reader::new(&[0x00, 0x00, 0x00, 0x2A]);
    assert_eq!(r.read_response(9), Ok(42));
}

#[test]
fn response_underrun_is_reported() {
    let mut r = Reader::new(&[]);
    assert_eq!(r.read_response(8), Err(CodecError::BufferUnderrun));
    let mut r = Reader::new(&[0, 0]);
    assert_eq!(r.read_response(7), Err(CodecError::BufferUnderrun));
}

#[test]
fn to_hex_renders_escaped_upper_case_pairs() {
    assert_eq!(to_hex(&[]), "");
    assert_eq!(to_hex(&[0x00, 0xAB, 0x05]), "\\x00\\xAB\\x05");
    assert_eq!(to_hex(&[0xFF]), "\\xFF");
}
