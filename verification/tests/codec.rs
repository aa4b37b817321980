//! The wire codec: round-trips, framing, recovery and each decode error.

use soundboard::as_hex::as_hex;
use soundboard::codec::{decode, decode_stream, encode, frame_of, DecodeError};
use soundboard::input::{InputEventWrapper, Timestamp};

fn record(secs: u64, nanos: u32, event_type: u16, code: u16, value: i32) -> InputEventWrapper {
    InputEventWrapper { timestamp: Timestamp { secs, nanos }, event_type, code, value }
}

fn framed(r: &InputEventWrapper) -> Vec<u8> {
    frame_of(&encode(r))
}

#[test]
fn round_trip_representative_records() {
    let samples = vec![
        record(0, 0, 0, 0, 0),
        record(1_700_000_000, 123_456_789, 1, 57, 1),
        record(u64::MAX, u32::MAX, u16::MAX, u16::MAX, i32::MAX),
        record(127, 128, 300, 84, i32::MIN),
        record(1, 999_999_999, 22, 7, -1),
    ];
    for r in samples {
        let decoded = decode(&framed(&r)).expect("a framed record must decode");
        assert_eq!(decoded, r);
    }
}

#[test]
fn round_trip_value_signs() {
    for v in [-3, -2, -1, 0, 1, 2, 3, 64, -64, 1_000_000, -1_000_000] {
        let r = record(10, 20, 1, 2, v);
        assert_eq!(decode(&framed(&r)).unwrap().value, v);
    }
}

#[test]
fn framing_yields_all_records_in_order() {
    let rs = vec![
        record(1, 0, 1, 30, 1),
        record(2, 0, 1, 30, 0),
        record(3, 0, 0, 0, 0),
    ];
    let mut stream: Vec<u8> = Vec::new();
    for r in &rs {
        stream.extend_from_slice(&framed(r));
    }
    let out = decode_stream(&stream);
    assert_eq!(out, rs);
}

#[test]
fn truncated_final_frame_yields_the_rest_and_no_error() {
    let r1 = record(1, 0, 1, 30, 1);
    let r2 = record(2, 0, 1, 30, 0);
    let r3 = record(3, 0, 1, 31, 1);
    let mut stream: Vec<u8> = Vec::new();
    stream.extend_from_slice(&framed(&r1));
    stream.extend_from_slice(&framed(&r2));
    let f3 = framed(&r3);
    stream.extend_from_slice(&f3[..f3.len() - 2]);
    let out = decode_stream(&stream);
    assert_eq!(out, vec![r1, r2]);
}

#[test]
fn corrupt_middle_frame_is_skipped() {
    let r1 = record(1, 0, 1, 30, 1);
    let r3 = record(3, 0, 1, 31, 1);
    let mut stream: Vec<u8> = Vec::new();
    stream.extend_from_slice(&framed(&r1));
    // a delimited frame whose payload is a single truncated varint
    stream.extend_from_slice(&[0x02, 0x80, 0x00]);
    stream.extend_from_slice(&framed(&r3));
    let out = decode_stream(&stream);
    assert_eq!(out, vec![r1, r3]);
}

#[test]
fn corrupt_byte_in_real_frame_is_skipped() {
    let r1 = record(1, 0, 1, 30, 1);
    let r2 = record(2, 0, 1, 30, 0);
    let r3 = record(3, 0, 1, 31, 1);
    let mut f2 = framed(&r2);
    // truncate the middle frame's body but keep its delimiter
    f2.remove(1);
    let mut stream: Vec<u8> = Vec::new();
    stream.extend_from_slice(&framed(&r1));
    stream.extend_from_slice(&f2);
    stream.extend_from_slice(&framed(&r3));
    let out = decode_stream(&stream);
    assert_eq!(out, vec![r1, r3]);
}

#[test]
fn error_missing_delimiter() {
    assert_eq!(decode(&vec![]), Err(DecodeError::MissingDelimiter));
    assert_eq!(decode(&vec![2, 7]), Err(DecodeError::MissingDelimiter));
}

#[test]
fn error_empty_frame() {
    assert_eq!(decode(&vec![0]), Err(DecodeError::EmptyFrame));
}

#[test]
fn error_stuffing() {
    // length code 5 with only one byte after it
    assert_eq!(decode(&vec![5, 1, 0]), Err(DecodeError::Stuffing));
}

#[test]
fn error_bad_varint() {
    // payload is one lone continuation byte
    let f = frame_of(&vec![0x80]);
    assert_eq!(decode(&f), Err(DecodeError::BadVarint));
}

#[test]
fn error_field_overflow() {
    // seconds 0, then a nanoseconds varint of 2^32
    let f = frame_of(&vec![0x00, 0x80, 0x80, 0x80, 0x80, 0x10]);
    assert_eq!(decode(&f), Err(DecodeError::FieldOverflow));
}

#[test]
fn error_trailing_bytes() {
    let mut p = encode(&record(1, 2, 3, 4, 5));
    p.push(0x01);
    assert_eq!(decode(&frame_of(&p)), Err(DecodeError::TrailingBytes));
}

#[test]
fn destuffed_frames_carry_no_delimiter_before_the_end() {
    let samples = vec![
        record(0, 0, 0, 0, 0),
        record(256, 0, 1, 0, -5),
        record(u64::MAX, 0, 0, 512, i32::MIN),
    ];
    for r in samples {
        let f = framed(&r);
        assert!(f.len() >= 2);
        assert_eq!(*f.last().unwrap(), 0);
        assert!(f[..f.len() - 1].iter().all(|&b| b != 0));
    }
}

#[test]
fn encoding_is_compact_varints() {
    // all fields below 128 take one byte each: 5 payload bytes,
    // plus one length code and the delimiter
    let f = framed(&record(1, 2, 3, 4, 5));
    assert_eq!(f.len(), 7);
}

#[test]
fn hex_rendering() {
    assert_eq!(as_hex(&[0x0A, 0xFF, 0x00]), "0AFF00");
    assert_eq!(as_hex(&[]), "");
    assert_eq!(as_hex(&[0x12, 0x34, 0x56, 0x78, 0x9A, 0xBC, 0xDE, 0xF0]), "123456789ABCDEF0");
}
