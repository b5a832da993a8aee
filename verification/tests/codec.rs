//! Tests for the wire codec: header parsing and full command decoding.

use servicepoint_simulator::commands::{BinaryOperation, TypedCommand};
use servicepoint_simulator::decode::{decode, DecodeError};
use servicepoint_simulator::protocol::{
    read_beu16, read_header, DisplayCommandCode, ReadHeaderError,
};

/// A packet with the given header fields and payload.
fn packet(code: u16, a: u16, b: u16, c: u16, d: u16, payload: &[u8]) -> Vec<u8> {
    let mut buf = Vec::new();
    for v in [code, a, b, c, d] {
        buf.extend_from_slice(&v.to_be_bytes());
    }
    buf.extend_from_slice(payload);
    buf
}

#[test]
fn read_beu16_is_big_endian() {
    assert_eq!(read_beu16(&[0x12, 0x34]), 0x1234);
    assert_eq!(read_beu16(&[0x00, 0x02]), 2);
}

#[test]
fn read_header_parses_fields() {
    let buf = packet(0x0003, 1, 2, 3, 4, &[]);
    let hdr = read_header(&buf).unwrap();
    assert_eq!(hdr.command, DisplayCommandCode::Cp437data);
    assert_eq!((hdr.x, hdr.y, hdr.w, hdr.h), (1, 2, 3, 4));
}

#[test]
fn read_header_too_small() {
    assert_eq!(read_header(&[0, 2, 0]), Err(ReadHeaderError::BufferTooSmall));
}

#[test]
fn read_header_wrong_endianness_names_code() {
    // 0x0200 is 0x0002 (Clear) byte-swapped.
    let buf = packet(0x0200, 0, 0, 0, 0, &[]);
    assert_eq!(
        read_header(&buf),
        Err(ReadHeaderError::WrongCommandEndianness(
            0x0200,
            DisplayCommandCode::Clear
        ))
    );
}

#[test]
fn read_header_unknown_code() {
    let buf = packet(0x4142, 0, 0, 0, 0, &[]);
    assert_eq!(read_header(&buf), Err(ReadHeaderError::InvalidCommand(0x4142)));
}

#[test]
fn command_code_round_trip() {
    for code in [
        DisplayCommandCode::Clear,
        DisplayCommandCode::Cp437data,
        DisplayCommandCode::CharBrightness,
        DisplayCommandCode::Brightness,
        DisplayCommandCode::HardReset,
        DisplayCommandCode::FadeOut,
        DisplayCommandCode::BitmapLegacy,
        DisplayCommandCode::BitmapLinear,
        DisplayCommandCode::BitmapLinearWin,
        DisplayCommandCode::BitmapLinearAnd,
        DisplayCommandCode::BitmapLinearOr,
        DisplayCommandCode::BitmapLinearXor,
        DisplayCommandCode::Utf8Data,
    ] {
        assert_eq!(DisplayCommandCode::from_primitive(code.to_primitive()), Some(code));
    }
    assert_eq!(DisplayCommandCode::from_primitive(0x0001), None);
}

#[test]
fn decode_too_small() {
    assert_eq!(decode(&[0, 2]), Err(DecodeError::PacketTooSmall));
    assert_eq!(decode(&[]), Err(DecodeError::PacketTooSmall));
}

#[test]
fn decode_wrong_endianness() {
    let buf = packet(0x1300, 0, 0, 0, 0, &[]);
    assert_eq!(
        decode(&buf),
        Err(DecodeError::WrongEndianness(
            0x1300,
            DisplayCommandCode::BitmapLinearWin
        ))
    );
}

#[test]
fn decode_unknown_code() {
    let buf = packet(0x0017, 0, 0, 0, 0, &[]);
    assert_eq!(decode(&buf), Err(DecodeError::UnknownCommandCode(0x0017)));
}

#[test]
fn decode_clear() {
    let buf = packet(0x0002, 0, 0, 0, 0, &[]);
    assert!(matches!(decode(&buf), Ok(TypedCommand::Clear(_))));
}

#[test]
fn decode_clear_with_payload_fails() {
    let buf = packet(0x0002, 0, 0, 0, 0, &[1]);
    assert_eq!(
        decode(&buf),
        Err(DecodeError::PayloadSizeMismatch { expected: 0, actual: 1 })
    );
}

#[test]
fn decode_clear_with_operands_fails() {
    let buf = packet(0x0002, 5, 0, 0, 0, &[]);
    assert_eq!(decode(&buf), Err(DecodeError::ExtraneousHeaderValues));
}

#[test]
fn decode_hard_reset() {
    let buf = packet(0x000b, 0, 0, 0, 0, &[]);
    assert!(matches!(decode(&buf), Ok(TypedCommand::HardReset(_))));
}

#[test]
fn decode_fade_out() {
    let buf = packet(0x000d, 0, 0, 0, 0, &[]);
    assert!(matches!(decode(&buf), Ok(TypedCommand::FadeOut(_))));
}

#[test]
fn decode_bitmap_legacy() {
    let buf = packet(0x0010, 0, 0, 0, 0, &[]);
    assert!(matches!(decode(&buf), Ok(TypedCommand::BitmapLegacy(_))));
}

#[test]
fn decode_brightness() {
    let buf = packet(0x0007, 0, 0, 0, 0, &[7]);
    match decode(&buf) {
        Ok(TypedCommand::Brightness(c)) => assert_eq!(c.brightness, 7),
        other => panic!("unexpected: {other:?}"),
    }
}

#[test]
fn decode_brightness_out_of_range() {
    let buf = packet(0x0007, 0, 0, 0, 0, &[12]);
    assert_eq!(decode(&buf), Err(DecodeError::InvalidBrightness(12)));
}

#[test]
fn decode_brightness_wrong_payload_size() {
    let buf = packet(0x0007, 0, 0, 0, 0, &[1, 2]);
    assert_eq!(
        decode(&buf),
        Err(DecodeError::PayloadSizeMismatch { expected: 1, actual: 2 })
    );
}

#[test]
fn decode_brightness_extraneous_operands() {
    let buf = packet(0x0007, 0, 0x13, 0x37, 0, &[5]);
    assert_eq!(decode(&buf), Err(DecodeError::ExtraneousHeaderValues));
}

#[test]
fn decode_bitmap_window() {
    // One tile wide (8 pixels), two rows high, at tile x=2, pixel y=5.
    let buf = packet(0x0013, 2, 5, 1, 2, &[0b1010_1010, 0b0100_0000]);
    match decode(&buf) {
        Ok(TypedCommand::Bitmap(c)) => {
            assert_eq!((c.origin.x, c.origin.y), (16, 5));
            assert_eq!((c.bitmap.width(), c.bitmap.height()), (8, 2));
            assert!(c.bitmap.get(0, 0));
            assert!(!c.bitmap.get(1, 0));
            assert!(c.bitmap.get(2, 0));
            assert!(!c.bitmap.get(0, 1));
            assert!(c.bitmap.get(1, 1));
            assert_eq!(c.compression, 0);
        }
        other => panic!("unexpected: {other:?}"),
    }
}

#[test]
fn decode_bitmap_window_size_mismatch() {
    let buf = packet(0x0013, 0, 0, 2, 2, &[0, 0, 0]);
    assert_eq!(
        decode(&buf),
        Err(DecodeError::PayloadSizeMismatch { expected: 4, actual: 3 })
    );
}

#[test]
fn decode_bitvec_overwrite() {
    let buf = packet(0x0012, 100, 2, 0, 0, &[0xFF, 0x01]);
    match decode(&buf) {
        Ok(TypedCommand::BitVec(c)) => {
            assert_eq!(c.offset, 100);
            assert_eq!(c.operation, BinaryOperation::Overwrite);
            assert_eq!(c.bitvec.len(), 16);
            assert!(c.bitvec[0]);
            assert!(c.bitvec[7]);
            assert!(!c.bitvec[8]);
            assert!(c.bitvec[15]);
        }
        other => panic!("unexpected: {other:?}"),
    }
}

#[test]
fn decode_bitvec_operations() {
    for (code, op) in [
        (0x0012, BinaryOperation::Overwrite),
        (0x0014, BinaryOperation::And),
        (0x0015, BinaryOperation::Or),
        (0x0016, BinaryOperation::Xor),
    ] {
        let buf = packet(code, 0, 1, 0, 0, &[0]);
        match decode(&buf) {
            Ok(TypedCommand::BitVec(c)) => assert_eq!(c.operation, op),
            other => panic!("unexpected: {other:?}"),
        }
    }
}

#[test]
fn decode_bitvec_reserved_field_fails() {
    let buf = packet(0x0012, 0, 1, 0, 69, &[0]);
    assert_eq!(decode(&buf), Err(DecodeError::ExtraneousHeaderValues));
}

#[test]
fn decode_bitvec_accepts_any_compression_field() {
    // An unrecognized compression code still decodes; the payload is
    // taken as-is.
    let buf = packet(0x0012, 0, 1, 42, 0, &[0x80]);
    match decode(&buf) {
        Ok(TypedCommand::BitVec(c)) => {
            assert_eq!(c.compression, 42);
            assert!(c.bitvec[0]);
        }
        other => panic!("unexpected: {other:?}"),
    }
}

#[test]
fn decode_bitvec_size_mismatch() {
    let buf = packet(0x0012, 0, 3, 0, 0, &[0, 0]);
    assert_eq!(
        decode(&buf),
        Err(DecodeError::PayloadSizeMismatch { expected: 3, actual: 2 })
    );
}

#[test]
fn decode_cp437_grid() {
    let buf = packet(0x0003, 1, 2, 2, 1, b"Hi");
    match decode(&buf) {
        Ok(TypedCommand::Cp437Grid(c)) => {
            assert_eq!((c.origin.x, c.origin.y), (1, 2));
            assert_eq!((c.grid.width(), c.grid.height()), (2, 1));
            assert_eq!(c.grid.get(0, 0), b'H');
            assert_eq!(c.grid.get(1, 0), b'i');
        }
        other => panic!("unexpected: {other:?}"),
    }
}

#[test]
fn decode_brightness_grid() {
    let buf = packet(0x0005, 0, 1, 2, 2, &[0, 5, 11, 3]);
    match decode(&buf) {
        Ok(TypedCommand::BrightnessGrid(c)) => {
            assert_eq!((c.origin.x, c.origin.y), (0, 1));
            assert_eq!(c.grid.get(1, 0), 5);
            assert_eq!(c.grid.get(0, 1), 11);
        }
        other => panic!("unexpected: {other:?}"),
    }
}

#[test]
fn decode_brightness_grid_rejects_first_bad_value() {
    let buf = packet(0x0005, 0, 0, 2, 1, &[3, 200]);
    assert_eq!(decode(&buf), Err(DecodeError::InvalidBrightness(200)));
}

#[test]
fn decode_char_grid_ascii() {
    let buf = packet(0x0020, 3, 4, 2, 1, b"ok");
    match decode(&buf) {
        Ok(TypedCommand::CharGrid(c)) => {
            assert_eq!((c.origin.x, c.origin.y), (3, 4));
            assert_eq!(c.grid.get(0, 0), 'o');
            assert_eq!(c.grid.get(1, 0), 'k');
        }
        other => panic!("unexpected: {other:?}"),
    }
}

#[test]
fn decode_char_grid_invalid_utf8() {
    let buf = packet(0x0020, 0, 0, 2, 1, &[0xFF, 0xFE]);
    assert_eq!(decode(&buf), Err(DecodeError::InvalidUtf8));
}

#[test]
fn decode_char_grid_multibyte_char_count_mismatch() {
    // Two payload bytes, but they decode to a single character, so the
    // grid would be short one cell.
    let buf = packet(0x0020, 0, 0, 2, 1, "\u{e9}".as_bytes());
    assert_eq!(
        decode(&buf),
        Err(DecodeError::PayloadSizeMismatch { expected: 2, actual: 1 })
    );
}

#[test]
fn decode_empty_grid() {
    let buf = packet(0x0003, 0, 0, 0, 5, &[]);
    match decode(&buf) {
        Ok(TypedCommand::Cp437Grid(c)) => {
            assert_eq!((c.grid.width(), c.grid.height()), (0, 5));
        }
        other => panic!("unexpected: {other:?}"),
    }
}
