use slime_server::constants::{Direction, CLIENT_DECRYPT_KEY, MAX_MESSAGE_SIZE};
use slime_server::crypto::decrypt_with_key;
use slime_server::protocol::{
    frame_message, next_frame, read_u16_le, read_u32_le, read_u8_at, split_message, u16_le_bytes, FrameStatus,
    MessageWriter,
};
use slime_server::sor::parse_sor;
use slime_server::text::{
    decimal_string, eq_ignore_ascii_case, parse_i64_str, parse_u16_str, parse_unsigned_str, signed_decimal_string,
    starts_with, str_eq,
};
use slime_server::validation::{handle_points_overflow, validate_item_slot, PointsOverflow};

#[test]
fn test_writer_little_endian() {
    let mut w = MessageWriter::new();
    w.write_u16(0x1234);
    w.write_u8(7);
    w.write_u32(0xA1B2C3D4);
    assert_eq!(w.into_bytes(), vec![0x34, 0x12, 7, 0xD4, 0xC3, 0xB2, 0xA1]);
}

#[test]
fn test_readers() {
    let data = [1u8, 2, 3, 4, 5];
    assert_eq!(read_u16_le(&data, 0), Some(0x0201));
    assert_eq!(read_u16_le(&data, 3), Some(0x0504));
    assert_eq!(read_u16_le(&data, 4), None);
    assert_eq!(read_u32_le(&data, 1), Some(0x05040302));
    assert_eq!(read_u32_le(&data, 2), None);
    assert_eq!(read_u8_at(&data, 4), Some(5));
    assert_eq!(read_u8_at(&data, 5), None);
    assert_eq!(u16_le_bytes(0xBEEF), [0xEF, 0xBE]);
}

#[test]
fn test_frame_roundtrip() {
    let body = vec![10u8, 0, 42, 42, 42];
    let framed = frame_message(body.clone());
    assert_eq!(framed.len(), 7);
    assert_eq!(framed[0], 5);
    assert_eq!(framed[1], 0);
    let mut buf = framed.clone();
    buf.extend_from_slice(&[9, 9, 9]);
    assert_eq!(next_frame(&buf), FrameStatus::Complete(5));
    let mut payload = buf[2..7].to_vec();
    decrypt_with_key(&mut payload, &CLIENT_DECRYPT_KEY);
    assert_eq!(payload, body);
}

#[test]
fn test_next_frame_states() {
    assert_eq!(next_frame(&[]), FrameStatus::Incomplete);
    assert_eq!(next_frame(&[3]), FrameStatus::Incomplete);
    assert_eq!(next_frame(&[3, 0, 1, 2]), FrameStatus::Incomplete);
    assert_eq!(next_frame(&[3, 0, 1, 2, 3]), FrameStatus::Complete(3));
    let too_big = (MAX_MESSAGE_SIZE + 1) as u16;
    assert_eq!(next_frame(&[(too_big % 256) as u8, (too_big / 256) as u8]), FrameStatus::TooLarge);
    let just_fits = MAX_MESSAGE_SIZE as u16;
    assert_eq!(next_frame(&[(just_fits % 256) as u8, (just_fits / 256) as u8]), FrameStatus::Incomplete);
}

#[test]
fn test_split_message() {
    assert_eq!(split_message(&[1]), None);
    assert_eq!(split_message(&[41, 0]), Some((41, vec![])));
    assert_eq!(split_message(&[0x2C, 0x01, 5, 6]), Some((300, vec![5, 6])));
}

#[test]
fn test_validate_item_slot() {
    assert!(validate_item_slot(1).is_ok());
    assert!(validate_item_slot(9).is_ok());
    let e = validate_item_slot(0).unwrap_err();
    assert_eq!(e.message, "slot out of range 1-9");
    assert!(validate_item_slot(10).is_err());
}

#[test]
fn test_points_overflow() {
    assert_eq!(handle_points_overflow(100, 50, 1000), PointsOverflow { new_points: 150, to_bank: 0 });
    assert_eq!(handle_points_overflow(900, 500, 1000), PointsOverflow { new_points: 1000, to_bank: 400 });
    assert_eq!(handle_points_overflow(1200, 0, 1000), PointsOverflow { new_points: 1000, to_bank: 200 });
    let r = handle_points_overflow(999, 7, 1000);
    assert_eq!(r.new_points as u64 + r.to_bank, 1006);
}

#[test]
fn test_decimal_strings() {
    assert_eq!(decimal_string(0), "0");
    assert_eq!(decimal_string(1234567890), "1234567890");
    assert_eq!(signed_decimal_string(-42), "-42");
    assert_eq!(signed_decimal_string(i64::MIN), "-9223372036854775808");
}

#[test]
fn test_parsing_numbers() {
    assert_eq!(parse_unsigned_str("255", 255), Some(255));
    assert_eq!(parse_unsigned_str("256", 255), None);
    assert_eq!(parse_unsigned_str("+7", 255), Some(7));
    assert_eq!(parse_unsigned_str("", 255), None);
    assert_eq!(parse_unsigned_str("1a", 255), None);
    assert_eq!(parse_u16_str("65535"), Some(65535));
    assert_eq!(parse_u16_str("65536"), None);
    assert_eq!(parse_i64_str("-9223372036854775808"), Some(i64::MIN));
    assert_eq!(parse_i64_str("9223372036854775808"), None);
    assert_eq!(parse_i64_str("-"), None);
    assert_eq!(parse_i64_str("+12"), Some(12));
}

#[test]
fn test_string_helpers() {
    assert!(eq_ignore_ascii_case("HeLp", "help"));
    assert!(!eq_ignore_ascii_case("helps", "help"));
    assert!(starts_with("/kick bob", "/kick"));
    assert!(!starts_with("/ki", "/kick"));
    assert!(str_eq("abc", "abc"));
    assert!(!str_eq("abc", "abd"));
}

#[test]
fn test_lossy_names() {
    // One archive entry named "a", 0xFF, "b", with no content.
    let archive = [0, 1, 0, 3, b'a', 0xFF, b'b'];
    let entries = parse_sor(&archive, b"k").unwrap();
    assert_eq!(entries[0].filename, "a\u{FFFD}b");
    let plain = [0, 1, 0, 5, b'S', b'l', b'i', b'm', b'e'];
    assert_eq!(parse_sor(&plain, b"k").unwrap()[0].filename, "Slime");
}

#[test]
fn test_directions() {
    assert_eq!(Direction::from_u8(3), Some(Direction::Jump));
    assert_eq!(Direction::from_u8(0), None);
    assert_eq!(Direction::from_u8(14), None);
    assert_eq!(Direction::StopRightAir.code(), 13);
    assert_eq!(Direction::Jump.to_string(), "Jump");
    assert_eq!(Direction::StartLeftAir.to_string(), "StartLeftAir");
}
