//! The wire checksum and the frame codec, end to end.

use elevator_rig::crc::crc16;
use elevator_rig::modbus::DecodeError;
use elevator_rig::modbus::READ_ENCODER;
use elevator_rig::modbus::READ_REGISTERS;
use elevator_rig::modbus::SEND_PWM;
use elevator_rig::modbus::SEND_TEMP;
use elevator_rig::modbus::WRITE_REGISTERS;
use elevator_rig::modbus::create_modbus;
use elevator_rig::modbus::create_modbus_response;
use elevator_rig::modbus::read_modbus;

#[test]
fn crc16_known_value() {
    // The widely published check value of this polynomial and seed.
    assert_eq!(crc16(b"123456789"), 0x4B37);
    assert_eq!(crc16(&[]), 0xFFFF);
}

#[test]
fn encode_read_encoder_request() {
    let frame = create_modbus(READ_ENCODER(), &[0x00]);
    assert_eq!(
        frame,
        vec![0x01, 0x23, 0xC1, 0x00, 0x06, 0x05, 0x02, 0x01, 0x53, 0xFD]
    );
}

#[test]
fn request_trailing_bytes_are_body_checksum() {
    let frame = create_modbus(SEND_PWM(), &[0x01, 0x10, 0x00, 0x00, 0x00]);
    let n = frame.len();
    let crc = crc16(&frame[..n - 2]);
    assert_eq!(frame[n - 2], (crc & 0xFF) as u8);
    assert_eq!(frame[n - 1], (crc >> 8) as u8);
}

#[test]
fn decode_encoder_reply() {
    let frame = vec![0x00, 0x23, 0xC1, 0x78, 0x56, 0x34, 0x12, 0x4F, 0xFF];
    let payload = read_modbus(READ_ENCODER(), &frame).unwrap();
    assert_eq!(payload, vec![0x78, 0x56, 0x34, 0x12]);
    let value = i32::from_le_bytes([payload[0], payload[1], payload[2], payload[3]]);
    assert_eq!(value, 0x12345678);
}

#[test]
fn response_round_trip_every_operation() {
    let cases = vec![
        (READ_ENCODER(), vec![0x78, 0x56, 0x34, 0x12]),
        (SEND_PWM(), vec![]),
        (SEND_TEMP(), vec![]),
        (READ_REGISTERS(0x00, 11), vec![0, 0, 1, 0, 0, 0, 0, 0, 1, 0, 0]),
        (READ_REGISTERS(0xA0, 3), vec![1, 1, 1]),
        (WRITE_REGISTERS(0x03, 2), vec![0, 1]),
    ];
    for (op, payload) in cases {
        let frame = create_modbus_response(op, &payload);
        let decoded = read_modbus(op, &frame).unwrap();
        assert_eq!(decoded, payload);
    }
}

#[test]
fn single_byte_corruption_always_rejected() {
    let op = READ_REGISTERS(0x00, 11);
    let payload = vec![0, 0, 1, 0, 0, 0, 1, 0, 0, 0, 0];
    let frame = create_modbus_response(op, &payload);
    for i in 0..frame.len() {
        for delta in [1u8, 0x80] {
            let mut corrupted = frame.clone();
            corrupted[i] = corrupted[i].wrapping_add(delta);
            assert!(read_modbus(op, &corrupted).is_err(), "byte {} survived", i);
        }
    }
    let op = READ_ENCODER();
    let frame = create_modbus_response(op, &[0x78, 0x56, 0x34, 0x12]);
    for i in 0..frame.len() {
        let mut corrupted = frame.clone();
        corrupted[i] ^= 0x40;
        assert!(read_modbus(op, &corrupted).is_err(), "byte {} survived", i);
    }
}

#[test]
fn decode_too_short() {
    assert_eq!(
        read_modbus(READ_ENCODER(), &[0x00, 0x23, 0xC1, 0x00]),
        Err(DecodeError::TooShort)
    );
}

#[test]
fn decode_bad_address() {
    let mut frame = create_modbus_response(READ_ENCODER(), &[1, 2, 3, 4]);
    frame[0] = 0x01;
    assert_eq!(read_modbus(READ_ENCODER(), &frame), Err(DecodeError::BadAddress));
}

#[test]
fn decode_bad_code() {
    let frame = create_modbus_response(SEND_PWM(), &[]);
    assert_eq!(read_modbus(READ_ENCODER(), &frame), Err(DecodeError::BadCode));
}

#[test]
fn decode_bad_subcode() {
    let frame = create_modbus_response(SEND_TEMP(), &[]);
    // Same code 0x16 as SEND_PWM, different subcode.
    assert_eq!(read_modbus(SEND_PWM(), &frame), Err(DecodeError::BadSubcode));
}

#[test]
fn decode_bad_length() {
    let frame = create_modbus_response(READ_REGISTERS(0x00, 11), &[0; 11]);
    assert_eq!(
        read_modbus(READ_REGISTERS(0x00, 7), &frame),
        Err(DecodeError::BadLength)
    );
}

#[test]
fn decode_bad_checksum() {
    let mut frame = create_modbus_response(READ_ENCODER(), &[1, 2, 3, 4]);
    let n = frame.len();
    frame[n - 1] ^= 0xFF;
    assert_eq!(read_modbus(READ_ENCODER(), &frame), Err(DecodeError::BadChecksum));
}

#[test]
fn decode_error_descriptions_are_distinct() {
    let errors = [
        DecodeError::TooShort,
        DecodeError::BadAddress,
        DecodeError::BadCode,
        DecodeError::BadSubcode,
        DecodeError::BadLength,
        DecodeError::BadChecksum,
    ];
    for (i, a) in errors.iter().enumerate() {
        assert!(!a.describe().is_empty());
        for b in errors.iter().skip(i + 1) {
            assert_ne!(a.describe(), b.describe());
        }
    }
}
