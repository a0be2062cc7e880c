//! The per-operation link traffic: request builders, reply parsers
//! and the bounded-retry rule.

use elevator_rig::common::Elevator;
use elevator_rig::common::Encoder;
use elevator_rig::link::LinkStep;
use elevator_rig::link::encode_read_buttons;
use elevator_rig::link::encode_read_encoder;
use elevator_rig::link::encode_send_pwm;
use elevator_rig::link::encode_send_temp;
use elevator_rig::link::encode_write_buttons;
use elevator_rig::link::parse_buttons_reply;
use elevator_rig::link::parse_encoder_reply;
use elevator_rig::link::retry_decision;
use elevator_rig::link::valid_button_range;
use elevator_rig::modbus::DecodeError;
use elevator_rig::modbus::READ_REGISTERS;
use elevator_rig::modbus::create_modbus_response;
use elevator_rig::panel::Button;

#[test]
fn encoder_request_and_reply() {
    let request = encode_read_encoder(Encoder::One);
    assert_eq!(
        request,
        vec![0x01, 0x23, 0xC1, 0x00, 0x06, 0x05, 0x02, 0x01, 0x53, 0xFD]
    );

    let reply = vec![0x00, 0x23, 0xC1, 0x78, 0x56, 0x34, 0x12, 0x4F, 0xFF];
    assert_eq!(parse_encoder_reply(&reply), Ok(0x12345678));

    let negative = create_modbus_response(
        elevator_rig::modbus::READ_ENCODER(),
        &(-250i32).to_le_bytes(),
    );
    assert_eq!(parse_encoder_reply(&negative), Ok(-250));

    assert_eq!(parse_encoder_reply(&[]), Err(DecodeError::TooShort));
}

#[test]
fn pwm_request_carries_signed_duty() {
    let request = encode_send_pwm(Encoder::Two, -100);
    // [target, code, subcode, encoder, duty LE, register code, crc]
    assert_eq!(&request[0..3], &[0x01, 0x16, 0xC2]);
    assert_eq!(request[3], 0x01);
    assert_eq!(&request[4..8], &(-100i32).to_le_bytes());
    assert_eq!(&request[8..12], &[0x06, 0x05, 0x02, 0x01]);
}

#[test]
fn temperature_request_carries_float_bits() {
    let bits = 36.5f32.to_bits();
    let request = encode_send_temp(Elevator::Two, bits);
    assert_eq!(&request[0..3], &[0x01, 0x16, 0xD1]);
    assert_eq!(request[3], 0x01);
    assert_eq!(&request[4..8], &36.5f32.to_le_bytes());
}

#[test]
fn button_read_round_trip() {
    assert!(valid_button_range(
        Elevator::One,
        Button::GroundFloorUp1,
        Button::ThirdFloorCall1
    ));
    assert!(!valid_button_range(
        Elevator::One,
        Button::Emergency1,
        Button::GroundFloorUp1
    ));
    assert!(!valid_button_range(
        Elevator::Two,
        Button::GroundFloorUp1,
        Button::ThirdFloorCall1
    ));

    let request = encode_read_buttons(Elevator::One, Button::GroundFloorUp1, Button::ThirdFloorCall1);
    assert_eq!(&request[0..4], &[0x01, 0x03, 0x00, 11]);

    let mut image = vec![0u8; 11];
    image[4] = 1;
    image[6] = 7;
    let reply = create_modbus_response(READ_REGISTERS(0x00, 11), &image);
    let states = parse_buttons_reply(Button::GroundFloorUp1, Button::ThirdFloorCall1, &reply)
        .unwrap();
    assert_eq!(states.len(), 11);
    for (i, state) in states.iter().enumerate() {
        assert_eq!(*state, i == 4 || i == 6);
    }
}

#[test]
fn button_write_payload_layout() {
    let states = vec![true, false, true];
    let request = encode_write_buttons(
        Elevator::Two,
        Button::GroundFloorUp2,
        Button::FirstFloorDown2,
        &states,
    );
    // [target, code, start address, count, one byte per register]
    assert_eq!(&request[0..4], &[0x01, 0x06, 0xA0, 3]);
    assert_eq!(&request[4..7], &[1, 0, 1]);
}

#[test]
fn three_attempts_then_fatal() {
    assert_eq!(retry_decision(1, true), LinkStep::Done);
    assert_eq!(retry_decision(3, true), LinkStep::Done);
    assert_eq!(retry_decision(1, false), LinkStep::Retry);
    assert_eq!(retry_decision(2, false), LinkStep::Retry);
    assert_eq!(retry_decision(3, false), LinkStep::Failed);
}
