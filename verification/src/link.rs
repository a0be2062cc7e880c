//! The request/reply traffic of the peripheral link, per operation:
//! building each request, parsing each reply, and the bounded-retry
//! rule.  The binary around this module owns the UART; it writes the
//! bytes built here, hands back what it read, and flushes both
//! queues whenever the rule says to try again.

use vstd::bytes::spec_u32_from_le_bytes;
use vstd::bytes::spec_u32_to_le_bytes;
use vstd::bytes::u32_from_le_bytes;
use vstd::bytes::u32_to_le_bytes;
use vstd::prelude::*;

use crate::common::Elevator;
use crate::common::Encoder;
use crate::modbus::DecodeError;
use crate::modbus::create_modbus;
use crate::modbus::read_modbus;
use crate::modbus::READ_ENCODER;
use crate::modbus::READ_REGISTERS;
use crate::modbus::SEND_PWM;
use crate::modbus::SEND_TEMP;
use crate::modbus::WRITE_REGISTERS;
use crate::modbus::spec_read_encoder_op;
use crate::modbus::spec_read_registers_op;
use crate::modbus::spec_request;
use crate::modbus::spec_response_payload;
use crate::modbus::spec_response_valid;
use crate::modbus::spec_send_pwm_op;
use crate::modbus::spec_send_temp_op;
use crate::modbus::spec_write_registers_op;
use crate::panel::Button;

verus! {

/// How often one link operation is tried before it is fatal.
pub const MAX_ATTEMPTS: u8 = 3;

/// What the link does after an attempt: done on success, one more
/// attempt after a flush of both queues while attempts remain, and a
/// fatal link failure once the last attempt misses.
#[derive(Clone, Copy, PartialEq, Eq, Structural, Debug)]
pub enum LinkStep {
    Done,
    Retry,
    Failed,
}

/// The bounded-retry rule of every link operation.
pub fn retry_decision(attempt: u8, success: bool) -> (r: LinkStep)
    requires
        1 <= attempt <= MAX_ATTEMPTS,
    ensures
        success ==> r == LinkStep::Done,
        !success && attempt < MAX_ATTEMPTS ==> r == LinkStep::Retry,
        !success && attempt == MAX_ATTEMPTS ==> r == LinkStep::Failed,
{
    if success {
        LinkStep::Done
    } else if attempt < MAX_ATTEMPTS {
        LinkStep::Retry
    } else {
        LinkStep::Failed
    }
}

/// The request that reads `encoder`.
pub fn encode_read_encoder(encoder: Encoder) -> (r: Vec<u8>)
    ensures
        r@ == spec_request(spec_read_encoder_op(), seq![encoder.spec_code()]),
{
    let mut data: Vec<u8> = Vec::new();
    data.push(encoder.code());
    proof {
        assert(data@ =~= seq![encoder.spec_code()]);
    }
    create_modbus(READ_ENCODER(), data.as_slice())
}

/// Parse the reply to an encoder read: a valid frame whose payload
/// is the four little-endian bytes of the signed count.
pub fn parse_encoder_reply(buffer: &[u8]) -> (r: Result<i32, DecodeError>)
    ensures
        r is Ok <==> spec_response_valid(spec_read_encoder_op(), buffer@)
            && spec_response_payload(spec_read_encoder_op(), buffer@).len() == 4,
        r matches Ok(v) ==> v == spec_u32_from_le_bytes(
            spec_response_payload(spec_read_encoder_op(), buffer@),
        ) as i32,
{
    let payload = read_modbus(READ_ENCODER(), buffer)?;
    if payload.len() != 4 {
        return Err(DecodeError::BadLength);
    }
    Ok(u32_from_le_bytes(payload.as_slice()) as i32)
}

/// The request that commands the PWM duty `pwm` on `encoder`'s
/// motor: the encoder byte, then the duty as four little-endian
/// bytes of the signed value, whose sign conveys the direction.
pub fn encode_send_pwm(encoder: Encoder, pwm: i32) -> (r: Vec<u8>)
    ensures
        r@ == spec_request(
            spec_send_pwm_op(),
            seq![encoder.spec_code()] + spec_u32_to_le_bytes(pwm as u32),
        ),
{
    let mut data: Vec<u8> = Vec::new();
    data.push(encoder.code());
    let mut tail = u32_to_le_bytes(pwm as u32);
    data.append(&mut tail);
    proof {
        assert(data@ =~= seq![encoder.spec_code()] + spec_u32_to_le_bytes(pwm as u32));
    }
    create_modbus(SEND_PWM(), data.as_slice())
}

/// The request that reports a cabin temperature: the cabin byte,
/// then the four little-endian bytes of the IEEE single-precision
/// reading — the binary hands in the reading's bit pattern.
pub fn encode_send_temp(cabin: Elevator, temperature_bits: u32) -> (r: Vec<u8>)
    ensures
        r@ == spec_request(
            spec_send_temp_op(),
            seq![cabin.spec_code()] + spec_u32_to_le_bytes(temperature_bits),
        ),
{
    let mut data: Vec<u8> = Vec::new();
    data.push(cabin.code());
    let mut tail = u32_to_le_bytes(temperature_bits);
    data.append(&mut tail);
    proof {
        assert(data@ =~= seq![cabin.spec_code()] + spec_u32_to_le_bytes(temperature_bits));
    }
    create_modbus(SEND_TEMP(), data.as_slice())
}

/// A button span a register operation may touch: within one cabin's
/// register window and not backwards.
pub open spec fn spec_valid_button_range(cabin: Elevator, start: u8, end: u8) -> bool {
    match cabin {
        Elevator::One => start <= end && end <= 0x0A,
        Elevator::Two => 0xA0 <= start && start <= end && end <= 0xAA,
    }
}

/// Check a button span before building a register operation for it.
/// A span outside the cabin's window is a programming error; the
/// callers test this and treat a failure as fatal.
pub fn valid_button_range(cabin: Elevator, start: Button, end: Button) -> (r: bool)
    ensures
        r == spec_valid_button_range(cabin, start.spec_code(), end.spec_code()),
{
    let s = start.code();
    let e = end.code();
    match cabin {
        Elevator::One => s <= e && e <= 0x0A,
        Elevator::Two => 0xA0 <= s && s <= e && e <= 0xAA,
    }
}

/// How many registers a button span covers.
pub open spec fn spec_range_count(start: u8, end: u8) -> u8
    recommends
        start <= end,
{
    (end - start + 1) as u8
}

/// The request that reads the button registers from `start` to
/// `end`: the count rides both in the operation and as the payload
/// byte.
pub fn encode_read_buttons(cabin: Elevator, start: Button, end: Button) -> (r: Vec<u8>)
    requires
        spec_valid_button_range(cabin, start.spec_code(), end.spec_code()),
    ensures
        r@ == spec_request(
            spec_read_registers_op(
                start.spec_code(),
                spec_range_count(start.spec_code(), end.spec_code()),
            ),
            seq![spec_range_count(start.spec_code(), end.spec_code())],
        ),
{
    let count = end.code() - start.code() + 1;
    let mut data: Vec<u8> = Vec::new();
    data.push(count);
    proof {
        assert(data@ =~= seq![spec_range_count(start.spec_code(), end.spec_code())]);
    }
    create_modbus(READ_REGISTERS(start.code(), count), data.as_slice())
}

/// Parse the reply to a button read: a valid frame whose payload
/// holds one byte per register, each read as asserted when nonzero.
pub fn parse_buttons_reply(start: Button, end: Button, buffer: &[u8]) -> (r: Result<
    Vec<bool>,
    DecodeError,
>)
    requires
        start.spec_code() <= end.spec_code(),
    ensures
        r is Ok <==> spec_response_valid(
            spec_read_registers_op(
                start.spec_code(),
                spec_range_count(start.spec_code(), end.spec_code()),
            ),
            buffer@,
        ),
        r matches Ok(v) ==> {
            let payload = spec_response_payload(
                spec_read_registers_op(
                    start.spec_code(),
                    spec_range_count(start.spec_code(), end.spec_code()),
                ),
                buffer@,
            );
            &&& v@.len() == payload.len()
            &&& forall|i: int| 0 <= i < v@.len() ==> v@[i] == (payload[i] != 0)
        },
{
    let count = end.code() - start.code() + 1;
    let payload = read_modbus(READ_REGISTERS(start.code(), count), buffer)?;
    let mut states: Vec<bool> = Vec::new();
    let mut i: usize = 0;
    while i < payload.len()
        invariant
            i <= payload@.len(),
            states@.len() == i,
            forall|k: int| 0 <= k < i ==> states@[k] == (payload@[k] != 0),
        decreases payload@.len() - i,
    {
        states.push(payload[i] != 0);
        i = i + 1;
    }
    Ok(states)
}

/// The byte a button state is written as.
pub open spec fn spec_state_byte(state: bool) -> u8 {
    if state {
        1
    } else {
        0
    }
}

/// The payload of a register write: the count, then one byte per
/// register.
pub open spec fn spec_write_payload(states: Seq<bool>) -> Seq<u8>
    recommends
        states.len() <= 255,
{
    seq![states.len() as u8] + states.map_values(|s: bool| spec_state_byte(s))
}

/// The request that writes the button registers from `start` to
/// `end` with the given states, one per register.
pub fn encode_write_buttons(cabin: Elevator, start: Button, end: Button, states: &Vec<bool>) -> (r:
    Vec<u8>)
    requires
        spec_valid_button_range(cabin, start.spec_code(), end.spec_code()),
        states@.len() == spec_range_count(start.spec_code(), end.spec_code()),
    ensures
        r@ == spec_request(
            spec_write_registers_op(
                start.spec_code(),
                spec_range_count(start.spec_code(), end.spec_code()),
            ),
            spec_write_payload(states@),
        ),
{
    let count = end.code() - start.code() + 1;
    let mut data: Vec<u8> = Vec::new();
    data.push(count);
    let mut i: usize = 0;
    while i < states.len()
        invariant
            i <= states@.len(),
            states@.len() == count,
            data@.len() == 1 + i,
            data@[0] == count,
            forall|k: int| 0 <= k < i ==> data@[k + 1] == spec_state_byte(states@[k]),
        decreases states@.len() - i,
    {
        if states[i] {
            data.push(1);
        } else {
            data.push(0);
        }
        i = i + 1;
    }
    proof {
        assert(data@ =~= spec_write_payload(states@));
    }
    create_modbus(WRITE_REGISTERS(start.code(), count), data.as_slice())
}

} // verus!
