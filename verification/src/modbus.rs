//! The serial frame codec spoken with the microcontroller peripheral.
//!
//! A request is `[target address, code, subcode, payload.., register
//! code (4 bytes), checksum (2 bytes little-endian)]`.  A reply is
//! `[source address, code, subcode when the operation carries no
//! quantity, payload.., checksum]`.  Decoding validates the length,
//! the address, the code, the subcode or the payload length, and the
//! checksum, and names the first mismatch it finds.

use vstd::prelude::*;

use crate::crc::crc16;
use crate::crc::crc16_of;
use crate::crc::lemma_crc16_update_changes;

verus! {

/// Address byte that opens every reply from the peripheral.
pub const SOURCE_ADDRESS: u8 = 0x00;

/// Address byte that opens every request to the peripheral.
pub const TARGET_ADDRESS: u8 = 0x01;

/// The four fixed register-code bytes appended to every request.
pub open spec fn spec_register_code() -> Seq<u8> {
    seq![0x06u8, 0x05u8, 0x02u8, 0x01u8]
}

/// The low byte of a checksum as it appears on the wire.
pub open spec fn u16_lo(x: u16) -> u8 {
    (x & 0xFF) as u8
}

/// The high byte of a checksum as it appears on the wire.
pub open spec fn u16_hi(x: u16) -> u8 {
    (x >> 8) as u8
}

/// The 16-bit value carried by a little-endian byte pair.
pub open spec fn u16_from_pair(lo: u8, hi: u8) -> u16 {
    (lo as u16) | ((hi as u16) << 8)
}

/// Splitting a 16-bit value and reassembling the pair gives it back.
pub proof fn lemma_u16_pair_round_trip(x: u16)
    by (bit_vector)
    ensures
        u16_from_pair(u16_lo(x), u16_hi(x)) == x,
{
}

/// Two little-endian pairs carry the same value only when they agree
/// byte for byte.
pub proof fn lemma_u16_pair_injective(lo1: u8, hi1: u8, lo2: u8, hi2: u8)
    by (bit_vector)
    requires
        u16_from_pair(lo1, hi1) == u16_from_pair(lo2, hi2),
    ensures
        lo1 == lo2 && hi1 == hi2,
{
}

/// One operation of the wire protocol: its code, its subcode (reused
/// as the register address by the register operations) and, for the
/// register operations, the register count carried in the frames.
#[derive(Clone, Copy, Debug)]
pub struct ModbusOperation {
    pub code: u8,
    pub subcode: u8,
    pub qtd: Option<u8>,
}

/// The operation that reads one quadrature encoder.
pub open spec fn spec_read_encoder_op() -> ModbusOperation {
    ModbusOperation { code: 0x23, subcode: 0xC1, qtd: None }
}

/// The operation that commands a PWM duty value.
pub open spec fn spec_send_pwm_op() -> ModbusOperation {
    ModbusOperation { code: 0x16, subcode: 0xC2, qtd: None }
}

/// The operation that reports a cabin temperature.
pub open spec fn spec_send_temp_op() -> ModbusOperation {
    ModbusOperation { code: 0x16, subcode: 0xD1, qtd: None }
}

/// The operation that reads `qtd` button registers starting at
/// `address`.
pub open spec fn spec_read_registers_op(address: u8, qtd: u8) -> ModbusOperation {
    ModbusOperation { code: 0x03, subcode: address, qtd: Some(qtd) }
}

/// The operation that writes `qtd` button registers starting at
/// `address`.
pub open spec fn spec_write_registers_op(address: u8, qtd: u8) -> ModbusOperation {
    ModbusOperation { code: 0x06, subcode: address, qtd: Some(qtd) }
}

/// Executable twin of [`spec_read_encoder_op`].
#[allow(non_snake_case)]
pub fn READ_ENCODER() -> (r: ModbusOperation)
    ensures
        r == spec_read_encoder_op(),
{
    ModbusOperation { code: 0x23, subcode: 0xC1, qtd: None }
}

/// Executable twin of [`spec_send_pwm_op`].
#[allow(non_snake_case)]
pub fn SEND_PWM() -> (r: ModbusOperation)
    ensures
        r == spec_send_pwm_op(),
{
    ModbusOperation { code: 0x16, subcode: 0xC2, qtd: None }
}

/// Executable twin of [`spec_send_temp_op`].
#[allow(non_snake_case)]
pub fn SEND_TEMP() -> (r: ModbusOperation)
    ensures
        r == spec_send_temp_op(),
{
    ModbusOperation { code: 0x16, subcode: 0xD1, qtd: None }
}

/// Executable twin of [`spec_read_registers_op`].
#[allow(non_snake_case)]
pub fn READ_REGISTERS(address: u8, qtd: u8) -> (r: ModbusOperation)
    ensures
        r == spec_read_registers_op(address, qtd),
{
    ModbusOperation { code: 0x03, subcode: address, qtd: Some(qtd) }
}

/// Executable twin of [`spec_write_registers_op`].
#[allow(non_snake_case)]
pub fn WRITE_REGISTERS(address: u8, qtd: u8) -> (r: ModbusOperation)
    ensures
        r == spec_write_registers_op(address, qtd),
{
    ModbusOperation { code: 0x06, subcode: address, qtd: Some(qtd) }
}

/// The checksummed part of a request frame.
pub open spec fn spec_request_body(op: ModbusOperation, data: Seq<u8>) -> Seq<u8> {
    seq![TARGET_ADDRESS, op.code, op.subcode] + data + spec_register_code()
}

/// A whole request frame: its body followed by the body's checksum,
/// little-endian.
pub open spec fn spec_request(op: ModbusOperation, data: Seq<u8>) -> Seq<u8> {
    let body = spec_request_body(op, data);
    body + seq![u16_lo(crc16_of(body)), u16_hi(crc16_of(body))]
}

/// The checksummed part of a reply frame.  Operations that carry a
/// quantity answer without the subcode byte.
pub open spec fn spec_response_body(op: ModbusOperation, payload: Seq<u8>) -> Seq<u8> {
    if op.qtd is None {
        seq![SOURCE_ADDRESS, op.code, op.subcode] + payload
    } else {
        seq![SOURCE_ADDRESS, op.code] + payload
    }
}

/// A whole reply frame: its body followed by the body's checksum,
/// little-endian.
pub open spec fn spec_response(op: ModbusOperation, payload: Seq<u8>) -> Seq<u8> {
    let body = spec_response_body(op, payload);
    body + seq![u16_lo(crc16_of(body)), u16_hi(crc16_of(body))]
}

/// A payload the peripheral may answer with: operations that carry a
/// quantity answer with exactly that many bytes (and at least one, or
/// the frame would fall under the minimum length); the others may
/// answer with any number.
pub open spec fn spec_payload_permitted(op: ModbusOperation, payload: Seq<u8>) -> bool {
    match op.qtd {
        Some(q) => payload.len() == q && q >= 1,
        None => true,
    }
}

/// Where the payload starts in a reply frame.
pub open spec fn spec_payload_start(op: ModbusOperation) -> int {
    if op.qtd is None {
        3
    } else {
        2
    }
}

/// The payload bytes of a reply frame.
pub open spec fn spec_response_payload(op: ModbusOperation, buf: Seq<u8>) -> Seq<u8> {
    buf.subrange(spec_payload_start(op), buf.len() - 2)
}

/// Every check the decoder performs on a reply frame.
pub open spec fn spec_response_valid(op: ModbusOperation, buf: Seq<u8>) -> bool {
    &&& buf.len() >= 5
    &&& buf[0] == SOURCE_ADDRESS
    &&& buf[1] == op.code
    &&& (op.qtd is None ==> buf[2] == op.subcode)
    &&& (op.qtd matches Some(q) ==> buf.len() - 4 == q)
    &&& u16_from_pair(buf[buf.len() - 2], buf[buf.len() - 1]) == crc16_of(
        buf.take(buf.len() - 2),
    )
}

/// Why a reply frame was rejected, in the order the checks run.
#[derive(Clone, Copy, PartialEq, Eq, Structural, Debug)]
pub enum DecodeError {
    /// Shorter than the 5-byte minimum frame.
    TooShort,
    /// The first byte is not the peripheral's source address.
    BadAddress,
    /// The code byte does not answer the request's code.
    BadCode,
    /// The subcode byte does not answer the request's subcode.
    BadSubcode,
    /// The payload does not hold the requested number of registers.
    BadLength,
    /// The transmitted checksum does not match the frame.
    BadChecksum,
}

impl DecodeError {
    /// A short diagnostic phrase for logs.
    pub fn describe(&self) -> &'static str {
        match self {
            DecodeError::TooShort => "frame shorter than the minimum of 5 bytes",
            DecodeError::BadAddress => "invalid source address",
            DecodeError::BadCode => "invalid operation code",
            DecodeError::BadSubcode => "invalid subcode",
            DecodeError::BadLength => "invalid payload length",
            DecodeError::BadChecksum => "checksum mismatch",
        }
    }
}

/// What decoding a reply frame yields, check by check in the order
/// the decoder runs them.
pub open spec fn spec_decode(op: ModbusOperation, buf: Seq<u8>) -> Result<Seq<u8>, DecodeError> {
    if buf.len() < 5 {
        Err(DecodeError::TooShort)
    } else if buf[0] != SOURCE_ADDRESS {
        Err(DecodeError::BadAddress)
    } else if buf[1] != op.code {
        Err(DecodeError::BadCode)
    } else if op.qtd is None && buf[2] != op.subcode {
        Err(DecodeError::BadSubcode)
    } else if op.qtd matches Some(q) && buf.len() - 4 != q {
        Err(DecodeError::BadLength)
    } else if u16_from_pair(buf[buf.len() - 2], buf[buf.len() - 1]) != crc16_of(
        buf.take(buf.len() - 2),
    ) {
        Err(DecodeError::BadChecksum)
    } else {
        Ok(spec_response_payload(op, buf))
    }
}

/// Decoding succeeds exactly on the frames that pass every check.
pub proof fn lemma_decode_ok_iff_valid(op: ModbusOperation, buf: Seq<u8>)
    ensures
        spec_decode(op, buf) is Ok <==> spec_response_valid(op, buf),
        spec_decode(op, buf) matches Ok(p) ==> p == spec_response_payload(op, buf),
{
}

/// The exact length of the reply frame that carries `payload_len`
/// payload bytes: the link sets its read size to this, per
/// operation.
pub fn reply_length(operation: ModbusOperation, payload_len: usize) -> (r: usize)
    requires
        payload_len <= usize::MAX - 5,
    ensures
        r == spec_payload_start(operation) + payload_len + 2,
{
    if operation.qtd.is_none() {
        payload_len + 5
    } else {
        payload_len + 4
    }
}

/// A reply frame is exactly as long as [`reply_length`] says for its
/// payload.
pub proof fn lemma_response_length(op: ModbusOperation, payload: Seq<u8>)
    ensures
        spec_response(op, payload).len() == spec_payload_start(op) + payload.len() + 2,
{
}

/// Build a request frame for `operation` around the given payload
/// bytes.
pub fn create_modbus(operation: ModbusOperation, data: &[u8]) -> (r: Vec<u8>)
    ensures
        r@ == spec_request(operation, data@),
{
    let mut buffer: Vec<u8> = Vec::new();
    buffer.push(TARGET_ADDRESS);
    buffer.push(operation.code);
    buffer.push(operation.subcode);
    let mut i: usize = 0;
    while i < data.len()
        invariant
            i <= data@.len(),
            buffer@ == seq![TARGET_ADDRESS, operation.code, operation.subcode] + data@.take(
                i as int,
            ),
        decreases data@.len() - i,
    {
        buffer.push(data[i]);
        proof {
            assert(data@.take(i as int).push(data@[i as int]) =~= data@.take(i + 1));
            assert(buffer@ == seq![TARGET_ADDRESS, operation.code, operation.subcode] + data@.take(
                i + 1,
            ));
        }
        i = i + 1;
    }
    proof {
        assert(data@.take(data@.len() as int) =~= data@);
    }
    buffer.push(0x06);
    buffer.push(0x05);
    buffer.push(0x02);
    buffer.push(0x01);
    proof {
        assert(buffer@ =~= spec_request_body(operation, data@));
    }
    let c = crc16(buffer.as_slice());
    proof {
        assert(c & 0xFF < 256) by (bit_vector);
        assert(c >> 8 < 256) by (bit_vector);
    }
    buffer.push((c & 0xFF) as u8);
    buffer.push((c >> 8u16) as u8);
    proof {
        assert(buffer@ =~= spec_request(operation, data@));
    }
    buffer
}

/// Build the reply frame the peripheral sends back for `operation`
/// with the given payload bytes.  The controller itself only decodes
/// replies; this builder is the decoder's dual and is what the test
/// rig uses to exercise it.
pub fn create_modbus_response(operation: ModbusOperation, payload: &[u8]) -> (r: Vec<u8>)
    ensures
        r@ == spec_response(operation, payload@),
{
    let mut buffer: Vec<u8> = Vec::new();
    buffer.push(SOURCE_ADDRESS);
    buffer.push(operation.code);
    if operation.qtd.is_none() {
        buffer.push(operation.subcode);
    }
    let ghost head = spec_response_body(operation, Seq::<u8>::empty());
    proof {
        assert(buffer@ =~= head);
    }
    let mut i: usize = 0;
    while i < payload.len()
        invariant
            i <= payload@.len(),
            buffer@ == head + payload@.take(i as int),
        decreases payload@.len() - i,
    {
        buffer.push(payload[i]);
        proof {
            assert(payload@.take(i as int).push(payload@[i as int]) =~= payload@.take(i + 1));
            assert(buffer@ == head + payload@.take(i + 1));
        }
        i = i + 1;
    }
    proof {
        assert(payload@.take(payload@.len() as int) =~= payload@);
        assert(buffer@ =~= spec_response_body(operation, payload@));
    }
    let c = crc16(buffer.as_slice());
    proof {
        assert(c & 0xFF < 256) by (bit_vector);
        assert(c >> 8 < 256) by (bit_vector);
    }
    buffer.push((c & 0xFF) as u8);
    buffer.push((c >> 8u16) as u8);
    proof {
        assert(buffer@ =~= spec_response(operation, payload@));
    }
    buffer
}

/// Decode a reply frame, yielding its payload bytes or the first
/// check that failed.
pub fn read_modbus(operation: ModbusOperation, buffer: &[u8]) -> (r: Result<Vec<u8>, DecodeError>)
    ensures
        r is Ok <==> spec_response_valid(operation, buffer@),
        r matches Ok(v) ==> v@ == spec_response_payload(operation, buffer@),
        r matches Err(e) ==> Err::<Seq<u8>, DecodeError>(e) == spec_decode(operation, buffer@),
{
    let n = buffer.len();
    if n < 5 {
        return Err(DecodeError::TooShort);
    }
    if buffer[0] != SOURCE_ADDRESS {
        return Err(DecodeError::BadAddress);
    }
    if buffer[1] != operation.code {
        return Err(DecodeError::BadCode);
    }
    let start: usize;
    match operation.qtd {
        None => {
            if buffer[2] != operation.subcode {
                return Err(DecodeError::BadSubcode);
            }
            start = 3;
        },
        Some(q) => {
            if n - 4 != q as usize {
                return Err(DecodeError::BadLength);
            }
            start = 2;
        },
    }
    let c = crc16(&buffer[0..n - 2]);
    let stored: u16 = (buffer[n - 2] as u16) | ((buffer[n - 1] as u16) << 8u16);
    if stored != c {
        return Err(DecodeError::BadChecksum);
    }
    proof {
        assert(buffer@.subrange(0, n - 2) =~= buffer@.take(n - 2));
    }
    let mut payload: Vec<u8> = Vec::new();
    let mut i: usize = start;
    while i < n - 2
        invariant
            start <= i <= n - 2,
            n == buffer@.len(),
            start == spec_payload_start(operation),
            payload@ == buffer@.subrange(start as int, i as int),
        decreases n - 2 - i,
    {
        payload.push(buffer[i]);
        proof {
            assert(buffer@.subrange(start as int, i as int).push(buffer@[i as int])
                =~= buffer@.subrange(start as int, i + 1));
        }
        i = i + 1;
    }
    Ok(payload)
}

/// The two bytes that close a request frame carry the checksum of
/// everything before them.
pub proof fn lemma_request_checksum(op: ModbusOperation, data: Seq<u8>)
    ensures
        spec_request(op, data).len() == spec_request_body(op, data).len() + 2,
        spec_request(op, data).take(spec_request(op, data).len() - 2) == spec_request_body(
            op,
            data,
        ),
        u16_from_pair(
            spec_request(op, data)[spec_request(op, data).len() - 2],
            spec_request(op, data)[spec_request(op, data).len() - 1],
        ) == crc16_of(spec_request_body(op, data)),
{
    let body = spec_request_body(op, data);
    let frame = spec_request(op, data);
    assert(frame.take(frame.len() - 2) =~= body);
    lemma_u16_pair_round_trip(crc16_of(body));
}

/// Decoding a freshly encoded reply yields exactly the payload that
/// went in: every check passes.
pub proof fn lemma_response_round_trip(op: ModbusOperation, payload: Seq<u8>)
    requires
        spec_payload_permitted(op, payload),
    ensures
        spec_response_valid(op, spec_response(op, payload)),
        spec_response_payload(op, spec_response(op, payload)) == payload,
{
    let body = spec_response_body(op, payload);
    let frame = spec_response(op, payload);
    assert(frame.take(frame.len() - 2) =~= body);
    lemma_u16_pair_round_trip(crc16_of(body));
    assert(frame.len() >= 5);
    assert(spec_response_payload(op, frame) =~= payload);
}

/// Corrupting any single byte of an encoded reply makes the decoder
/// reject the frame: a corrupted checksum byte no longer matches the
/// body, and a corrupted body byte changes the body's checksum.
pub proof fn lemma_single_corruption_rejected(
    op: ModbusOperation,
    payload: Seq<u8>,
    i: int,
    b: u8,
)
    requires
        spec_payload_permitted(op, payload),
        0 <= i < spec_response(op, payload).len(),
        b != spec_response(op, payload)[i],
    ensures
        !spec_response_valid(op, spec_response(op, payload).update(i, b)),
{
    let body = spec_response_body(op, payload);
    let frame = spec_response(op, payload);
    let n = frame.len() as int;
    let mutated = frame.update(i, b);
    assert(frame.take(n - 2) =~= body);
    lemma_u16_pair_round_trip(crc16_of(body));
    if i < n - 2 {
        assert(mutated.take(n - 2) =~= body.update(i, b));
        lemma_crc16_update_changes(body, i, b);
        assert(mutated[n - 2] == frame[n - 2] && mutated[n - 1] == frame[n - 1]);
    } else {
        assert(mutated.take(n - 2) =~= body);
        if u16_from_pair(mutated[n - 2], mutated[n - 1]) == u16_from_pair(
            frame[n - 2],
            frame[n - 1],
        ) {
            lemma_u16_pair_injective(mutated[n - 2], mutated[n - 1], frame[n - 2], frame[n - 1]);
            assert(false);
        }
    }
}

} // verus!
