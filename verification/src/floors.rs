//! The shaft model: the calibrated encoder position of each floor,
//! the byte layout the positions are persisted in, and the rule that
//! derives a floor from an encoder reading.

use vstd::bytes::lemma_auto_spec_u32_to_from_le_bytes;
use vstd::bytes::spec_u32_from_le_bytes;
use vstd::bytes::spec_u32_to_le_bytes;
use vstd::bytes::u32_from_le_bytes;
use vstd::bytes::u32_to_le_bytes;
use vstd::prelude::*;

use crate::common::Floor;

verus! {

/// The number of bytes the four positions persist to: four signed
/// 32-bit values, little-endian, in floor order from the ground up.
pub const CALIBRATION_BYTES: usize = 16;

/// The little-endian bytes a position is persisted as.
pub open spec fn spec_position_le_bytes(x: i32) -> Seq<u8> {
    spec_u32_to_le_bytes(x as u32)
}

/// The position a little-endian byte quadruple carries.
pub open spec fn spec_position_from_le_bytes(s: Seq<u8>) -> i32 {
    spec_u32_from_le_bytes(s) as i32
}

/// Encoder position of the centre of each floor's sensor window,
/// learned by calibration.
#[derive(Clone, Copy, PartialEq, Eq, Structural, Debug)]
pub struct FloorsPosition {
    pub ground: i32,
    pub first: i32,
    pub second: i32,
    pub third: i32,
}

impl Default for FloorsPosition {
    /// All four positions at the encoder origin, the state before any
    /// calibration has been learned or loaded.
    fn default() -> (r: FloorsPosition)
        ensures
            r.ground == 0 && r.first == 0 && r.second == 0 && r.third == 0,
    {
        FloorsPosition { ground: 0, first: 0, second: 0, third: 0 }
    }
}

impl FloorsPosition {
    /// What a successful calibration guarantees: the positions rise
    /// strictly from the ground up.
    pub open spec fn well_ordered(self) -> bool {
        self.ground < self.first < self.second < self.third
    }

    /// The calibrated position of `floor`.
    pub open spec fn spec_position_of(self, floor: Floor) -> i32 {
        match floor {
            Floor::Ground => self.ground,
            Floor::First => self.first,
            Floor::Second => self.second,
            Floor::Third => self.third,
        }
    }

    /// Executable twin of [`Self::spec_position_of`].
    pub fn position_of(&self, floor: Floor) -> (r: i32)
        ensures
            r == self.spec_position_of(floor),
    {
        match floor {
            Floor::Ground => self.ground,
            Floor::First => self.first,
            Floor::Second => self.second,
            Floor::Third => self.third,
        }
    }

    /// The floor an encoder reading lies on: the highest floor whose
    /// lower boundary — the next floor's position less a 100-count
    /// hysteresis band — the reading has passed.
    pub open spec fn spec_derive_floor(self, position: int) -> Floor {
        if position < self.first - 100 {
            Floor::Ground
        } else if position < self.second - 100 {
            Floor::First
        } else if position < self.third - 100 {
            Floor::Second
        } else {
            Floor::Third
        }
    }

    /// Executable twin of [`Self::spec_derive_floor`].
    pub fn derive_floor(&self, position: i32) -> (r: Floor)
        ensures
            r == self.spec_derive_floor(position as int),
    {
        let pos = position as i64;
        if pos < self.first as i64 - 100 {
            Floor::Ground
        } else if pos < self.second as i64 - 100 {
            Floor::First
        } else if pos < self.third as i64 - 100 {
            Floor::Second
        } else {
            Floor::Third
        }
    }

    /// The 16 persisted bytes of this calibration.
    pub open spec fn spec_to_bytes(self) -> Seq<u8> {
        spec_position_le_bytes(self.ground) + spec_position_le_bytes(self.first)
            + spec_position_le_bytes(self.second) + spec_position_le_bytes(self.third)
    }

    /// Serialise the four positions in floor order, little-endian.
    pub fn to_bytes(&self) -> (r: Vec<u8>)
        ensures
            r@ == self.spec_to_bytes(),
            r@.len() == CALIBRATION_BYTES,
    {
        proof {
            lemma_auto_spec_u32_to_from_le_bytes();
        }
        let mut bytes = u32_to_le_bytes(self.ground as u32);
        let mut rest = u32_to_le_bytes(self.first as u32);
        bytes.append(&mut rest);
        let mut rest = u32_to_le_bytes(self.second as u32);
        bytes.append(&mut rest);
        let mut rest = u32_to_le_bytes(self.third as u32);
        bytes.append(&mut rest);
        bytes
    }

    /// Parse a persisted calibration.  Yields the positions exactly
    /// when the input holds the full 16 bytes; any other length is
    /// malformed.
    pub fn from_bytes(bytes: &[u8]) -> (r: Option<FloorsPosition>)
        ensures
            r is Some <==> bytes@.len() == CALIBRATION_BYTES,
            r matches Some(fp) ==> {
                &&& fp.ground == spec_position_from_le_bytes(bytes@.subrange(0, 4))
                &&& fp.first == spec_position_from_le_bytes(bytes@.subrange(4, 8))
                &&& fp.second == spec_position_from_le_bytes(bytes@.subrange(8, 12))
                &&& fp.third == spec_position_from_le_bytes(bytes@.subrange(12, 16))
            },
    {
        if bytes.len() != CALIBRATION_BYTES {
            return None;
        }
        let ground = u32_from_le_bytes(&bytes[0..4]) as i32;
        let first = u32_from_le_bytes(&bytes[4..8]) as i32;
        let second = u32_from_le_bytes(&bytes[8..12]) as i32;
        let third = u32_from_le_bytes(&bytes[12..16]) as i32;
        Some(FloorsPosition { ground, first, second, third })
    }
}

/// A position survives the round trip through its persisted bytes.
proof fn lemma_position_le_bytes_round_trip(x: i32)
    ensures
        spec_position_le_bytes(x).len() == 4,
        spec_position_from_le_bytes(spec_position_le_bytes(x)) == x,
{
    lemma_auto_spec_u32_to_from_le_bytes();
    assert(spec_u32_to_le_bytes(x as u32).len() == 4);
    assert(spec_u32_from_le_bytes(spec_u32_to_le_bytes(x as u32)) == x as u32);
    assert(((x as u32) as i32) == x) by (bit_vector);
}

/// Reading back a persisted calibration yields the positions that
/// were written, and the file is exactly 16 bytes.
pub proof fn lemma_calibration_bytes_round_trip(fp: FloorsPosition)
    ensures
        fp.spec_to_bytes().len() == CALIBRATION_BYTES,
        spec_position_from_le_bytes(fp.spec_to_bytes().subrange(0, 4)) == fp.ground,
        spec_position_from_le_bytes(fp.spec_to_bytes().subrange(4, 8)) == fp.first,
        spec_position_from_le_bytes(fp.spec_to_bytes().subrange(8, 12)) == fp.second,
        spec_position_from_le_bytes(fp.spec_to_bytes().subrange(12, 16)) == fp.third,
{
    lemma_auto_spec_u32_to_from_le_bytes();
    lemma_position_le_bytes_round_trip(fp.ground);
    lemma_position_le_bytes_round_trip(fp.first);
    lemma_position_le_bytes_round_trip(fp.second);
    lemma_position_le_bytes_round_trip(fp.third);
    let b = fp.spec_to_bytes();
    assert(b.subrange(0, 4) =~= spec_position_le_bytes(fp.ground));
    assert(b.subrange(4, 8) =~= spec_position_le_bytes(fp.first));
    assert(b.subrange(8, 12) =~= spec_position_le_bytes(fp.second));
    assert(b.subrange(12, 16) =~= spec_position_le_bytes(fp.third));
}

/// The derived floor never falls as the encoder reading rises,
/// whatever the calibration holds.
pub proof fn lemma_derive_floor_monotone(fp: FloorsPosition, p1: int, p2: int)
    requires
        p1 <= p2,
    ensures
        fp.spec_derive_floor(p1).spec_number() <= fp.spec_derive_floor(p2).spec_number(),
{
}

} // verus!
