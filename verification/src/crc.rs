//! The 16-bit wire checksum used by the frame codec: the reflected
//! polynomial 0xA001 with initial value 0xFFFF, folded over the frame
//! bytes and transmitted little-endian after them.
//!
//! Besides the checksum itself this module proves that every update
//! step is injective in both the running state and the incoming byte.
//! Those lemmas are what lets the codec show that a single corrupted
//! byte anywhere in a frame always changes the checksum, so the
//! decoder rejects the frame.

use vstd::prelude::*;

verus! {

/// One shift step of the checksum: divide the running remainder by x,
/// folding the generator polynomial back in when a one bit falls out.
pub open spec fn crc16_shift(c: u16) -> u16 {
    if c & 1 == 1 {
        (c >> 1) ^ 0xA001
    } else {
        c >> 1
    }
}

/// Absorb one byte into the running checksum: mix it into the low
/// eight bits, then shift eight times.
pub open spec fn crc16_byte(c: u16, b: u8) -> u16 {
    crc16_shift(
        crc16_shift(
            crc16_shift(
                crc16_shift(
                    crc16_shift(crc16_shift(crc16_shift(crc16_shift(c ^ (b as u16))))),
                ),
            ),
        ),
    )
}

/// Fold a byte sequence into a running checksum, front to back.
pub open spec fn crc16_fold(c: u16, data: Seq<u8>) -> u16
    decreases data.len(),
{
    if data.len() == 0 {
        c
    } else {
        crc16_fold(crc16_byte(c, data[0]), data.skip(1))
    }
}

/// The checksum of a byte sequence.
pub open spec fn crc16_of(data: Seq<u8>) -> u16 {
    crc16_fold(0xFFFF, data)
}

/// Executable twin of [`crc16_shift`].
fn crc16_shift_exec(c: u16) -> (r: u16)
    ensures
        r == crc16_shift(c),
{
    if c & 1 == 1 {
        (c >> 1u16) ^ 0xA001
    } else {
        c >> 1u16
    }
}

/// Executable twin of [`crc16_byte`].
fn crc16_byte_exec(c: u16, b: u8) -> (r: u16)
    ensures
        r == crc16_byte(c, b),
{
    let mut x = c ^ (b as u16);
    x = crc16_shift_exec(x);
    x = crc16_shift_exec(x);
    x = crc16_shift_exec(x);
    x = crc16_shift_exec(x);
    x = crc16_shift_exec(x);
    x = crc16_shift_exec(x);
    x = crc16_shift_exec(x);
    x = crc16_shift_exec(x);
    x
}

/// The checksum of `data`, as sent on the wire after the frame body.
pub fn crc16(data: &[u8]) -> (r: u16)
    ensures
        r == crc16_of(data@),
{
    let mut c: u16 = 0xFFFF;
    let mut i: usize = 0;
    while i < data.len()
        invariant
            i <= data@.len(),
            c == crc16_fold(0xFFFF, data@.take(i as int)),
        decreases data@.len() - i,
    {
        proof {
            lemma_crc16_fold_push(0xFFFF, data@.take(i as int), data@[i as int]);
            assert(data@.take(i as int).push(data@[i as int]) =~= data@.take(i + 1));
        }
        c = crc16_byte_exec(c, data[i]);
        i = i + 1;
    }
    proof {
        assert(data@.take(data@.len() as int) =~= data@);
    }
    c
}

/// Folding one more byte at the back equals one absorption step after
/// folding the front.
pub proof fn lemma_crc16_fold_push(c: u16, s: Seq<u8>, b: u8)
    ensures
        crc16_fold(c, s.push(b)) == crc16_byte(crc16_fold(c, s), b),
    decreases s.len(),
{
    if s.len() == 0 {
        assert(s.push(b)[0] == b);
        assert(s.push(b).skip(1) =~= Seq::<u8>::empty());
        assert(crc16_fold(c, s.push(b)) == crc16_fold(crc16_byte(c, b), s.push(b).skip(1)));
        assert(crc16_fold(crc16_byte(c, b), s.push(b).skip(1)) == crc16_byte(c, b));
        assert(crc16_fold(c, s) == c);
    } else {
        assert(s.push(b)[0] == s[0]);
        assert(s.push(b).skip(1) =~= s.skip(1).push(b));
        assert(crc16_fold(c, s.push(b)) == crc16_fold(crc16_byte(c, s[0]), s.skip(1).push(b)));
        lemma_crc16_fold_push(crc16_byte(c, s[0]), s.skip(1), b);
        assert(crc16_fold(c, s) == crc16_fold(crc16_byte(c, s[0]), s.skip(1)));
    }
}

/// Folding a concatenation equals folding the two halves in turn.
pub proof fn lemma_crc16_fold_append(c: u16, s: Seq<u8>, t: Seq<u8>)
    ensures
        crc16_fold(c, s + t) == crc16_fold(crc16_fold(c, s), t),
    decreases s.len(),
{
    if s.len() == 0 {
        assert(s + t =~= t);
    } else {
        assert((s + t)[0] == s[0]);
        assert((s + t).skip(1) =~= s.skip(1) + t);
        lemma_crc16_fold_append(crc16_byte(c, s[0]), s.skip(1), t);
    }
}

/// A shift step never maps two distinct states to the same state.
proof fn lemma_crc16_shift_injective(c1: u16, c2: u16)
    by (bit_vector)
    requires
        crc16_shift(c1) == crc16_shift(c2),
    ensures
        c1 == c2,
{
}

/// Absorbing the same byte from two distinct states keeps the states
/// distinct.
pub proof fn lemma_crc16_byte_state_injective(c1: u16, c2: u16, b: u8)
    requires
        crc16_byte(c1, b) == crc16_byte(c2, b),
    ensures
        c1 == c2,
{
    let x1 = c1 ^ (b as u16);
    let x2 = c2 ^ (b as u16);
    let s1_1 = crc16_shift(x1);
    let s1_2 = crc16_shift(s1_1);
    let s1_3 = crc16_shift(s1_2);
    let s1_4 = crc16_shift(s1_3);
    let s1_5 = crc16_shift(s1_4);
    let s1_6 = crc16_shift(s1_5);
    let s1_7 = crc16_shift(s1_6);
    let s2_1 = crc16_shift(x2);
    let s2_2 = crc16_shift(s2_1);
    let s2_3 = crc16_shift(s2_2);
    let s2_4 = crc16_shift(s2_3);
    let s2_5 = crc16_shift(s2_4);
    let s2_6 = crc16_shift(s2_5);
    let s2_7 = crc16_shift(s2_6);
    lemma_crc16_shift_injective(s1_7, s2_7);
    lemma_crc16_shift_injective(s1_6, s2_6);
    lemma_crc16_shift_injective(s1_5, s2_5);
    lemma_crc16_shift_injective(s1_4, s2_4);
    lemma_crc16_shift_injective(s1_3, s2_3);
    lemma_crc16_shift_injective(s1_2, s2_2);
    lemma_crc16_shift_injective(s1_1, s2_1);
    lemma_crc16_shift_injective(x1, x2);
    assert(c1 == c2) by (bit_vector)
        requires
            c1 ^ (b as u16) == c2 ^ (b as u16),
    ;
}

/// Absorbing two distinct bytes from the same state yields distinct
/// states.
pub proof fn lemma_crc16_byte_injective(c: u16, b1: u8, b2: u8)
    requires
        crc16_byte(c, b1) == crc16_byte(c, b2),
    ensures
        b1 == b2,
{
    let x1 = c ^ (b1 as u16);
    let x2 = c ^ (b2 as u16);
    let s1_1 = crc16_shift(x1);
    let s1_2 = crc16_shift(s1_1);
    let s1_3 = crc16_shift(s1_2);
    let s1_4 = crc16_shift(s1_3);
    let s1_5 = crc16_shift(s1_4);
    let s1_6 = crc16_shift(s1_5);
    let s1_7 = crc16_shift(s1_6);
    let s2_1 = crc16_shift(x2);
    let s2_2 = crc16_shift(s2_1);
    let s2_3 = crc16_shift(s2_2);
    let s2_4 = crc16_shift(s2_3);
    let s2_5 = crc16_shift(s2_4);
    let s2_6 = crc16_shift(s2_5);
    let s2_7 = crc16_shift(s2_6);
    lemma_crc16_shift_injective(s1_7, s2_7);
    lemma_crc16_shift_injective(s1_6, s2_6);
    lemma_crc16_shift_injective(s1_5, s2_5);
    lemma_crc16_shift_injective(s1_4, s2_4);
    lemma_crc16_shift_injective(s1_3, s2_3);
    lemma_crc16_shift_injective(s1_2, s2_2);
    lemma_crc16_shift_injective(s1_1, s2_1);
    lemma_crc16_shift_injective(x1, x2);
    assert(b1 == b2) by (bit_vector)
        requires
            c ^ (b1 as u16) == c ^ (b2 as u16),
    ;
}

/// Folding the same bytes from two distinct states keeps the states
/// distinct.
pub proof fn lemma_crc16_fold_state_injective(c1: u16, c2: u16, s: Seq<u8>)
    requires
        crc16_fold(c1, s) == crc16_fold(c2, s),
    ensures
        c1 == c2,
    decreases s.len(),
{
    if s.len() > 0 {
        lemma_crc16_fold_state_injective(crc16_byte(c1, s[0]), crc16_byte(c2, s[0]), s.skip(1));
        lemma_crc16_byte_state_injective(c1, c2, s[0]);
    }
}

/// Changing a single byte of a sequence always changes its checksum.
pub proof fn lemma_crc16_update_changes(s: Seq<u8>, i: int, b: u8)
    requires
        0 <= i < s.len(),
        b != s[i],
    ensures
        crc16_of(s.update(i, b)) != crc16_of(s),
{
    let t = s.update(i, b);
    let pre = s.take(i);
    assert(t.take(i) =~= pre);
    assert(s =~= pre + (seq![s[i]] + s.skip(i + 1)));
    assert(t =~= pre + (seq![b] + t.skip(i + 1)));
    assert(t.skip(i + 1) =~= s.skip(i + 1));
    let c = crc16_fold(0xFFFF, pre);
    lemma_crc16_fold_append(0xFFFF, pre, seq![s[i]] + s.skip(i + 1));
    lemma_crc16_fold_append(0xFFFF, pre, seq![b] + s.skip(i + 1));
    assert((seq![s[i]] + s.skip(i + 1)).skip(1) =~= s.skip(i + 1));
    assert((seq![b] + s.skip(i + 1)).skip(1) =~= s.skip(i + 1));
    assert(crc16_fold(c, seq![s[i]] + s.skip(i + 1)) == crc16_fold(
        crc16_byte(c, s[i]),
        s.skip(i + 1),
    ));
    assert(crc16_fold(c, seq![b] + s.skip(i + 1)) == crc16_fold(
        crc16_byte(c, b),
        s.skip(i + 1),
    ));
    if crc16_of(t) == crc16_of(s) {
        lemma_crc16_fold_state_injective(crc16_byte(c, b), crc16_byte(c, s[i]), s.skip(i + 1));
        lemma_crc16_byte_injective(c, b, s[i]);
        assert(false);
    }
}

} // verus!
