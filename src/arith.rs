//! One's-complement word arithmetic.
//!
//! A word holds a fifteen-bit one's-complement value in bits 0..=14; bit 14
//! is its sign. In the sixteen-bit accumulator form bit 15 is an overflow
//! tag that holds the true sign: it differs from bit 14 exactly when an
//! overflow is pending.
use vstd::prelude::*;

verus! {

/// Negative one in accumulator form.
pub const NEG_ONE: u16 = 0xFFFE;

/// Negative zero in accumulator form.
pub const NEG_ZERO: u16 = 0xFFFF;

/// Mask that clears the overflow tag.
pub const ZERO_BIT16: u16 = 0x7FFF;

/// Bit 14 of a word, its fifteen-bit sign.
pub open spec fn sign_of(n: u16) -> u16 {
    (n >> 14) & 1
}

/// Bit 15 of a word, the overflow tag of the accumulator form.
pub open spec fn tag_of(n: u16) -> u16 {
    (n >> 15) & 1
}

/// An accumulator-form value whose tag and sign disagree.
pub open spec fn has_overflow(n: u16) -> bool {
    sign_of(n) != tag_of(n)
}

/// The fifteen-bit sum with end-around carry: a carry out of bit 14 is
/// added back into bit 0 and is also kept in bit 15.
pub open spec fn end_around(s: int) -> int {
    if s >= 0x8000 {
        s + 1
    } else {
        s
    }
}

/// The modified one's-complement sum of two accumulator-form values: the
/// low fifteen bits are added with end-around carry, and both overflow tags
/// are added into bit 15.
pub open spec fn modified_sum(a: u16, b: u16) -> u16 {
    ((end_around((a & 0x7FFF) + (b & 0x7FFF)) + (a & 0x8000) + (b & 0x8000)) % 0x10000) as u16
}

/// The fifteen-bit word in accumulator form: bit 14 copied into bit 15.
pub open spec fn extended(n: u16) -> u16 {
    if n & 0x4000 == 0 {
        n & 0x7FFF
    } else {
        n | 0x8000
    }
}

/// An overflowing value with bit 14 flipped to agree with the tag, which
/// gives the largest magnitude of the tag's sign; any other value as it is.
pub open spec fn corrected(n: u16) -> u16 {
    if has_overflow(n) {
        n ^ 0x4000
    } else {
        n
    }
}

/// The integer that the low fifteen bits of a word stand for. Both zeros
/// give 0.
pub open spec fn value_of(n: u16) -> int {
    if n & 0x4000 == 0 {
        (n & 0x3FFF) as int
    } else {
        (n & 0x7FFF) - 0x7FFF
    }
}

/// The sixteen-bit one's-complement pattern of an integer.
pub open spec fn ones16(n: i16) -> u16 {
    if n < 0 {
        !((-n) as u16)
    } else {
        n as u16
    }
}

/// The thirty-two-bit one's-complement pattern of an integer.
pub open spec fn ones32(n: i32) -> u32 {
    if n < 0 {
        !((-n) as u32)
    } else {
        n as u32
    }
}

/// Modified one's-complement addition of two accumulator-form values.
pub fn add_modified(a: u16, b: u16) -> (r: u16)
    ensures
        r == modified_sum(a, b),
{
    let low_a: u32 = (a & 0x7FFF) as u32;
    let low_b: u32 = (b & 0x7FFF) as u32;
    assert(low_a <= 0x7FFF && low_b <= 0x7FFF) by (bit_vector)
        requires
            low_a == (a & 0x7FFF) as u32,
            low_b == (b & 0x7FFF) as u32,
    ;
    let mut sum: u32 = low_a + low_b;
    let carry: u32 = (sum >> 15) % 2;
    assert(carry == if sum >= 0x8000 { 1u32 } else { 0u32 }) by (bit_vector)
        requires
            carry == (sum >> 15) % 2,
            sum <= 0xFFFE,
    ;
    sum = sum + carry;
    let tag_a: u32 = (a & 0x8000) as u32;
    let tag_b: u32 = (b & 0x8000) as u32;
    assert(tag_a <= 0x8000 && tag_b <= 0x8000) by (bit_vector)
        requires
            tag_a == (a & 0x8000) as u32,
            tag_b == (b & 0x8000) as u32,
    ;
    sum = sum + tag_a + tag_b;
    (sum % 0x10000) as u16
}

/// Flips bit 14 of a value whose overflow tag disagrees with it.
pub fn correct(n: u16) -> (r: u16)
    ensures
        r == corrected(n),
{
    let sign_bits = n >> 14;
    if sign_bits == 0 || sign_bits == 3 {
        assert(!has_overflow(n)) by (bit_vector)
            requires
                sign_bits == n >> 14,
                sign_bits == 0 || sign_bits == 3,
        ;
        n
    } else {
        assert(has_overflow(n)) by (bit_vector)
            requires
                sign_bits == n >> 14,
                sign_bits != 0 && sign_bits != 3,
        ;
        n ^ 0x4000
    }
}

/// Copies bit 14 into bit 15.
pub fn sign_extend(n: u16) -> (r: u16)
    ensures
        r == extended(n),
{
    if n & 0x4000 == 0 {
        n & 0x7FFF
    } else {
        n | 0x8000
    }
}

/// The integer value of the low fifteen bits of a word.
pub fn as_i32(n: u16) -> (r: i32)
    ensures
        r as int == value_of(n),
{
    let low: u16 = n & 0x7FFF;
    if n & 0x4000 == 0 {
        let v: u16 = n & 0x3FFF;
        v as i32
    } else {
        assert(low >= 0x4000 && low <= 0x7FFF) by (bit_vector)
            requires
                low == n & 0x7FFF,
                n & 0x4000 != 0,
        ;
        low as i32 - 0x7FFF
    }
}

/// The one's-complement pattern of a thirty-two-bit integer.
pub fn ones_complement32(n: i32) -> (r: u32)
    ensures
        r == ones32(n),
{
    if n < 0 {
        let m: i64 = -(n as i64);
        !(m as u32)
    } else {
        n as u32
    }
}

/// The one's-complement pattern of a sixteen-bit integer.
pub fn ones_complement16(n: i16) -> (r: u16)
    ensures
        r == ones16(n),
{
    if n < 0 {
        let m: i32 = -(n as i32);
        !(m as u16)
    } else {
        n as u16
    }
}

/// Bit 14 of a word: 1 when its fifteen-bit value is negative.
pub fn sign_bit(n: u16) -> (r: u16)
    ensures
        r == sign_of(n),
        r <= 1,
{
    let r = (n >> 14) % 2;
    assert(r == sign_of(n) && r <= 1) by (bit_vector)
        requires
            r == (n >> 14) % 2,
    ;
    r
}

/// Bit 15 of a word: 1 when its accumulator-form value is negative.
pub fn bit16(n: u16) -> (r: u16)
    ensures
        r == tag_of(n),
        r <= 1,
{
    let r = n >> 15;
    assert(r == tag_of(n) && r <= 1) by (bit_vector)
        requires
            r == n >> 15,
    ;
    r
}

/// Converting a word to its integer and back gives the word in accumulator
/// form; the one exception is negative zero, which comes back as positive
/// zero.
pub proof fn lemma_signed_round_trip(w: u16)
    ensures
        (w & 0x7FFF) != 0x7FFF ==> ones16(value_of(w) as i16) == extended(w),
        (w & 0x7FFF) == 0x7FFF ==> ones16(value_of(w) as i16) == 0,
{
    assert((w & 0x7FFF) != 0x7FFF ==> ones16(value_of(w) as i16) == extended(w)) by (bit_vector);
    assert((w & 0x7FFF) == 0x7FFF ==> ones16(value_of(w) as i16) == 0) by (bit_vector);
}

/// The sixteen-bit patterns of a non-zero integer and of its negation are
/// bitwise complements of each other.
pub proof fn lemma_complement_symmetry16(n: i16)
    requires
        n != 0,
        n != i16::MIN,
    ensures
        ones16(n) == !ones16((-n) as i16),
{
    assert(ones16(n) == !ones16((-n) as i16)) by (bit_vector)
        requires
            n != 0,
            n != i16::MIN,
    ;
}

/// The thirty-two-bit patterns of a non-zero integer and of its negation
/// are bitwise complements of each other.
pub proof fn lemma_complement_symmetry32(n: i32)
    requires
        n != 0,
        n != i32::MIN,
    ensures
        ones32(n) == !ones32((-n) as i32),
{
    assert(ones32(n) == !ones32((-n) as i32)) by (bit_vector)
        requires
            n != 0,
            n != i32::MIN,
    ;
}

} // verus!
