//! Byte lanes, byte order and sign extension of 16- and 32-bit values, stated by
//! integer arithmetic.

use vstd::prelude::*;

verus! {

/// Byte `k` of `x`, counting from the least significant byte.
pub open spec fn lane(x: u32, k: int) -> u8 {
    if k == 0 {
        (x % 256) as u8
    } else if k == 1 {
        ((x / 0x100) % 256) as u8
    } else if k == 2 {
        ((x / 0x1_0000) % 256) as u8
    } else {
        ((x / 0x100_0000) % 256) as u8
    }
}

/// The four bytes of `x`, least significant first.
pub open spec fn lanes(x: u32) -> Seq<u8> {
    seq![lane(x, 0), lane(x, 1), lane(x, 2), lane(x, 3)]
}

/// The word whose bytes, least significant first, are `b0`, `b1`, `b2`, `b3`.
pub open spec fn word_le(b0: u8, b1: u8, b2: u8, b3: u8) -> u32 {
    (b0 + 0x100 * b1 + 0x1_0000 * b2 + 0x100_0000 * b3) as u32
}

/// The half-word whose bytes, least significant first, are `b0`, `b1`.
pub open spec fn half_le(b0: u8, b1: u8) -> u16 {
    (b0 + 0x100 * b1) as u16
}

/// The word made of the four bytes of `s`, least significant first.
pub open spec fn word_of_lanes(s: Seq<u8>) -> u32
    recommends
        s.len() == 4,
{
    word_le(s[0], s[1], s[2], s[3])
}

/// `x` with its four bytes in reverse order.
pub open spec fn swap32(x: u32) -> u32 {
    word_le(lane(x, 3), lane(x, 2), lane(x, 1), lane(x, 0))
}

/// `x` with its two bytes exchanged.
pub open spec fn swap16(x: u16) -> u16 {
    half_le((x / 0x100) as u8, (x % 0x100) as u8)
}

/// The 32-bit two's-complement pattern of the signed value that the 16-bit pattern `x`
/// stands for.
pub open spec fn sign_extend_16(x: u16) -> u32 {
    if x < 0x8000 {
        x as u32
    } else {
        (x + 0xFFFF_0000) as u32
    }
}

/// The 32-bit two's-complement pattern of the signed value that the 8-bit pattern `x`
/// stands for.
pub open spec fn sign_extend_8(x: u8) -> u32 {
    if x < 0x80 {
        x as u32
    } else {
        (x + 0xFFFF_FF00) as u32
    }
}

/// The signed value that the 32-bit two's-complement pattern `x` stands for.
pub open spec fn signed(x: u32) -> int {
    if x < 0x8000_0000 {
        x as int
    } else {
        x - 0x1_0000_0000
    }
}

/// The 32-bit two's-complement pattern of `v`: `v` modulo 2^32.
pub open spec fn pattern(v: int) -> u32 {
    (v % 0x1_0000_0000) as u32
}

/// Sum modulo 2^32.
pub open spec fn add32(x: u32, y: u32) -> u32 {
    if x + y >= 0x1_0000_0000 {
        (x + y - 0x1_0000_0000) as u32
    } else {
        (x + y) as u32
    }
}

/// Difference modulo 2^32.
pub open spec fn sub32(x: u32, y: u32) -> u32 {
    if x < y {
        (x - y + 0x1_0000_0000) as u32
    } else {
        (x - y) as u32
    }
}

/// `add32` and `sub32` give the patterns of the sum and of the difference.
pub proof fn add32_is_modular(x: u32, y: u32)
    ensures
        add32(x, y) == pattern(x + y),
        sub32(x, y) == pattern(x - y),
{
}

/// The quotient of `a` by `b`, rounded towards zero.
pub open spec fn quotient(a: int, b: int) -> int
    recommends
        b != 0,
{
    if a >= 0 && b > 0 {
        a / b
    } else if a >= 0 {
        -(a / (-b))
    } else if b > 0 {
        -((-a) / b)
    } else {
        (-a) / (-b)
    }
}

/// What is left of `a` after the division by `b` that rounds towards zero. It has the
/// sign of `a`.
pub open spec fn remainder(a: int, b: int) -> int
    recommends
        b != 0,
{
    a - b * quotient(a, b)
}

/// The bytes of a word assembled from four bytes are those four bytes.
pub proof fn lanes_of_word(b0: u8, b1: u8, b2: u8, b3: u8)
    ensures
        lane(word_le(b0, b1, b2, b3), 0) == b0,
        lane(word_le(b0, b1, b2, b3), 1) == b1,
        lane(word_le(b0, b1, b2, b3), 2) == b2,
        lane(word_le(b0, b1, b2, b3), 3) == b3,
        lanes(word_le(b0, b1, b2, b3)) == seq![b0, b1, b2, b3],
{
    let w = word_le(b0, b1, b2, b3);
    let high1: int = b1 + 0x100 * b2 + 0x1_0000 * b3;
    let high2: int = b2 + 0x100 * b3;
    assert(w == 0x100 * high1 + b0);
    assert(w / 0x100 == high1);
    assert(w == 0x1_0000 * high2 + (b0 + 0x100 * b1));
    assert(w / 0x1_0000 == high2);
    assert(w == 0x100_0000 * b3 + (b0 + 0x100 * b1 + 0x1_0000 * b2));
    assert(w / 0x100_0000 == b3);
}

/// Reversing the bytes of a word assembled from four bytes assembles them in the opposite
/// order.
pub proof fn swap32_of_word(b0: u8, b1: u8, b2: u8, b3: u8)
    ensures
        swap32(word_le(b0, b1, b2, b3)) == word_le(b3, b2, b1, b0),
{
    lanes_of_word(b0, b1, b2, b3);
}

/// Reversing the bytes twice gives the value back.
pub proof fn swap32_involutive(x: u32)
    ensures
        swap32(swap32(x)) == x,
{
    swap32_of_word(lane(x, 3), lane(x, 2), lane(x, 1), lane(x, 0));
    word_of_own_lanes(x);
}

/// A word is assembled from its own bytes.
pub proof fn word_of_own_lanes(x: u32)
    ensures
        word_of_lanes(lanes(x)) == x,
        word_le(lane(x, 0), lane(x, 1), lane(x, 2), lane(x, 3)) == x,
{
}

/// Exchanging the bytes twice gives the value back.
pub proof fn swap16_involutive(x: u16)
    ensures
        swap16(swap16(x)) == x,
{
}

/// Byte `k` of `x`, counting from the least significant byte.
pub fn lane_of(x: u32, k: u8) -> (b: u8)
    requires
        k < 4,
    ensures
        b == lane(x, k as int),
{
    let shifted: u32 = if k == 0 {
        x
    } else if k == 1 {
        x / 0x100
    } else if k == 2 {
        x / 0x1_0000
    } else {
        x / 0x100_0000
    };
    (shifted % 256) as u8
}

/// Assembles a word from four bytes, least significant first.
pub fn word_from_le(b0: u8, b1: u8, b2: u8, b3: u8) -> (w: u32)
    ensures
        w == word_le(b0, b1, b2, b3),
{
    (b0 as u32) + 0x100 * (b1 as u32) + 0x1_0000 * (b2 as u32) + 0x100_0000 * (b3 as u32)
}

/// Assembles a half-word from two bytes, least significant first.
pub fn half_from_le(b0: u8, b1: u8) -> (h: u16)
    ensures
        h == half_le(b0, b1),
{
    (b0 as u16) + 0x100 * (b1 as u16)
}

/// Reverses the byte order of a word.
pub fn swap_word(x: u32) -> (r: u32)
    ensures
        r == swap32(x),
{
    word_from_le(lane_of(x, 3), lane_of(x, 2), lane_of(x, 1), lane_of(x, 0))
}

/// Exchanges the two bytes of a half-word.
pub fn swap_half(x: u16) -> (r: u16)
    ensures
        r == swap16(x),
{
    half_from_le((x / 0x100) as u8, (x % 0x100) as u8)
}

/// Extends a 16-bit two's-complement pattern to 32 bits.
pub fn extend_half(x: u16) -> (r: u32)
    ensures
        r == sign_extend_16(x),
{
    if x < 0x8000 {
        x as u32
    } else {
        (x as u32) + 0xFFFF_0000
    }
}

/// Extends an 8-bit two's-complement pattern to 32 bits.
pub fn extend_byte(x: u8) -> (r: u32)
    ensures
        r == sign_extend_8(x),
{
    if x < 0x80 {
        x as u32
    } else {
        (x as u32) + 0xFFFF_FF00
    }
}

/// Adds modulo 2^32.
pub fn add_words(x: u32, y: u32) -> (r: u32)
    ensures
        r == add32(x, y),
{
    x.wrapping_add(y)
}

/// Subtracts modulo 2^32.
pub fn sub_words(x: u32, y: u32) -> (r: u32)
    ensures
        r == sub32(x, y),
{
    x.wrapping_sub(y)
}

/// The signed value of a 32-bit two's-complement pattern.
pub fn to_signed(x: u32) -> (r: i32)
    ensures
        r == signed(x),
{
    if x < 0x8000_0000 {
        x as i32
    } else {
        ((x - 0x8000_0000) as i32) + i32::MIN
    }
}

/// The 32-bit two's-complement pattern of a signed value.
pub fn from_signed(v: i32) -> (r: u32)
    ensures
        r == pattern(v as int),
        signed(r) == v,
{
    if v >= 0 {
        v as u32
    } else {
        ((v - i32::MIN) as u32) + 0x8000_0000
    }
}

/// Whether the signed value of `x` is below that of `y`.
pub fn signed_less(x: u32, y: u32) -> (r: bool)
    ensures
        r == (signed(x) < signed(y)),
{
    let x_negative = x >= 0x8000_0000;
    let y_negative = y >= 0x8000_0000;
    if x_negative == y_negative {
        x < y
    } else {
        x_negative
    }
}

} // verus!
