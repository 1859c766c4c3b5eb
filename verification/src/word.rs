//! Arithmetic on 8-bit bytes and 16-bit words: splitting a word into its two
//! bytes, composing a word from bytes, and the wrapping operations that the
//! register file and the operand resolver rely on.

use vstd::prelude::*;

verus! {

/// The low byte of a 16-bit word.
pub open spec fn lo8(w: u16) -> u8 {
    (w % 0x100) as u8
}

/// The high byte of a 16-bit word.
pub open spec fn hi8(w: u16) -> u8 {
    (w / 0x100) as u8
}

/// The 16-bit word with the given high and low bytes.
pub open spec fn word_of(hi: u8, lo: u8) -> u16 {
    (hi * 0x100 + lo) as u16
}

/// 16-bit addition that wraps on overflow.
pub open spec fn wrap_add16(a: u16, b: u16) -> u16 {
    if a + b > 0xFFFF {
        (a + b - 0x10000) as u16
    } else {
        (a + b) as u16
    }
}

/// 16-bit subtraction that wraps on underflow.
pub open spec fn wrap_sub16(a: u16, b: u16) -> u16 {
    if a - b < 0 {
        (a - b + 0x10000) as u16
    } else {
        (a - b) as u16
    }
}

/// A word is exactly the composition of its two bytes.
pub proof fn lemma_word_bytes(w: u16)
    ensures
        word_of(hi8(w), lo8(w)) == w,
{
}

/// Adding and then subtracting the same amount, with wrapping, is the
/// identity, and so is the reverse order.
pub proof fn lemma_wrap_add_sub(a: u16, b: u16)
    ensures
        wrap_sub16(wrap_add16(a, b), b) == a,
        wrap_add16(wrap_sub16(a, b), b) == a,
{
}

/// Two wrapping increments amount to one wrapping addition of two.
pub proof fn lemma_wrap_inc_twice(a: u16)
    ensures
        wrap_add16(wrap_add16(a, 1), 1) == wrap_add16(a, 2),
{
}

} // verus!
