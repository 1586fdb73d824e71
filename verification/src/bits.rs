//! Facts that tie the bit-level operations used by the hardware description
//! to ordinary arithmetic.
use vstd::prelude::*;

verus! {

/// The 16-bit value whose high byte is `hi` and whose low byte is `lo`.
pub open spec fn pair(hi: u8, lo: u8) -> u16 {
    (hi as int * 256 + lo as int) as u16
}

/// The high byte of a 16-bit value.
pub open spec fn high_byte(v: u16) -> u8 {
    (v / 256) as u8
}

/// The low byte of a 16-bit value.
pub open spec fn low_byte(v: u16) -> u8 {
    (v % 256) as u8
}

/// Splitting a 16-bit value into bytes and joining them again gives the value back.
pub proof fn lemma_pair_split(v: u16)
    ensures
        pair(high_byte(v), low_byte(v)) == v,
{
}

/// Masks with a run of low bits are remainders; single high bits are thresholds.
pub proof fn lemma_mask_u8(x: u8)
    by (bit_vector)
    ensures
        x & 0x0F == x % 16,
        x & 0x0F <= 15,
        x & 0x03 == x % 4,
        x & 0x03 <= 3,
        x & 0x07 == x % 8,
        x & 0x01 == x % 2,
        (x & 0x80 != 0) == (x >= 128),
        (x & 0x80 == 0x80) == (x >= 128),
        (x & 0x01 == 0x01) == (x % 2 == 1),
        x >> 1 == x / 2,
        x >> 4 == x / 16,
        x << 1 == (x % 128) * 2,
        x << 4 == (x % 16) * 16,
        x & 0xF0 == (x / 16) * 16,
{
}

/// The low byte, the high byte and the low nibbles of a 16-bit value as masks and shifts.
pub proof fn lemma_mask_u16(v: u16)
    by (bit_vector)
    ensures
        v & 0x00FF == v % 256,
        v >> 8 == v / 256,
        (v & 0xFF00) >> 8 == v / 256,
        v & 0x000F == v % 16,
        v & 0x0FFF == v % 4096,
        v >> 8 <= 255,
        v & 0x00FF <= 255,
{
}

/// Shifting a byte into the high half of a word and or-ing in a low byte joins the two.
pub proof fn lemma_join_u16(hi: u8, lo: u8)
    by (bit_vector)
    ensures
        ((hi as u16) << 8) | (lo as u16) == hi as u16 * 256 + lo as u16,
        0xFF00u16 | (lo as u16) == 0xFF00 + lo as u16,
{
}

} // verus!
