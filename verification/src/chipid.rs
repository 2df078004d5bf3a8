//! The FTDIChip-ID computation of R-type devices: two EEPROM words are
//! byte-swapped, combined into a 32-bit value, each byte is run through a
//! fixed bit permutation, and the result is XOR-ed with a fixed constant.
use vstd::prelude::*;

verus! {

/// The fixed single-bit permutation applied to each byte of the combined
/// EEPROM value.
pub open spec fn spec_chipid_shift(value: u32) -> u32 {
    ((value & 1) << 1) | ((value & 2) << 5) | ((value & 4) >> 2) | ((value & 8) << 4) | ((value
        & 16) >> 1) | ((value & 32) >> 1) | ((value & 64) >> 4) | ((value & 128) >> 2)
}

/// The bit-shift operation of the FTDIChip-ID scheme, applied to one byte
/// held in the low bits of the argument.
pub fn ftdi_read_chipid_shift(value: u32) -> (r: u32)
    ensures
        r == spec_chipid_shift(value),
{
    ((value & 1) << 1) | ((value & 2) << 5) | ((value & 4) >> 2) | ((value & 8) << 4) | ((value
        & 16) >> 1) | ((value & 32) >> 1) | ((value & 64) >> 4) | ((value & 128) >> 2)
}

/// Swap of the two bytes of a 16-bit word.
pub open spec fn spec_swap16(w: u16) -> u16 {
    (w << 8) | (w >> 8)
}

/// The chip identification value computed from the EEPROM words read at the
/// two fixed addresses: both words byte-swapped and combined (the first word
/// high), the permutation applied to each of the four bytes, and the result
/// XOR-ed with `0xA5F0F7D1`.
pub open spec fn spec_chipid(word_a: u16, word_b: u16) -> u32 {
    let a = spec_swap16(word_a) as u32;
    let b = spec_swap16(word_b) as u32;
    let combined = (a << 16) | b;
    let permuted = spec_chipid_shift(combined & 0xFF) | (spec_chipid_shift(
        (combined >> 8) & 0xFF,
    ) << 8) | (spec_chipid_shift((combined >> 16) & 0xFF) << 16) | (spec_chipid_shift(
        (combined >> 24) & 0xFF,
    ) << 24);
    permuted ^ 0xA5F0F7D1
}

/// Combines the two EEPROM words into the FTDIChip-ID value.
pub fn ftdi_chipid_combine(word_a: u16, word_b: u16) -> (r: u32)
    ensures
        r == spec_chipid(word_a, word_b),
{
    let a: u32 = ((word_a << 8) | (word_a >> 8)) as u32;
    let b: u32 = ((word_b << 8) | (word_b >> 8)) as u32;
    let combined: u32 = (a << 16) | b;
    let permuted: u32 = ftdi_read_chipid_shift(combined & 0xFF) | (ftdi_read_chipid_shift(
        (combined >> 8) & 0xFF,
    ) << 8) | (ftdi_read_chipid_shift((combined >> 16) & 0xFF) << 16) | (ftdi_read_chipid_shift(
        (combined >> 24) & 0xFF,
    ) << 24);
    permuted ^ 0xA5F0F7D1
}

} // verus!
