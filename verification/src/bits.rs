//! Bit-level facts about register fields, shared by the hardware models.
use vstd::prelude::*;

verus! {

/// Bounds and identities of the bit fields that registers are split into.
pub proof fn lemma_u8_fields(v: u8)
    by (bit_vector)
    ensures
        v & 0x01 <= 1,
        v & 0x03 <= 3,
        v & 0x07 <= 7,
        v & 0x0F <= 15,
        v & 0x1F <= 31,
        v & 0x3F <= 63,
        (v >> 4) & 0x0F <= 15,
        (v >> 5) & 0x03 <= 3,
        (v >> 6) & 0x03 <= 3,
        (v >> 4) & 0x0F == v >> 4,
        v >> 4 <= 15,
        v <= 3 ==> v & 0x03 == v,
        v <= 7 ==> v & 0x07 == v,
        v <= 15 ==> v & 0x0F == v,
        v <= 31 ==> v & 0x1F == v,
        v <= 3 ==> (v & 0x03) << 6 == v << 6,
        v <= 3 ==> (v & 0x03) << 5 == v << 5,
        v <= 15 ==> (v & 0x0F) << 4 == v << 4,
        v >> 0u8 == v,
        v <= 15 ==> v >> 1u8 <= 15 && v >> 2u8 <= 15,
        (v & 1 == 0) == (v % 2 == 0),
{
}

/// Register read-back identities: a value split into its fields and put
/// back together is the value itself (or the value with the bits that read
/// as 1 set).
pub proof fn lemma_register_fields(value: u8)
    by (bit_vector)
    ensures
        (((value >> 4) & 0x0F) << 4) | (if value & 0x08 != 0 { 0x08u8 } else { 0 }) | (value & 0x07)
            == value,
        0x3F | (((value >> 6) & 0x03) << 6) == value | 0x3F,
        0xBF | (if value & 0x40 != 0 { 0x40u8 } else { 0 }) == 0xBF | (value & 0x40),
        0x9F | (((value >> 5) & 0x03) << 5) == 0x9F | (value & 0x60),
        (if value & 0x80 != 0 { 0xFFu8 } else { 0x7F }) == 0x7F | (value & 0x80),
{
}

/// Writing either byte of an 11-bit frequency keeps it below `0x800`.
pub proof fn lemma_freq_bits(f: u16, v: u8)
    by (bit_vector)
    ensures
        (f & 0x0700) | (v as u16) <= 0x7FF,
        (f & 0x00FF) | (((v & 0x07) as u16) << 8) <= 0x7FF,
{
}

/// Advancing a waveform position with masks and wrapping additions is
/// advancing it modulo the table length (8 or 32).
pub proof fn lemma_position_wrap(p: u8, e: u32)
    by (bit_vector)
    ensures
        p <= 7 ==> ((p + 1) as u8 & 7).wrapping_add(e as u8) & 7 == ((p + 1 + e) % 8) as u8,
        p <= 7 ==> (p + 1) as u8 & 7 == ((p + 1) % 8) as u8,
        p <= 31 ==> ((p + 1) as u8 & 31).wrapping_add(e as u8) & 31 == ((p + 1 + e) % 32) as u8,
        p <= 31 ==> (p + 1) as u8 & 31 == ((p + 1) % 32) as u8,
{
}

/// A pixel's 2-bit color taken from two bit planes, and a palette's 2-bit
/// shade, are at most 3.
pub proof fn lemma_pixel_bits(lo: u8, hi: u8, b: u8, palette: u8, color: u8)
    by (bit_vector)
    ensures
        (((hi >> b) & 1) << 1) | ((lo >> b) & 1) <= 3,
        (palette >> (color * 2)) & 0x03 <= 3,
{
}

/// Shifts of constants used by the timer and the APU.
pub proof fn lemma_shift_constants()
    by (bit_vector)
    ensures
        (0u16 >> 8u16) as u8 == 0,
        (0x1000u16 >> 12u16) & 1 != 0,
        (0u16 >> 12u16) & 1 == 0,
        !(1u16 << 6) == !0x40u16,
        0u8 & 0x1F == 0,
        1u8 & 0x1F == 1,
{
}

} // verus!
