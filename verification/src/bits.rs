//! Bit-level facts about bytes, addresses and indices, proved once by the
//! bit-vector solver and used throughout the emulator.
use vstd::prelude::*;
use crate::registers::{coarse_x_of, coarse_y_of, with_flag};

verus! {

/// Fields, masks and byte halves of a 16-bit value.
pub proof fn lemma_u16_fields(a: u16)
    by (bit_vector)
    ensures
        a & 0x001F <= 0x1F,
        (a >> 5u16) & 0x001F <= 0x1F,
        (a >> 10u16) & 1 <= 1,
        (a >> 11u16) & 1 <= 1,
        (a >> 12u16) & 0x0007 <= 7,
        (a >> 12u16) & 0x0007 < 7 ==> a + 0x1000 <= 0xFFFF,
        a & 0x07FF <= 0x07FF,
        a & 0x07FF == a % 2048,
        (a & 0x07FF) % 2048 == a & 0x07FF,
        a & 0x0FFF < 0x1000,
        a & 0x1FFF <= 0x1FFF,
        a & 0x3FFF <= 0x3FFF,
        (a & 0x3FFF) & 0x3FFF == a & 0x3FFF,
        a & 0x03FF == a % 0x0400,
        (a >> 1u16) & 1 == (a / 2) % 2,
        a & 1 == a % 2,
        a <= 0x1F ==> a & 0x1F == a,
        a <= 0x07FF ==> a & 0x07FF == a,
        a <= 0x3FFF ==> a & 0x3FFF == a,
        a <= 0x7FFF ==> a & 0x7FFF == a,
        a < 0x4000 ==> a << 2u16 == a * 4,
        a & 0x1F < 32,
        (a & 0x1F) & 0x1F == a & 0x1F,
        (a & 0x3F1F) & 0x1F == a & 0x1F,
        a & 0xFF == a % 256,
        a >> 8u16 == a / 256,
        (a & 0xFF) as u8 == a as u8,
        (a & 0x13) == 0x10 ==> ((a & 0x1F) == 0x10 || (a & 0x1F) == 0x14 || (a & 0x1F) == 0x18
            || (a & 0x1F) == 0x1C) && ((a & 0x0F) & 0x1F) == (a & 0x1F) - 0x10,
        0x3F00 <= a <= 0x3FFF ==> ((a & 0x3F1F) == 0x3F10 || (a & 0x3F1F) == 0x3F14 || (a
            & 0x3F1F) == 0x3F18 || (a & 0x3F1F) == 0x3F1C) == ((a & 0x1F) == 0x10 || (a & 0x1F)
            == 0x14 || (a & 0x1F) == 0x18 || (a & 0x1F) == 0x1C),
        0x3F00 <= a <= 0x3FFF ==> (((a & 0x3F1F) - 0x10) as u16 & 0x1F == (a & 0x1F) - 0x10 || !((a
            & 0x1F) == 0x10 || (a & 0x1F) == 0x14 || (a & 0x1F) == 0x18 || (a & 0x1F) == 0x1C)),
{
}

/// Fields and masks of a byte.
pub proof fn lemma_u8_fields(b: u8)
    by (bit_vector)
    ensures
        b & 0x01 <= 1,
        b <= 1 ==> b & 0x01 == b,
        (b & 0x02) >> 1u8 <= 1,
        b & 0x03 <= 3,
        b & 0x07 < 8,
        b & 0x1F < 32,
        ((b & 0x1F) as u16) == (b as u16) & 0x1F,
        b & 0x3F < 64,
        b < 0x40 ==> b & 0x3F == b,
        b < 32 ==> (b as u16) & 0x1F == b as u16,
        ((b >> 3u8) as u16) & 0x1F == (b >> 3u8) as u16,
        ((b & 0x07) as u16) & 0x07 == (b & 0x07) as u16,
        (b & 0x80 != 0) == (b >= 128),
        !b == 255 - b,
        b & !0x80u8 & 0x7F == b & 0x7F,
        b & 0x08 == 0 || b & 0x08 == 0x08,
{
}

/// Masks of an index.
pub proof fn lemma_usize_fields(i: usize)
    by (bit_vector)
    ensures
        i & 0x3F < 64,
        (i == 0x10 || i == 0x14 || i == 0x18 || i == 0x1C) ==> i & 0x0F == i - 0x10,
{
}

/// Two bytes, high first, make a little-endian 16-bit word.
pub proof fn lemma_u16_from_bytes(hi: u16, lo: u16)
    by (bit_vector)
    requires
        hi < 256,
        lo < 256,
    ensures
        (hi << 8u16) | lo == hi * 256 + lo,
        (hi << 8u16) + lo == hi * 256 + lo,
{
}

/// A two-bit pixel taken from bit `bit` of the two planes of a tile row.
pub proof fn lemma_pixel_bits(hi: u8, lo: u8, bit: u8)
    by (bit_vector)
    ensures
        (((hi >> bit) & 0x01) << 1u8) | ((lo >> bit) & 0x01) <= 3,
{
}

/// The status byte after ADC's four flag updates (C, V, Z, N in that
/// order): each flag as computed, the other bits as they were.
pub proof fn lemma_adc_status(st0: u8, a: u8, m: u8, result: u8, carry_out: bool)
    by (bit_vector)
    ensures
        ({
            let s1 = with_flag(st0, 0x01, carry_out);
            let s2 = with_flag(s1, 0x40, (a ^ m) & 0x80 == 0 && (a ^ result) & 0x80 != 0);
            let s3 = with_flag(s2, 0x02, result == 0);
            let s4 = with_flag(s3, 0x80, result & 0x80 != 0);
            &&& s4 & 0x01 == (if carry_out {
                1u8
            } else {
                0u8
            })
            &&& (s4 & 0x40 != 0) == ((a >= 128) == (m >= 128) && (a >= 128) != (result >= 128))
            &&& (s4 & 0x02 != 0) == (result == 0)
            &&& (s4 & 0x80 != 0) == (result >= 128)
            &&& s4 & 0x3C == st0 & 0x3C
        }),
        st0 & 0x01 <= 1,
{
}

/// Setting bit `b` of a byte sets it and keeps the others; clearing it
/// clears it and keeps the others.
pub proof fn lemma_bit_set_clear(states: u8, b: u8, o: u8)
    by (bit_vector)
    requires
        b < 8,
        o < 8,
    ensures
        ((states | (1u8 << b)) >> b) & 1 == 1,
        b != o ==> ((states | (1u8 << b)) >> o) & 1 == (states >> o) & 1,
        ((states & !(1u8 << b)) >> b) & 1 == 0,
        b != o ==> ((states & !(1u8 << b)) >> o) & 1 == (states >> o) & 1,
{
}

/// The attribute-table fetch: the coarse-position halves it uses and the
/// shift that picks a tile's two bits out of the attribute byte.
pub proof fn lemma_attribute_bits(v: u16, cx: u8, cy: u8)
    by (bit_vector)
    requires
        cy as u16 == coarse_y_of(v),
        cx as u16 == coarse_x_of(v),
    ensures
        ((cy >> 2u8) as u16) == (coarse_y_of(v) >> 2u16),
        ((cx >> 2u8) as u16) == (coarse_x_of(v) >> 2u16),
        (((cy & 0x02) << 1u8) | (cx & 0x02)) == (((coarse_y_of(v) & 0x02) << 1u16) | (coarse_x_of(
            v,
        ) & 0x02)) as u8,
        (((cy & 0x02) << 1u8) | (cx & 0x02)) < 8,
{
}

} // verus!
