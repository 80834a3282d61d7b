//! The PPU's CPU-visible registers: PPUCTRL ($2000), PPUMASK ($2001),
//! PPUSTATUS ($2002), and the internal "loopy" VRAM address registers v and t.
use vstd::prelude::*;
use crate::bits::{lemma_u16_fields, lemma_u8_fields};

verus! {

// ---------------------------------------------------------------------------
// Field layout of the 15-bit VRAM address (yyy NN YYYYY XXXXX)
// ---------------------------------------------------------------------------

/// Coarse X scroll (bits 0-4).
pub open spec fn coarse_x_of(a: u16) -> u16 {
    a & 0x001F
}

/// Coarse Y scroll (bits 5-9).
pub open spec fn coarse_y_of(a: u16) -> u16 {
    (a >> 5u16) & 0x001F
}

/// Horizontal nametable select (bit 10).
pub open spec fn nametable_x_of(a: u16) -> u16 {
    (a >> 10u16) & 1
}

/// Vertical nametable select (bit 11).
pub open spec fn nametable_y_of(a: u16) -> u16 {
    (a >> 11u16) & 1
}

/// Fine Y scroll (bits 12-14).
pub open spec fn fine_y_of(a: u16) -> u16 {
    (a >> 12u16) & 0x0007
}

/// The address with its coarse X field replaced by the low five bits of `v`.
pub open spec fn with_coarse_x(a: u16, v: u8) -> u16 {
    (a & !0x001Fu16) | ((v as u16) & 0x1F)
}

/// The address with its coarse Y field replaced by the low five bits of `v`.
pub open spec fn with_coarse_y(a: u16, v: u8) -> u16 {
    (a & !0x03E0u16) | (((v as u16) & 0x1F) << 5u16)
}

/// The address with its nametable select bits replaced by the low two bits of `v`.
pub open spec fn with_nametable_select(a: u16, v: u8) -> u16 {
    (a & !0x0C00u16) | (((v as u16) & 0x03) << 10u16)
}

/// The address with its fine Y field replaced by the low three bits of `v`.
pub open spec fn with_fine_y(a: u16, v: u8) -> u16 {
    (a & !0x7000u16) | (((v as u16) & 0x07) << 12u16)
}

/// The value after one step of the horizontal scroll increment:
/// coarse X wraps from 31 to 0 and then switches the horizontal nametable.
pub open spec fn coarse_x_incremented(a: u16) -> u16 {
    if coarse_x_of(a) == 31 {
        with_coarse_x(a, 0) ^ 0x0400
    } else {
        with_coarse_x(a, (coarse_x_of(a) + 1) as u8)
    }
}

/// The value after one step of the vertical scroll increment.
pub open spec fn fine_y_incremented(a: u16) -> u16 {
    if fine_y_of(a) < 7 {
        (a + 0x1000) as u16
    } else {
        let cleared = a & !0x7000u16;
        if coarse_y_of(cleared) == 29 {
            with_coarse_y(cleared, 0) ^ 0x0800
        } else if coarse_y_of(cleared) == 31 {
            with_coarse_y(cleared, 0)
        } else {
            with_coarse_y(cleared, (coarse_y_of(cleared) + 1) as u8)
        }
    }
}

// ---------------------------------------------------------------------------
// PPUCTRL
// ---------------------------------------------------------------------------

/// PPU control register ($2000).
#[derive(Debug, Clone, Copy)]
pub struct ControlRegister {
    bits: u8,
}

impl View for ControlRegister {
    type V = u8;

    closed spec fn view(&self) -> u8 {
        self.bits
    }
}

impl ControlRegister {
    pub fn new() -> (r: Self)
        ensures
            r@ == 0,
    {
        Self { bits: 0 }
    }

    pub fn bits(&self) -> (r: u8)
        ensures
            r == self@,
    {
        self.bits
    }

    pub fn set_bits(&mut self, data: u8)
        ensures
            final(self)@ == data,
    {
        self.bits = data;
    }

    /// Base address of the selected nametable: $2000, $2400, $2800 or $2C00.
    pub fn nametable_addr(&self) -> (r: u16)
        ensures
            r == 0x2000 + 0x0400 * (self@ & 0x03),
    {
        let b = self.bits;
        let sel = b & 0x03;
        if sel == 0 {
            0x2000
        } else if sel == 1 {
            0x2400
        } else if sel == 2 {
            0x2800
        } else {
            proof {
                lemma_u8_fields(b);
            }
            assert(sel == 3);
            0x2C00
        }
    }

    pub fn vram_addr_increment(&self) -> (r: u16)
        ensures
            r == (if self@ & 0x04 == 0 {
                1u16
            } else {
                32u16
            }),
    {
        if (self.bits & 0x04) == 0 {
            1
        } else {
            32
        }
    }

    pub fn sprite_pattern_addr(&self) -> (r: u16)
        ensures
            r == (if self@ & 0x08 == 0 {
                0x0000u16
            } else {
                0x1000u16
            }),
    {
        if (self.bits & 0x08) == 0 {
            0x0000
        } else {
            0x1000
        }
    }

    pub fn background_pattern_addr(&self) -> (r: u16)
        ensures
            r == (if self@ & 0x10 == 0 {
                0x0000u16
            } else {
                0x1000u16
            }),
    {
        if (self.bits & 0x10) == 0 {
            0x0000
        } else {
            0x1000
        }
    }

    /// true = 8x16 sprites, false = 8x8.
    pub fn sprite_size_large(&self) -> (r: bool)
        ensures
            r == (self@ & 0x20 != 0),
    {
        (self.bits & 0x20) != 0
    }

    pub fn master_slave_select(&self) -> (r: bool)
        ensures
            r == (self@ & 0x40 != 0),
    {
        (self.bits & 0x40) != 0
    }

    /// Whether an NMI is generated at the start of vertical blank.
    pub fn generate_nmi(&self) -> (r: bool)
        ensures
            r == (self@ & 0x80 != 0),
    {
        (self.bits & 0x80) != 0
    }
}

impl Default for ControlRegister {
    fn default() -> (r: Self)
        ensures
            r@ == 0,
    {
        Self::new()
    }
}

// ---------------------------------------------------------------------------
// PPUMASK
// ---------------------------------------------------------------------------

/// PPU mask register ($2001).
#[derive(Debug, Clone, Copy)]
pub struct MaskRegister {
    bits: u8,
}

impl View for MaskRegister {
    type V = u8;

    closed spec fn view(&self) -> u8 {
        self.bits
    }
}

impl MaskRegister {
    pub fn new() -> (r: Self)
        ensures
            r@ == 0,
    {
        Self { bits: 0 }
    }

    pub fn bits(&self) -> (r: u8)
        ensures
            r == self@,
    {
        self.bits
    }

    pub fn set_bits(&mut self, data: u8)
        ensures
            final(self)@ == data,
    {
        self.bits = data;
    }

    pub fn grayscale(&self) -> (r: bool)
        ensures
            r == (self@ & 0x01 != 0),
    {
        (self.bits & 0x01) != 0
    }

    pub fn show_background_leftmost(&self) -> (r: bool)
        ensures
            r == (self@ & 0x02 != 0),
    {
        (self.bits & 0x02) != 0
    }

    pub fn show_sprites_leftmost(&self) -> (r: bool)
        ensures
            r == (self@ & 0x04 != 0),
    {
        (self.bits & 0x04) != 0
    }

    pub fn show_background(&self) -> (r: bool)
        ensures
            r == (self@ & 0x08 != 0),
    {
        (self.bits & 0x08) != 0
    }

    pub fn show_sprites(&self) -> (r: bool)
        ensures
            r == (self@ & 0x10 != 0),
    {
        (self.bits & 0x10) != 0
    }

    pub fn emphasize_red(&self) -> (r: bool)
        ensures
            r == (self@ & 0x20 != 0),
    {
        (self.bits & 0x20) != 0
    }

    pub fn emphasize_green(&self) -> (r: bool)
        ensures
            r == (self@ & 0x40 != 0),
    {
        (self.bits & 0x40) != 0
    }

    pub fn emphasize_blue(&self) -> (r: bool)
        ensures
            r == (self@ & 0x80 != 0),
    {
        (self.bits & 0x80) != 0
    }
}

impl Default for MaskRegister {
    fn default() -> (r: Self)
        ensures
            r@ == 0,
    {
        Self::new()
    }
}

// ---------------------------------------------------------------------------
// PPUSTATUS
// ---------------------------------------------------------------------------

/// The byte with bit mask `m` set when `value` holds and cleared otherwise.
pub open spec fn with_flag(b: u8, m: u8, value: bool) -> u8 {
    if value {
        b | m
    } else {
        b & !m
    }
}

/// PPU status register ($2002).
#[derive(Debug, Clone, Copy)]
pub struct StatusRegister {
    pub register: u8,
}

impl StatusRegister {
    pub const SPRITE_OVERFLOW: u8 = 0x20;

    pub const SPRITE_ZERO_HIT: u8 = 0x40;

    pub const VBLANK_STARTED: u8 = 0x80;

    pub fn new() -> (r: Self)
        ensures
            r.register == 0,
    {
        Self { register: 0 }
    }

    pub fn bits(&self) -> (r: u8)
        ensures
            r == self.register,
    {
        self.register
    }

    pub fn sprite_overflow(&self) -> (r: bool)
        ensures
            r == (self.register & 0x20 != 0),
    {
        (self.register & 0x20) != 0
    }

    pub fn sprite_zero_hit(&self) -> (r: bool)
        ensures
            r == (self.register & 0x40 != 0),
    {
        (self.register & 0x40) != 0
    }

    pub fn vblank_started(&self) -> (r: bool)
        ensures
            r == (self.register & 0x80 != 0),
    {
        (self.register & 0x80) != 0
    }

    pub fn set_sprite_overflow(&mut self, value: bool)
        ensures
            final(self).register == with_flag(old(self).register, 0x20, value),
    {
        if value {
            self.register = self.register | 0x20;
        } else {
            self.register = self.register & !0x20u8;
        }
    }

    pub fn set_sprite_zero_hit(&mut self, value: bool)
        ensures
            final(self).register == with_flag(old(self).register, 0x40, value),
    {
        if value {
            self.register = self.register | 0x40;
        } else {
            self.register = self.register & !0x40u8;
        }
    }

    pub fn set_vblank_started(&mut self, value: bool)
        ensures
            final(self).register == with_flag(old(self).register, 0x80, value),
    {
        if value {
            self.register = self.register | 0x80;
        } else {
            self.register = self.register & !0x80u8;
        }
    }
}

impl Default for StatusRegister {
    fn default() -> (r: Self)
        ensures
            r.register == 0,
    {
        Self::new()
    }
}

/// Setting a status flag and reading it back gives the value written, and
/// leaves every other bit of the register as it was.
pub proof fn lemma_status_flag_roundtrip(b: u8, m: u8, value: bool)
    by (bit_vector)
    requires
        m == 0x20 || m == 0x40 || m == 0x80,
    ensures
        (with_flag(b, m, value) & m != 0) == value,
        with_flag(b, m, value) & !m == b & !m,
{
}

// ---------------------------------------------------------------------------
// VRAM address register (loopy v / t)
// ---------------------------------------------------------------------------

/// A VRAM address register (v or t).
#[derive(Debug, Clone, Copy)]
pub struct AddrRegister {
    address: u16,
}

impl View for AddrRegister {
    type V = u16;

    closed spec fn view(&self) -> u16 {
        self.address
    }
}

impl AddrRegister {
    pub fn new() -> (r: Self)
        ensures
            r@ == 0,
    {
        Self { address: 0 }
    }

    /// Effective 14-bit PPU address.
    pub fn addr(&self) -> (r: u16)
        ensures
            r == self@ & 0x3FFF,
    {
        self.address & 0x3FFF
    }

    /// The internal 15-bit value.
    pub fn get(&self) -> (r: u16)
        ensures
            r == self@,
    {
        self.address
    }

    pub fn set(&mut self, addr: u16)
        ensures
            final(self)@ == addr & 0x7FFF,
    {
        self.address = addr & 0x7FFF;
    }

    pub fn increment(&mut self, inc: u16)
        ensures
            final(self)@ == ((old(self)@ + inc) % 0x10000) as u16 & 0x7FFF,
    {
        self.address = self.address.wrapping_add(inc) & 0x7FFF;
    }

    pub fn copy_from(&mut self, other: &Self)
        ensures
            final(self)@ == other@,
    {
        self.address = other.address;
    }

    pub fn coarse_x(&self) -> (r: u8)
        ensures
            r == coarse_x_of(self@),
            r <= 0x1F,
    {
        let a = self.address;
        proof {
            lemma_u16_fields(a);
        }
        (a & 0x001F) as u8
    }

    pub fn set_coarse_x(&mut self, val: u8)
        ensures
            final(self)@ == with_coarse_x(old(self)@, val),
    {
        self.address = (self.address & !0x001Fu16) | (val as u16 & 0x1F);
    }

    pub fn coarse_y(&self) -> (r: u8)
        ensures
            r == coarse_y_of(self@),
            r <= 0x1F,
    {
        let a = self.address;
        proof {
            lemma_u16_fields(a);
        }
        ((a >> 5u16) & 0x001F) as u8
    }

    pub fn set_coarse_y(&mut self, val: u8)
        ensures
            final(self)@ == with_coarse_y(old(self)@, val),
    {
        let a = self.address;
        let r = (a & !0x03E0u16) | (((val as u16) & 0x1F) << 5u16);
        self.address = r;
    }

    pub fn nametable_x(&self) -> (r: u16)
        ensures
            r == nametable_x_of(self@),
            r <= 1,
    {
        let a = self.address;
        proof {
            lemma_u16_fields(a);
        }
        (a >> 10u16) & 1
    }

    pub fn nametable_y(&self) -> (r: u16)
        ensures
            r == nametable_y_of(self@),
            r <= 1,
    {
        let a = self.address;
        proof {
            lemma_u16_fields(a);
        }
        (a >> 11u16) & 1
    }

    pub fn set_nametable_select(&mut self, val: u8)
        ensures
            final(self)@ == with_nametable_select(old(self)@, val),
    {
        let a = self.address;
        let r = (a & !0x0C00u16) | (((val as u16) & 0x03) << 10u16);
        self.address = r;
    }

    pub fn fine_y(&self) -> (r: u16)
        ensures
            r == fine_y_of(self@),
            r <= 7,
    {
        let a = self.address;
        proof {
            lemma_u16_fields(a);
        }
        (a >> 12u16) & 0x0007
    }

    pub fn set_fine_y(&mut self, val: u8)
        ensures
            final(self)@ == with_fine_y(old(self)@, val),
    {
        let a = self.address;
        let r = (a & !0x7000u16) | (((val as u16) & 0x07) << 12u16);
        self.address = r;
    }

    /// Horizontal scroll increment; returns whether coarse X wrapped.
    pub fn inc_coarse_x(&mut self) -> (wrapped: bool)
        ensures
            wrapped == (coarse_x_of(old(self)@) == 31),
            final(self)@ == coarse_x_incremented(old(self)@),
    {
        let coarse_x = self.coarse_x();
        if coarse_x == 31 {
            self.set_coarse_x(0);
            self.address = self.address ^ 0x0400;
            true
        } else {
            self.set_coarse_x(coarse_x + 1);
            false
        }
    }

    /// Vertical scroll increment; returns whether fine Y wrapped.
    pub fn inc_fine_y(&mut self) -> (wrapped: bool)
        ensures
            wrapped == (fine_y_of(old(self)@) >= 7),
            final(self)@ == fine_y_incremented(old(self)@),
    {
        let fine_y = self.fine_y();
        if fine_y < 7 {
            let a = self.address;
            proof {
                lemma_u16_fields(a);
            }
            self.address = self.address + 0x1000;
            false
        } else {
            self.address = self.address & !0x7000u16;
            let coarse_y = self.coarse_y();
            if coarse_y == 29 {
                self.set_coarse_y(0);
                self.address = self.address ^ 0x0800;
            } else if coarse_y == 31 {
                self.set_coarse_y(0);
            } else {
                self.set_coarse_y(coarse_y + 1);
            }
            true
        }
    }

    /// Copies nametable X and coarse X from `t`.
    pub fn copy_horizontal_bits(&mut self, t: &AddrRegister)
        ensures
            final(self)@ == (old(self)@ & !0x041Fu16) | (t@ & 0x041F),
    {
        self.address = (self.address & !0x041Fu16) | (t.address & 0x041F);
    }

    /// Copies nametable Y, coarse Y and fine Y from `t`.
    pub fn copy_vertical_bits(&mut self, t: &AddrRegister)
        ensures
            final(self)@ == (old(self)@ & !0x7BE0u16) | (t@ & 0x7BE0),
    {
        self.address = (self.address & !0x7BE0u16) | (t.address & 0x7BE0);
    }

    pub fn set_high_byte(&mut self, data: u8)
        ensures
            final(self)@ == (old(self)@ & 0x00FF) | (((data as u16) & 0x3F) << 8u16),
    {
        self.address = (self.address & 0x00FF) | ((data as u16 & 0x3F) << 8u16);
    }

    pub fn set_low_byte(&mut self, data: u8)
        ensures
            final(self)@ == (old(self)@ & 0xFF00) | (data as u16),
    {
        self.address = (self.address & 0xFF00) | (data as u16);
    }

    /// $2005 write helper: the first write sets coarse X and fine X in `t`,
    /// the second sets fine Y and coarse Y; the latch toggles.
    pub fn write_scroll(&mut self, data: u8, latch: &mut bool, fine_x: &mut u8, t: &mut AddrRegister)
        ensures
            *final(self) == *old(self),
            *final(latch) == !*old(latch),
            *old(latch) ==> final(t)@ == with_coarse_x(old(t)@, data >> 3u8) && *final(fine_x)
                == data & 0x07,
            !*old(latch) ==> final(t)@ == with_coarse_y(with_fine_y(old(t)@, data & 0x07), data
                >> 3u8) && *final(fine_x) == *old(fine_x),
    {
        if *latch {
            t.set_coarse_x(data >> 3u8);
            *fine_x = data & 0x07;
            *latch = false;
        } else {
            t.set_fine_y(data & 0x07);
            t.set_coarse_y(data >> 3u8);
            *latch = true;
        }
    }

    /// $2006 write helper: the first write sets the high byte of `t`, the
    /// second sets its low byte and copies `t` into this register.
    pub fn write_addr(&mut self, data: u8, latch: &mut bool, t: &mut AddrRegister)
        ensures
            *final(latch) == !*old(latch),
            *old(latch) ==> final(t)@ == (old(t)@ & 0x00FF) | (((data & 0x3F) as u16 & 0x3F)
                << 8u16) && *final(self) == *old(self),
            !*old(latch) ==> final(t)@ == (old(t)@ & 0xFF00) | (data as u16) && final(self)@
                == final(t)@,
    {
        if *latch {
            t.set_high_byte(data & 0x3F);
            *latch = false;
        } else {
            t.set_low_byte(data);
            self.copy_from(t);
            *latch = true;
        }
    }
}

impl Default for AddrRegister {
    fn default() -> (r: Self)
        ensures
            r@ == 0,
    {
        Self::new()
    }
}

/// Writing a coarse X value and reading it back gives its low five bits, and
/// the other fields of the address are untouched.
pub proof fn lemma_coarse_x_roundtrip(a: u16, v: u8)
    by (bit_vector)
    ensures
        coarse_x_of(with_coarse_x(a, v)) == (v as u16) & 0x1F,
        coarse_y_of(with_coarse_x(a, v)) == coarse_y_of(a),
        nametable_x_of(with_coarse_x(a, v)) == nametable_x_of(a),
        nametable_y_of(with_coarse_x(a, v)) == nametable_y_of(a),
        fine_y_of(with_coarse_x(a, v)) == fine_y_of(a),
{
}

/// Writing a coarse Y value and reading it back gives its low five bits, and
/// the other fields of the address are untouched.
pub proof fn lemma_coarse_y_roundtrip(a: u16, v: u8)
    by (bit_vector)
    ensures
        coarse_y_of(with_coarse_y(a, v)) == (v as u16) & 0x1F,
        coarse_x_of(with_coarse_y(a, v)) == coarse_x_of(a),
        nametable_x_of(with_coarse_y(a, v)) == nametable_x_of(a),
        nametable_y_of(with_coarse_y(a, v)) == nametable_y_of(a),
        fine_y_of(with_coarse_y(a, v)) == fine_y_of(a),
{
}

/// Writing a fine Y value and reading it back gives its low three bits, and
/// the other fields of the address are untouched.
pub proof fn lemma_fine_y_roundtrip(a: u16, v: u8)
    by (bit_vector)
    ensures
        fine_y_of(with_fine_y(a, v)) == (v as u16) & 0x07,
        coarse_x_of(with_fine_y(a, v)) == coarse_x_of(a),
        coarse_y_of(with_fine_y(a, v)) == coarse_y_of(a),
        nametable_x_of(with_fine_y(a, v)) == nametable_x_of(a),
        nametable_y_of(with_fine_y(a, v)) == nametable_y_of(a),
{
}

/// One horizontal increment advances coarse X by one modulo 32, switches the
/// horizontal nametable exactly when coarse X wraps, and leaves coarse Y,
/// the vertical nametable and fine Y as they were.
pub proof fn lemma_coarse_x_increment(a: u16)
    by (bit_vector)
    ensures
        coarse_x_of(coarse_x_incremented(a)) == (coarse_x_of(a) + 1) % 32,
        nametable_x_of(coarse_x_incremented(a)) == (if coarse_x_of(a) == 31 {
            1 - nametable_x_of(a)
        } else {
            nametable_x_of(a) as int
        }),
        coarse_y_of(coarse_x_incremented(a)) == coarse_y_of(a),
        nametable_y_of(coarse_x_incremented(a)) == nametable_y_of(a),
        fine_y_of(coarse_x_incremented(a)) == fine_y_of(a),
{
}

} // verus!
