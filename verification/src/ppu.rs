//! The picture processing unit: its registers, VRAM, palette and OAM, the
//! background pipeline, and the frame buffer it renders into.
use vstd::prelude::*;
use crate::bits::{lemma_attribute_bits, lemma_pixel_bits, lemma_u16_fields, lemma_u8_fields, lemma_usize_fields};
use crate::Mirroring;
use crate::bus::BusAccess;
use crate::cartridge::{Cartridge, CartState, read_chr_from_slot, slot_read_chr, slot_state};
use crate::registers::{
    AddrRegister, ControlRegister, MaskRegister, StatusRegister, coarse_x_incremented, coarse_x_of,
    coarse_y_of, fine_y_incremented, fine_y_of, nametable_x_of, nametable_y_of, with_coarse_x,
    with_coarse_y, with_fine_y, with_flag, with_nametable_select,
};

verus! {

/// NES colour index to RGB lookup table (a common NTSC palette).
pub const NES_PALETTE: [(u8, u8, u8); 64] = [
    (84, 84, 84), (0, 30, 116), (8, 16, 144), (48, 0, 136), (68, 0, 100), (92, 0, 48), (84, 4, 0), (60, 24, 0),
    (32, 42, 0), (8, 58, 0), (0, 64, 0), (0, 60, 0), (0, 50, 60), (0, 0, 0), (0, 0, 0), (0, 0, 0),
    (152, 150, 152), (8, 76, 196), (48, 50, 236), (92, 30, 228), (136, 20, 176), (160, 20, 100), (152, 34, 32), (120, 60, 0),
    (84, 90, 0), (40, 114, 0), (8, 124, 0), (0, 118, 40), (0, 102, 120), (0, 0, 0), (0, 0, 0), (0, 0, 0),
    (236, 238, 236), (76, 154, 236), (120, 124, 236), (176, 98, 236), (228, 84, 236), (236, 88, 180), (236, 106, 100), (212, 136, 32),
    (160, 170, 0), (116, 196, 0), (76, 208, 32), (56, 204, 108), (56, 180, 220), (60, 60, 60), (0, 0, 0), (0, 0, 0),
    (236, 238, 236), (168, 204, 236), (188, 188, 236), (212, 178, 236), (236, 174, 236), (236, 174, 212), (236, 180, 176), (228, 196, 144),
    (204, 210, 120), (180, 222, 120), (168, 226, 144), (152, 226, 180), (160, 214, 228), (160, 162, 160), (0, 0, 0), (0, 0, 0),
];

pub const SCREEN_WIDTH: usize = 256;

pub const SCREEN_HEIGHT: usize = 240;

/// An RGBA frame.
#[derive(Debug, Clone)]
pub struct FrameData {
    pub pixels: Vec<u8>,
    pub width: usize,
    pub height: usize,
}

impl FrameData {
    pub fn new(width: usize, height: usize) -> (r: Self)
        requires
            width * height * 4 <= usize::MAX,
        ensures
            r.width == width,
            r.height == height,
            r.pixels@ == Seq::new((width * height * 4) as nat, |i: int| 0u8),
    {
        let pixels = vec![0u8; width * height * 4];
        let r = Self { pixels, width, height };
        assert(r.pixels@ =~= Seq::new((width * height * 4) as nat, |i: int| 0u8));
        r
    }
}

impl Default for FrameData {
    fn default() -> (r: Self)
        ensures
            r.width == SCREEN_WIDTH,
            r.height == SCREEN_HEIGHT,
            r.pixels@ == Seq::new((SCREEN_WIDTH * SCREEN_HEIGHT * 4) as nat, |i: int| 0u8),
    {
        Self::new(SCREEN_WIDTH, SCREEN_HEIGHT)
    }
}

/// The observable state of the PPU.
#[verifier::ext_equal]
pub struct PpuState {
    pub nmi_line_low: bool,
    pub ctrl: u8,
    pub mask: u8,
    pub status: u8,
    pub v: u16,
    pub t: u16,
    pub fine_x_scroll: u8,
    pub address_latch_low: bool,
    pub data_buffer: u8,
    pub oam_addr: u8,
    pub oam_data: Seq<u8>,
    pub cycle: usize,
    pub scanline: isize,
    pub frame_complete: bool,
    pub frame_counter: u64,
    pub palette_ram: Seq<u8>,
    pub vram: Seq<u8>,
    pub chr_ram: Seq<u8>,
    pub mirroring: Mirroring,
    pub bg_next_tile_id: u8,
    pub bg_next_tile_attr: u8,
    pub bg_next_tile_lsb: u8,
    pub bg_next_tile_msb: u8,
    pub bg_shifter_pattern_lo: u16,
    pub bg_shifter_pattern_hi: u16,
    pub bg_shifter_attrib_lo: u16,
    pub bg_shifter_attrib_hi: u16,
    pub pixels: Seq<u8>,
    pub frame_width: usize,
    pub frame_height: usize,
}

pub struct Ppu {
    pub nmi_line_low: bool,
    pub ctrl: ControlRegister,
    pub mask: MaskRegister,
    pub status: StatusRegister,
    pub vram_addr: AddrRegister,
    pub temp_vram_addr: AddrRegister,
    pub fine_x_scroll: u8,
    pub address_latch_low: bool,
    pub data_buffer: u8,
    pub oam_addr: u8,
    pub oam_data: [u8; 256],
    pub cycle: usize,
    pub scanline: isize,
    pub frame_complete: bool,
    pub frame_counter: u64,
    pub palette_ram: [u8; 32],
    pub vram: [u8; 2048],
    pub chr_ram: [u8; 8192],
    pub mirroring: Mirroring,
    pub bg_next_tile_id: u8,
    pub bg_next_tile_attr: u8,
    pub bg_next_tile_lsb: u8,
    pub bg_next_tile_msb: u8,
    pub bg_shifter_pattern_lo: u16,
    pub bg_shifter_pattern_hi: u16,
    pub bg_shifter_attrib_lo: u16,
    pub bg_shifter_attrib_hi: u16,
    pub frame: FrameData,
}

impl View for Ppu {
    type V = PpuState;

    open spec fn view(&self) -> PpuState {
        PpuState {
            nmi_line_low: self.nmi_line_low,
            ctrl: self.ctrl@,
            mask: self.mask@,
            status: self.status.register,
            v: self.vram_addr@,
            t: self.temp_vram_addr@,
            fine_x_scroll: self.fine_x_scroll,
            address_latch_low: self.address_latch_low,
            data_buffer: self.data_buffer,
            oam_addr: self.oam_addr,
            oam_data: self.oam_data@,
            cycle: self.cycle,
            scanline: self.scanline,
            frame_complete: self.frame_complete,
            frame_counter: self.frame_counter,
            palette_ram: self.palette_ram@,
            vram: self.vram@,
            chr_ram: self.chr_ram@,
            mirroring: self.mirroring,
            bg_next_tile_id: self.bg_next_tile_id,
            bg_next_tile_attr: self.bg_next_tile_attr,
            bg_next_tile_lsb: self.bg_next_tile_lsb,
            bg_next_tile_msb: self.bg_next_tile_msb,
            bg_shifter_pattern_lo: self.bg_shifter_pattern_lo,
            bg_shifter_pattern_hi: self.bg_shifter_pattern_hi,
            bg_shifter_attrib_lo: self.bg_shifter_attrib_lo,
            bg_shifter_attrib_hi: self.bg_shifter_attrib_hi,
            pixels: self.frame.pixels@,
            frame_width: self.frame.width,
            frame_height: self.frame.height,
        }
    }
}

// ---------------------------------------------------------------------------
// Pure descriptions of the PPU's behaviour
// ---------------------------------------------------------------------------

/// Palette RAM index for a palette address: $3F10/$3F14/$3F18/$3F1C mirror
/// $3F00/$3F04/$3F08/$3F0C.
pub open spec fn palette_index(addr: u16) -> int {
    let i = (addr & 0x1F) as int;
    if i == 0x10 || i == 0x14 || i == 0x18 || i == 0x1C {
        i - 0x10
    } else {
        i
    }
}

/// Index into the PPU's 2 KiB of nametable RAM (or beyond it, for four-screen
/// mirroring) of a nametable address.
pub open spec fn mirror_nametable(addr: u16, mirroring: Mirroring) -> int {
    let a = addr & 0x3FFF;
    if 0x2000 <= a <= 0x3EFF {
        let relative = (a & 0x0FFF) as int;
        let table = relative / 0x0400;
        let offset = relative % 0x0400;
        match mirroring {
            Mirroring::Horizontal => (table / 2) % 2 * 0x400 + offset,
            Mirroring::Vertical => table % 2 * 0x400 + offset,
            Mirroring::SingleScreenLower => offset,
            Mirroring::SingleScreenUpper => 0x400 + offset,
            Mirroring::FourScreen => relative,
        }
    } else {
        (a & 0x07FF) as int
    }
}

/// The VRAM address after the $2007 auto-increment. The step is chosen by
/// testing PPUCTRL's increment helper against zero; the helper returns 1 or
/// 32 and is never zero, so the step is always 32.
pub open spec fn vram_incremented(v: u16) -> u16 {
    (crate::wadd16(v, 32) & 0x7FFF) as u16
}

impl PpuState {
    pub open spec fn read_palette(self, addr: u16) -> u8 {
        self.palette_ram[palette_index(addr)]
    }

    pub open spec fn after_status_read(self) -> PpuState {
        PpuState {
            status: with_flag(self.status, 0x80, false),
            address_latch_low: true,
            nmi_line_low: true,
            ..self
        }
    }

    pub open spec fn after_increment(self) -> PpuState {
        PpuState { v: vram_incremented(self.v), ..self }
    }

    /// The value a $2007 read returns when `last` was fetched, and the PPU after it.
    pub open spec fn after_data_read(self, last: u8) -> (PpuState, u8) {
        if self.v & 0x3FFF >= 0x3F00 {
            (self.after_increment(), last)
        } else {
            (PpuState { data_buffer: last, ..self }.after_increment(), self.data_buffer)
        }
    }

    pub open spec fn after_write_ctrl(self, data: u8) -> PpuState {
        let old_nmi = self.ctrl & 0x80 != 0;
        let new_nmi = data & 0x80 != 0;
        PpuState {
            ctrl: data,
            t: with_nametable_select(self.t, data & 0x03),
            nmi_line_low: if self.status & 0x80 != 0 && !old_nmi && new_nmi {
                false
            } else {
                self.nmi_line_low
            },
            ..self
        }
    }

    pub open spec fn after_write_oam_data(self, data: u8) -> PpuState {
        PpuState {
            oam_data: self.oam_data.update(self.oam_addr as int, data),
            oam_addr: crate::wadd8(self.oam_addr, 1),
            ..self
        }
    }

    pub open spec fn after_write_scroll(self, data: u8) -> PpuState {
        if self.address_latch_low {
            PpuState {
                t: with_coarse_x(self.t, data >> 3u8),
                fine_x_scroll: data & 0x07,
                address_latch_low: false,
                ..self
            }
        } else {
            PpuState {
                t: with_coarse_y(with_fine_y(self.t, data & 0x07), data >> 3u8),
                address_latch_low: true,
                ..self
            }
        }
    }

    pub open spec fn after_write_addr(self, data: u8) -> PpuState {
        if self.address_latch_low {
            PpuState {
                t: (self.t & 0x00FF) | ((((data & 0x3F) as u16) & 0x3F) << 8u16),
                address_latch_low: false,
                ..self
            }
        } else {
            let t = (self.t & 0xFF00) | (data as u16);
            PpuState { t, v: t, address_latch_low: true, ..self }
        }
    }
}

/// The built-in test tiles written to CHR RAM on reset: a centred dot,
/// a lattice and a frame (low plane, then high plane, for each tile).
pub const TEST_TILES: [u8; 48] = [
    0b00000000, 0b00000000, 0b00000000, 0b00011000, 0b00011000, 0b00000000, 0b00000000, 0b00000000,
    0b00000000, 0b00000000, 0b00000000, 0b00011000, 0b00011000, 0b00000000, 0b00000000, 0b00000000,
    0b10101010, 0b00000000, 0b10101010, 0b00000000, 0b10101010, 0b00000000, 0b10101010, 0b00000000,
    0b00000000, 0b10101010, 0b00000000, 0b10101010, 0b00000000, 0b10101010, 0b00000000, 0b10101010,
    0b11111111, 0b10000001, 0b10000001, 0b10000001, 0b10000001, 0b10000001, 0b10000001, 0b11111111,
    0b00000000, 0b00000000, 0b00000000, 0b00000000, 0b00000000, 0b00000000, 0b00000000, 0b00000000,
];

impl PpuState {
    /// Palette RAM after reset: a blue-ish default palette, with the
    /// $3F1x mirrors copied from $3F0x.
    pub open spec fn reset_palette(p: Seq<u8>) -> Seq<u8> {
        let q = p.update(0, 0x0F).update(1, 0x01).update(2, 0x11).update(3, 0x21).update(
            5,
            0x0C,
        ).update(6, 0x1C).update(7, 0x2C).update(9, 0x13).update(10, 0x23).update(11, 0x33).update(
            13,
            0x1A,
        ).update(14, 0x2A).update(15, 0x3A);
        q.update(0x10, q[0]).update(0x14, q[0x04]).update(0x18, q[0x08]).update(0x1C, q[0x0C])
    }

    /// The state after `reset`.
    pub open spec fn after_reset(self) -> PpuState {
        PpuState {
            cycle: 0,
            scanline: -1isize,
            frame_complete: false,
            frame_counter: 0,
            nmi_line_low: true,
            address_latch_low: true,
            fine_x_scroll: 0,
            data_buffer: 0,
            oam_addr: 0,
            bg_next_tile_id: 0,
            bg_next_tile_attr: 0,
            bg_next_tile_lsb: 0,
            bg_next_tile_msb: 0,
            bg_shifter_pattern_lo: 0,
            bg_shifter_pattern_hi: 0,
            bg_shifter_attrib_lo: 0,
            bg_shifter_attrib_hi: 0,
            status: 0,
            mask: 0x1E,
            ctrl: 0xA0,
            v: 0,
            t: 0,
            pixels: Seq::new(self.pixels.len(), |i: int| 0u8),
            palette_ram: Self::reset_palette(self.palette_ram),
            chr_ram: Seq::new(
                self.chr_ram.len(),
                |i: int|
                    if i < 48 {
                        TEST_TILES@[i]
                    } else {
                        self.chr_ram[i]
                    },
            ),
            vram: Seq::new(
                self.vram.len(),
                |i: int|
                    if i < 16 {
                        (i % 3) as u8
                    } else if i == 0x3C0 {
                        0x55u8
                    } else {
                        self.vram[i]
                    },
            ),
            ..self
        }
    }

    /// The state `new` builds before resetting it.
    pub open spec fn power_on() -> PpuState {
        PpuState {
            nmi_line_low: true,
            ctrl: 0,
            mask: 0,
            status: 0,
            v: 0,
            t: 0,
            fine_x_scroll: 0,
            address_latch_low: true,
            data_buffer: 0,
            oam_addr: 0,
            oam_data: Seq::new(256, |i: int| 0u8),
            cycle: 0,
            scanline: -1isize,
            frame_complete: false,
            frame_counter: 0,
            palette_ram: Seq::new(32, |i: int| 0u8),
            vram: Seq::new(2048, |i: int| 0u8),
            chr_ram: Seq::new(8192, |i: int| 0u8),
            mirroring: Mirroring::Horizontal,
            bg_next_tile_id: 0,
            bg_next_tile_attr: 0,
            bg_next_tile_lsb: 0,
            bg_next_tile_msb: 0,
            bg_shifter_pattern_lo: 0,
            bg_shifter_pattern_hi: 0,
            bg_shifter_attrib_lo: 0,
            bg_shifter_attrib_hi: 0,
            pixels: Seq::new((SCREEN_WIDTH * SCREEN_HEIGHT * 4) as nat, |i: int| 0u8),
            frame_width: SCREEN_WIDTH,
            frame_height: SCREEN_HEIGHT,
        }
    }
}

impl Ppu {
    pub fn new() -> (r: Self)
        ensures
            r@ == PpuState::power_on().after_reset(),
    {
        let mut ppu = Self {
            nmi_line_low: true,
            ctrl: ControlRegister::new(),
            mask: MaskRegister::new(),
            status: StatusRegister::new(),
            vram_addr: AddrRegister::new(),
            temp_vram_addr: AddrRegister::new(),
            fine_x_scroll: 0,
            address_latch_low: true,
            data_buffer: 0,
            oam_addr: 0,
            oam_data: [0u8; 256],
            cycle: 0,
            scanline: -1,
            frame_complete: false,
            frame_counter: 0,
            palette_ram: [0u8; 32],
            vram: [0u8; 2048],
            chr_ram: [0u8; 8192],
            mirroring: Mirroring::Horizontal,
            bg_next_tile_id: 0,
            bg_next_tile_attr: 0,
            bg_next_tile_lsb: 0,
            bg_next_tile_msb: 0,
            bg_shifter_pattern_lo: 0,
            bg_shifter_pattern_hi: 0,
            bg_shifter_attrib_lo: 0,
            bg_shifter_attrib_hi: 0,
            frame: FrameData::new(SCREEN_WIDTH, SCREEN_HEIGHT),
        };
        assert(ppu.oam_data@ =~= Seq::new(256, |i: int| 0u8));
        assert(ppu.palette_ram@ =~= Seq::new(32, |i: int| 0u8));
        assert(ppu.vram@ =~= Seq::new(2048, |i: int| 0u8));
        assert(ppu.chr_ram@ =~= Seq::new(8192, |i: int| 0u8));
        assert(ppu@ =~= PpuState::power_on());
        ppu.reset();
        ppu
    }

    /// Resets timing, registers, the frame buffer and the default palette,
    /// and loads the built-in test tiles.
    pub fn reset(&mut self)
        ensures
            final(self)@ == old(self)@.after_reset(),
    {
        self.cycle = 0;
        self.scanline = -1;
        self.frame_complete = false;
        self.frame_counter = 0;
        self.nmi_line_low = true;
        self.address_latch_low = true;
        self.fine_x_scroll = 0;
        self.data_buffer = 0;
        self.oam_addr = 0;
        self.bg_next_tile_id = 0;
        self.bg_next_tile_attr = 0;
        self.bg_next_tile_lsb = 0;
        self.bg_next_tile_msb = 0;
        self.bg_shifter_pattern_lo = 0;
        self.bg_shifter_pattern_hi = 0;
        self.bg_shifter_attrib_lo = 0;
        self.bg_shifter_attrib_hi = 0;
        self.status.register = 0x00;
        self.mask.set_bits(0x00);
        self.ctrl.set_bits(0xA0);
        self.vram_addr.set(0x0000);
        self.temp_vram_addr.set(0x0000);
        proof {
            lemma_u16_fields(0);
        }
        let n = self.frame.pixels.len();
        let ghost len = self.frame.pixels@.len();
        let ghost s1 = self@;
        for i in 0..n
            invariant
                n == self.frame.pixels@.len(),
                forall|j: int| 0 <= j < i ==> self.frame.pixels@[j] == 0,
                self@ == (PpuState { pixels: self.frame.pixels@, ..s1 }),
        {
            self.frame.pixels.set(i, 0);
        }
        assert(self.frame.pixels@ =~= Seq::new(len, |i: int| 0u8));
        let ghost p0 = self.palette_ram@;
        self.palette_ram[0] = 0x0F;
        self.palette_ram[1] = 0x01;
        self.palette_ram[2] = 0x11;
        self.palette_ram[3] = 0x21;
        self.palette_ram[5] = 0x0C;
        self.palette_ram[6] = 0x1C;
        self.palette_ram[7] = 0x2C;
        self.palette_ram[9] = 0x13;
        self.palette_ram[10] = 0x23;
        self.palette_ram[11] = 0x33;
        self.palette_ram[13] = 0x1A;
        self.palette_ram[14] = 0x2A;
        self.palette_ram[15] = 0x3A;
        self.palette_ram[0x10] = self.palette_ram[0];
        self.palette_ram[0x14] = self.palette_ram[0x04];
        self.palette_ram[0x18] = self.palette_ram[0x08];
        self.palette_ram[0x1C] = self.palette_ram[0x0C];
        assert(self.palette_ram@ =~= PpuState::reset_palette(p0));
        self.init_test_chr_data();
        self.ctrl.set_bits(0xA0);
        self.mask.set_bits(0x1E);
    }

    /// Loads the built-in test tiles into CHR RAM and a few test tiles into
    /// the first nametable.
    fn init_test_chr_data(&mut self)
        ensures
            final(self)@ == (PpuState {
                chr_ram: Seq::new(
                    old(self)@.chr_ram.len(),
                    |i: int|
                        if i < 48 {
                            TEST_TILES@[i]
                        } else {
                            old(self)@.chr_ram[i]
                        },
                ),
                vram: Seq::new(
                    old(self)@.vram.len(),
                    |i: int|
                        if i < 16 {
                            (i % 3) as u8
                        } else if i == 0x3C0 {
                            0x55u8
                        } else {
                            old(self)@.vram[i]
                        },
                ),
                ..old(self)@
            }),
    {
        let ghost s0 = self@;
        let ghost c0 = self.chr_ram@;
        let ghost v0 = self.vram@;
        assert(c0.len() == 8192 && v0.len() == 2048);
        for i in 0..48
            invariant
                self@ == (PpuState { chr_ram: self.chr_ram@, ..s0 }),
                c0.len() == 8192,
                forall|j: int| 0 <= j < i ==> self.chr_ram@[j] == TEST_TILES@[j],
                forall|j: int| i <= j < 8192 ==> self.chr_ram@[j] == c0[j],
        {
            self.chr_ram[i] = TEST_TILES[i];
        }
        let ghost s1 = self@;
        for i in 0..16
            invariant
                self@ == (PpuState { vram: self.vram@, ..s1 }),
                v0.len() == 2048,
                forall|j: int| 0 <= j < i ==> self.vram@[j] == (j % 3) as u8,
                forall|j: int| i <= j < 2048 ==> self.vram@[j] == v0[j],
        {
            self.vram[i] = (i % 3) as u8;
        }
        self.vram[0x3C0] = 0x55;
        assert(self.chr_ram@ =~= Seq::new(
            c0.len(),
            |i: int|
                if i < 48 {
                    TEST_TILES@[i]
                } else {
                    c0[i]
                },
        ));
        assert(self.vram@ =~= Seq::new(
            v0.len(),
            |i: int|
                if i < 16 {
                    (i % 3) as u8
                } else if i == 0x3C0 {
                    0x55u8
                } else {
                    v0[i]
                },
        ));
    }

    /// A copy of the current frame, at the screen's size.
    pub fn render_frame(&mut self) -> (r: FrameData)
        ensures
            r.pixels@ == old(self)@.pixels,
            r.width == SCREEN_WIDTH,
            r.height == SCREEN_HEIGHT,
            *final(self) == *old(self),
    {
        let pixels = self.frame.pixels.clone();
        assert(pixels@ =~= self.frame.pixels@);
        FrameData { pixels, width: SCREEN_WIDTH, height: SCREEN_HEIGHT }
    }
}

impl Default for Ppu {
    fn default() -> (r: Self)
        ensures
            r@ == PpuState::power_on().after_reset(),
    {
        Self::new()
    }
}

// ---------------------------------------------------------------------------
// Debug drawing
// ---------------------------------------------------------------------------

/// The colours of the debug pattern's bars, left to right: red, green,
/// blue, yellow, cyan, magenta, white.
pub const DEBUG_BAR_COLORS: [(u8, u8, u8); 7] = [
    (255, 0, 0),
    (0, 255, 0),
    (0, 0, 255),
    (255, 255, 0),
    (0, 255, 255),
    (255, 0, 255),
    (255, 255, 255),
];

/// Component `k` (red, green, blue, alpha) of an opaque colour.
pub open spec fn rgba_byte(c: (u8, u8, u8), k: int) -> u8 {
    if k == 0 {
        c.0
    } else if k == 1 {
        c.1
    } else if k == 2 {
        c.2
    } else {
        255
    }
}

/// Byte `j` of a `w` by `h` RGBA buffer of `n` bytes holding the debug
/// pattern: seven vertical bars of width `w / 7` from the left edge, each
/// pixel drawn only where all four of its bytes lie in the buffer, and
/// black everywhere else.
pub open spec fn debug_bar_byte(w: int, h: int, n: int, j: int) -> u8 {
    let p = j / 4;
    let bw = w / 7;
    if w > 0 && 4 * p + 3 < n && p / w < h && p % w < 7 * bw {
        rgba_byte(DEBUG_BAR_COLORS@[(p % w) / bw], j % 4)
    } else {
        0
    }
}

/// The two-bit value of pixel (`x`, `y`) of the tile whose planes start
/// at `base` in `chr`.
pub open spec fn tile_pixel(chr: Seq<u8>, base: int, x: int, y: int) -> u8 {
    let bit = (7 - x) as u8;
    let lo = (chr[base + y] >> bit) & 0x01;
    let hi = (chr[base + y + 8] >> bit) & 0x01;
    (hi << 1u8) | lo
}

impl PpuState {
    /// The frame buffer with the debug colour bars drawn over black.
    pub open spec fn debug_pattern_drawn(self) -> PpuState {
        PpuState {
            pixels: Seq::new(
                self.pixels.len(),
                |j: int|
                    debug_bar_byte(
                        self.frame_width as int,
                        self.frame_height as int,
                        self.pixels.len() as int,
                        j,
                    ),
            ),
            ..self
        }
    }

    /// Byte `j` of the frame buffer after tile `tile` of CHR RAM is drawn
    /// at (`x_pos`, `y_pos`) with `palette`: the tile's non-zero pixels that
    /// fall on screen take their palette colour; all else is unchanged.
    pub open spec fn chr_tile_byte(self, x_pos: int, y_pos: int, tile: int, palette: int, j: int) -> u8 {
        let p = j / 4;
        let x = p % 256 - x_pos;
        let y = p / 256 - y_pos;
        if 0 <= x < 8 && 0 <= y < 8 && p / 256 < 240 && 4 * p + 3 < self.pixels.len() && tile_pixel(
            self.chr_ram,
            tile * 16,
            x,
            y,
        ) > 0 {
            let pv = tile_pixel(self.chr_ram, tile * 16, x, y);
            let color = self.palette_ram[(palette * 4 + pv) % 32];
            rgba_byte(NES_PALETTE@[(color & 0x3F) as int], j % 4)
        } else {
            self.pixels[j]
        }
    }
}

impl Ppu {
    /// Clears the frame buffer and draws seven vertical colour bars.
    #[verifier::rlimit(40)]
    pub fn draw_debug_pattern(&mut self)
        ensures
            final(self)@ == old(self)@.debug_pattern_drawn(),
    {
        let ghost s0 = self@;
        let n = self.frame.pixels.len();
        let mut i: usize = 0;
        while i < n
            invariant
                i <= n,
                n == s0.pixels.len(),
                self@ == (PpuState { pixels: self.frame.pixels@, ..s0 }),
                self.frame.pixels@.len() == n,
                forall|j: int| 0 <= j < i ==> self.frame.pixels@[j] == 0,
            decreases n - i,
        {
            self.frame.pixels.set(i, 0);
            i = i + 1;
        }
        let width = self.frame.width;
        let height = self.frame.height;
        let colors = DEBUG_BAR_COLORS;
        let bar_width = width / 7;
        let pixel_count = n / 4;
        let mut p: usize = 0;
        while p < pixel_count
            invariant
                p <= pixel_count,
                pixel_count == n / 4,
                n == s0.pixels.len(),
                width == s0.frame_width,
                height == s0.frame_height,
                bar_width == width / 7,
                colors@ == DEBUG_BAR_COLORS@,
                self@ == (PpuState { pixels: self.frame.pixels@, ..s0 }),
                self.frame.pixels@.len() == n,
                forall|j: int|
                    0 <= j < 4 * p ==> self.frame.pixels@[j] == debug_bar_byte(
                        width as int,
                        height as int,
                        n as int,
                        j,
                    ),
                forall|j: int| 4 * p <= j < n ==> self.frame.pixels@[j] == 0,
            decreases pixel_count - p,
        {
            if width > 0 {
                let x = p % width;
                let y = p / width;
                if y < height && x < 7 * bar_width {
                    assert(x / bar_width < 7) by (nonlinear_arith)
                        requires
                            x < 7 * bar_width,
                            bar_width > 0,
                    ;
                    let (r, g, b) = colors[x / bar_width];
                    let idx = p * 4;
                    self.frame.pixels.set(idx, r);
                    self.frame.pixels.set(idx + 1, g);
                    self.frame.pixels.set(idx + 2, b);
                    self.frame.pixels.set(idx + 3, 255);
                }
            }
            assert forall|j: int| 0 <= j < 4 * (p + 1) implies self.frame.pixels@[j] == debug_bar_byte(
                width as int,
                height as int,
                n as int,
                j,
            ) by {
                if j >= 4 * p {
                    assert(j / 4 == p);
                }
            }
            p = p + 1;
        }
        assert forall|j: int| 4 * p <= j < n implies debug_bar_byte(
            width as int,
            height as int,
            n as int,
            j,
        ) == 0 by {
            assert(j / 4 >= pixel_count);
        }
        assert(self@ =~= s0.debug_pattern_drawn());
    }

    /// Draws the debug pattern and returns a copy of the frame.
    #[verifier::rlimit(40)]
    pub fn get_test_frame(&mut self) -> (r: FrameData)
        requires
            old(self).frame.pixels@.len() == old(self).frame.width * old(self).frame.height * 4,
        ensures
            final(self)@ == old(self)@.debug_pattern_drawn(),
            r.width == old(self).frame.width,
            r.height == old(self).frame.height,
            r.pixels@ == final(self)@.pixels,
    {
        self.draw_debug_pattern();
        let len = self.frame.pixels.len();
        assert(len == self.frame.width * self.frame.height * 4);
        let mut frame = FrameData::new(self.frame.width, self.frame.height);
        let n = frame.pixels.len();
        let mut i: usize = 0;
        while i < n
            invariant
                i <= n,
                n == self.frame.pixels@.len(),
                frame.pixels@.len() == n,
                frame.width == self.frame.width,
                frame.height == self.frame.height,
                forall|j: int| 0 <= j < i ==> frame.pixels@[j] == self.frame.pixels@[j],
            decreases n - i,
        {
            frame.pixels.set(i, self.frame.pixels[i]);
            i = i + 1;
        }
        assert(frame.pixels@ =~= self.frame.pixels@);
        frame
    }

    /// Draws tile `tile_index` of CHR RAM at (`x_pos`, `y_pos`) with
    /// `palette`, leaving its zero pixels transparent.
    #[verifier::rlimit(40)]
    fn draw_chr_tile(&mut self, x_pos: usize, y_pos: usize, tile_index: usize, palette: usize)
        requires
            tile_index < 512,
            x_pos <= usize::MAX - 8,
            y_pos <= usize::MAX - 8,
            palette <= (usize::MAX - 3) / 4,
        ensures
            final(self)@ == (PpuState {
                pixels: Seq::new(
                    old(self)@.pixels.len(),
                    |j: int|
                        old(self)@.chr_tile_byte(
                            x_pos as int,
                            y_pos as int,
                            tile_index as int,
                            palette as int,
                            j,
                        ),
                ),
                ..old(self)@
            }),
    {
        let ghost s0 = self@;
        let base_addr = tile_index * 16;
        let mut y: usize = 0;
        while y < 8
            invariant
                y <= 8,
                base_addr == tile_index * 16,
                tile_index < 512,
                x_pos <= usize::MAX - 8,
                y_pos <= usize::MAX - 8,
                palette <= (usize::MAX - 3) / 4,
                self@ == (PpuState { pixels: self.frame.pixels@, ..s0 }),
                self.frame.pixels@.len() == s0.pixels.len(),
                forall|j: int|
                    0 <= j < s0.pixels.len() ==> #[trigger] self.frame.pixels@[j] == (if (j / 4) / 256
                        - y_pos < y {
                        s0.chr_tile_byte(x_pos as int, y_pos as int, tile_index as int, palette as int, j)
                    } else {
                        s0.pixels[j]
                    }),
            decreases 8 - y,
        {
            let low_byte = self.chr_ram[base_addr + y];
            let high_byte = self.chr_ram[base_addr + y + 8];
            let mut x: usize = 0;
            while x < 8
                invariant
                    x <= 8,
                    y < 8,
                    base_addr == tile_index * 16,
                    tile_index < 512,
                    x_pos <= usize::MAX - 8,
                    y_pos <= usize::MAX - 8,
                    palette <= (usize::MAX - 3) / 4,
                    low_byte == s0.chr_ram[base_addr + y],
                    high_byte == s0.chr_ram[base_addr + y + 8],
                    self@ == (PpuState { pixels: self.frame.pixels@, ..s0 }),
                    self.frame.pixels@.len() == s0.pixels.len(),
                    forall|j: int|
                        0 <= j < s0.pixels.len() ==> #[trigger] self.frame.pixels@[j] == (if (j / 4)
                            / 256 - y_pos < y || ((j / 4) / 256 - y_pos == y && (j / 4) % 256 - x_pos
                            < x) {
                            s0.chr_tile_byte(x_pos as int, y_pos as int, tile_index as int, palette as int, j)
                        } else {
                            s0.pixels[j]
                        }),
                decreases 8 - x,
            {
                let bit = (7 - x) as u8;
                let low_bit = (low_byte >> bit) & 0x01;
                let high_bit = (high_byte >> bit) & 0x01;
                let pixel_value = (high_bit << 1u8) | low_bit;
                proof {
                    lemma_pixel_bits(high_byte, low_byte, bit);
                }
                if pixel_value > 0 {
                    let color_addr = (palette * 4 + pixel_value as usize) % 32;
                    let color_idx = self.palette_ram[color_addr] as usize;
                    proof {
                        lemma_usize_fields(color_idx);
                    }
                    let (r, g, b) = NES_PALETTE[color_idx & 0x3F];
                    let screen_x = x_pos + x;
                    let screen_y = y_pos + y;
                    if screen_x < SCREEN_WIDTH && screen_y < SCREEN_HEIGHT {
                        let idx = (screen_y * SCREEN_WIDTH + screen_x) * 4;
                        if idx + 3 < self.frame.pixels.len() {
                            self.frame.pixels.set(idx, r);
                            self.frame.pixels.set(idx + 1, g);
                            self.frame.pixels.set(idx + 2, b);
                            self.frame.pixels.set(idx + 3, 255);
                        }
                    }
                }
                x = x + 1;
            }
            y = y + 1;
        }
        assert(self.frame.pixels@ =~= Seq::new(
            s0.pixels.len(),
            |j: int| s0.chr_tile_byte(x_pos as int, y_pos as int, tile_index as int, palette as int, j),
        ));
    }
}

// ---------------------------------------------------------------------------
// Register and memory access
// ---------------------------------------------------------------------------

impl Ppu {
    pub fn read_status_peek(&self) -> (r: u8)
        ensures
            r == self@.status,
    {
        self.status.register
    }

    /// Reading $2002 clears VBlank, resets the $2005/$2006 latch and releases NMI.
    pub fn handle_status_read_side_effects(&mut self)
        ensures
            final(self)@ == old(self)@.after_status_read(),
    {
        self.status.set_vblank_started(false);
        self.address_latch_low = true;
        self.nmi_line_low = true;
    }

    pub fn read_oam_data(&self) -> (r: u8)
        ensures
            r == self@.oam_data[self@.oam_addr as int],
    {
        self.oam_data[self.oam_addr as usize]
    }

    pub fn get_vram_address(&self) -> (r: u16)
        ensures
            r == self@.v & 0x3FFF,
    {
        self.vram_addr.addr()
    }

    /// The $2007 read buffer: palette reads return `last_read_value` directly,
    /// other reads return the buffered byte and buffer `last_read_value`.
    pub fn handle_data_read_side_effects(&mut self, last_read_value: u8) -> (r: u8)
        ensures
            (final(self)@, r) == old(self)@.after_data_read(last_read_value),
    {
        let vram_addr = self.vram_addr.addr();
        let result = if vram_addr >= 0x3F00 {
            last_read_value
        } else {
            let buffered_value = self.data_buffer;
            self.data_buffer = last_read_value;
            buffered_value
        };
        self.increment_vram_addr();
        result
    }

    pub fn increment_vram_addr(&mut self)
        ensures
            final(self)@ == old(self)@.after_increment(),
    {
        let increment: u16 = if self.ctrl.vram_addr_increment() != 0 {
            32
        } else {
            1
        };
        self.vram_addr.increment(increment);
    }

    pub fn write_ctrl(&mut self, data: u8)
        ensures
            final(self)@ == old(self)@.after_write_ctrl(data),
    {
        let old_nmi_enable = self.ctrl.generate_nmi();
        self.ctrl.set_bits(data);
        let nametable_select = data & 0b11;
        self.temp_vram_addr.set_nametable_select(nametable_select);
        let nmi_now_enabled = self.ctrl.generate_nmi();
        if self.status.vblank_started() && !old_nmi_enable && nmi_now_enabled {
            self.nmi_line_low = false;
        }
    }

    pub fn write_mask(&mut self, data: u8)
        ensures
            final(self)@ == (PpuState { mask: data, ..old(self)@ }),
    {
        self.mask.set_bits(data);
    }

    pub fn write_oam_addr(&mut self, data: u8)
        ensures
            final(self)@ == (PpuState { oam_addr: data, ..old(self)@ }),
    {
        self.oam_addr = data;
    }

    pub fn write_oam_data(&mut self, data: u8)
        ensures
            final(self)@ == old(self)@.after_write_oam_data(data),
    {
        self.oam_data[self.oam_addr as usize] = data;
        self.oam_addr = self.oam_addr.wrapping_add(1);
    }

    pub fn write_scroll(&mut self, data: u8)
        ensures
            final(self)@ == old(self)@.after_write_scroll(data),
    {
        if self.address_latch_low {
            self.temp_vram_addr.set_coarse_x(data >> 3u8);
            self.fine_x_scroll = data & 0x07;
            self.address_latch_low = false;
        } else {
            self.temp_vram_addr.set_fine_y(data & 0x07);
            self.temp_vram_addr.set_coarse_y(data >> 3u8);
            self.address_latch_low = true;
        }
    }

    pub fn write_addr(&mut self, data: u8)
        ensures
            final(self)@ == old(self)@.after_write_addr(data),
    {
        if self.address_latch_low {
            self.temp_vram_addr.set_high_byte(data & 0x3F);
            self.address_latch_low = false;
        } else {
            self.temp_vram_addr.set_low_byte(data);
            self.vram_addr.copy_from(&self.temp_vram_addr);
            self.address_latch_low = true;
        }
    }

    /// Writes a palette entry through the mirrors, keeping the low six bits.
    pub fn write_palette(&mut self, addr: u8, data: u8)
        ensures
            final(self)@ == (PpuState {
                palette_ram: old(self)@.palette_ram.update(palette_index(addr as u16), data & 0x3F),
                ..old(self)@
            }),
    {
        let index = (addr & 0x1F) as usize;
        proof {
            lemma_u8_fields(addr);
        }
        let mirrored_index = if index == 0x10 || index == 0x14 || index == 0x18 || index == 0x1C {
            index - 0x10
        } else {
            index
        };
        self.palette_ram[mirrored_index] = data & 0x3F;
    }

    pub fn write_oam_byte(&mut self, index: u8, data: u8)
        ensures
            final(self)@ == (PpuState {
                oam_data: old(self)@.oam_data.update(index as int, data),
                ..old(self)@
            }),
    {
        self.oam_data[index as usize] = data;
    }

    /// Maps a nametable address ($2000-$3EFF) to an index into nametable RAM.
    pub fn mirror_vram_addr(&self, addr: u16, mirroring: Mirroring) -> (r: usize)
        ensures
            r == mirror_nametable(addr, mirroring),
            r < 0x1000,
            mirroring != Mirroring::FourScreen ==> r < 0x800,
    {
        let addr_masked = addr & 0x3FFF;
        if addr_masked >= 0x2000 && addr_masked <= 0x3EFF {
            let relative_addr = addr_masked & 0x0FFF;
            let table = relative_addr / 0x0400;
            let offset = relative_addr & 0x03FF;
            proof {
                lemma_u16_fields(relative_addr);
            }
            proof {
                lemma_u16_fields(addr_masked);
            }
            match mirroring {
                Mirroring::Horizontal => {
                    let physical_table = (table >> 1u16) & 1;
                    proof {
                        lemma_u16_fields(table);
                    }
                    ((physical_table * 0x400) + offset) as usize
                },
                Mirroring::Vertical => {
                    let physical_table = table & 1;
                    proof {
                        lemma_u16_fields(table);
                    }
                    ((physical_table * 0x400) + offset) as usize
                },
                Mirroring::SingleScreenLower => offset as usize,
                Mirroring::SingleScreenUpper => (0x400 + offset) as usize,
                Mirroring::FourScreen => relative_addr as usize,
            }
        } else {
            proof {
                lemma_u16_fields(addr_masked);
            }
            (addr_masked & 0x07FF) as usize
        }
    }

    fn read_palette_ram(&self, addr: u16) -> (r: u8)
        ensures
            r == self@.read_palette(addr),
    {
        let index = (addr & 0x1F) as usize;
        let mirrored_index = if index == 0x10 || index == 0x14 || index == 0x18 || index == 0x1C {
            index & 0x0F
        } else {
            index
        };
        proof {
            lemma_usize_fields(index);
        }
        proof {
            lemma_u16_fields(addr);
        }
        self.palette_ram[mirrored_index]
    }

    fn write_palette_ram(&mut self, addr: u16, data: u8)
        ensures
            final(self)@ == (PpuState {
                palette_ram: old(self)@.palette_ram.update(palette_index(addr), data),
                ..old(self)@
            }),
    {
        let mapped_addr = (addr & 0x001F) as usize;
        proof {
            lemma_u16_fields(addr);
        }
        let final_addr = if mapped_addr == 0x10 {
            0x00
        } else if mapped_addr == 0x14 {
            0x04
        } else if mapped_addr == 0x18 {
            0x08
        } else if mapped_addr == 0x1C {
            0x0C
        } else {
            mapped_addr
        };
        self.palette_ram[final_addr] = data;
    }

    /// Reads VRAM from the PPU's own pattern, nametable and palette memory.
    pub fn read_vram_internal(&self, addr: u16) -> (r: u8)
        requires
            0x2000 <= addr & 0x3FFF <= 0x3EFF ==> mirror_nametable(addr & 0x3FFF, self.mirroring)
                < 2048,
        ensures
            r == ({
                let a = addr & 0x3FFF;
                if a <= 0x1FFF {
                    self@.chr_ram[a as int]
                } else if a <= 0x3EFF {
                    self@.vram[mirror_nametable(a, self.mirroring)]
                } else {
                    self@.read_palette(a)
                }
            }),
    {
        let addr_masked = addr & 0x3FFF;
        if addr_masked <= 0x1FFF {
            self.chr_ram[addr_masked as usize]
        } else if addr_masked <= 0x3EFF {
            proof {
                lemma_u16_fields(addr);
            }
            let mirrored_addr = self.mirror_vram_addr(addr_masked, self.mirroring);
            self.vram[mirrored_addr]
        } else {
            self.read_palette_ram(addr_masked)
        }
    }

    /// Reads PPU memory at `addr` without the $2007 buffer or increment:
    /// palettes directly, everything else through the bus.
    pub fn read_data_peek<B: BusAccess>(&self, bus: &B, addr: u16) -> (r: u8)
        ensures
            r == (if addr & 0x3FFF >= 0x3F00 {
                self@.read_palette(addr & 0x3FFF)
            } else {
                B::spec_ppu_read_vram(bus@, addr & 0x3FFF)
            }),
    {
        let addr_masked = addr & 0x3FFF;
        if addr_masked >= 0x3F00 {
            self.read_palette_ram(addr_masked)
        } else {
            bus.ppu_read_vram(addr_masked)
        }
    }

    /// $2007 write: palette RAM directly, everything else through the bus;
    /// then the VRAM address advances.
    pub fn write_data<B: BusAccess>(&mut self, data: u8, bus: &mut B)
        requires
            B::inv(old(bus)@),
        ensures
            B::inv(final(bus)@),
            old(self)@.v >= 0x3F00 ==> final(self)@ == (PpuState {
                palette_ram: old(self)@.palette_ram.update(palette_index(old(self)@.v), data),
                ..old(self)@
            }).after_increment() && final(bus)@ == old(bus)@,
            old(self)@.v < 0x3F00 ==> final(self)@ == old(self)@.after_increment() && final(bus)@
                == B::spec_ppu_write_vram(old(bus)@, old(self)@.v, data),
    {
        let addr = self.vram_addr.get();
        if addr >= 0x3F00 {
            self.write_palette_ram(addr, data);
        } else {
            bus.ppu_write_vram(addr, data);
        }
        self.increment_vram_addr();
    }
}

// ---------------------------------------------------------------------------
// The background rendering pipeline
// ---------------------------------------------------------------------------

impl PpuState {
    /// Background or sprites are enabled.
    pub open spec fn rendering_enabled(self) -> bool {
        self.mask & 0x08 != 0 || self.mask & 0x10 != 0
    }

    pub open spec fn show_background(self) -> bool {
        self.mask & 0x08 != 0
    }

    /// The next tile's pattern and attribute bits loaded into the low bytes
    /// of the shift registers.
    pub open spec fn shifters_loaded(self) -> PpuState {
        let attr_bit0 = ((self.bg_next_tile_attr & 0x01) * 0xFF) as u8;
        let attr_bit1 = (((self.bg_next_tile_attr & 0x02) >> 1u8) * 0xFF) as u8;
        PpuState {
            bg_shifter_pattern_lo: (self.bg_shifter_pattern_lo & 0xFF00) | (
            self.bg_next_tile_lsb as u16),
            bg_shifter_pattern_hi: (self.bg_shifter_pattern_hi & 0xFF00) | (
            self.bg_next_tile_msb as u16),
            bg_shifter_attrib_lo: (self.bg_shifter_attrib_lo & 0xFF00) | (attr_bit0 as u16),
            bg_shifter_attrib_hi: (self.bg_shifter_attrib_hi & 0xFF00) | (attr_bit1 as u16),
            ..self
        }
    }

    /// The four background shift registers shifted left by one, when the
    /// background is shown.
    pub open spec fn shifters_advanced(self) -> PpuState {
        if self.show_background() {
            PpuState {
                bg_shifter_pattern_lo: self.bg_shifter_pattern_lo << 1u16,
                bg_shifter_pattern_hi: self.bg_shifter_pattern_hi << 1u16,
                bg_shifter_attrib_lo: self.bg_shifter_attrib_lo << 1u16,
                bg_shifter_attrib_hi: self.bg_shifter_attrib_hi << 1u16,
                ..self
            }
        } else {
            self
        }
    }

    pub open spec fn scroll_x_incremented(self) -> PpuState {
        if self.rendering_enabled() {
            PpuState { v: coarse_x_incremented(self.v), ..self }
        } else {
            self
        }
    }

    pub open spec fn scroll_y_incremented(self) -> PpuState {
        if self.rendering_enabled() {
            PpuState { v: fine_y_incremented(self.v), ..self }
        } else {
            self
        }
    }

    pub open spec fn address_x_transferred(self) -> PpuState {
        if self.rendering_enabled() {
            PpuState { v: (self.v & !0x041Fu16) | (self.t & 0x041F), ..self }
        } else {
            self
        }
    }

    pub open spec fn address_y_transferred(self) -> PpuState {
        if self.rendering_enabled() {
            PpuState { v: (self.v & !0x7BE0u16) | (self.t & 0x7BE0), ..self }
        } else {
            self
        }
    }

    /// Where the nametable byte for the next tile is fetched from.
    pub open spec fn nametable_fetch_addr(self) -> u16 {
        mirror_nametable(0x2000 | (self.v & 0x0FFF), self.mirroring) as u16
    }

    /// Where the attribute byte for the next tile is fetched from.
    pub open spec fn attribute_fetch_addr(self) -> u16 {
        let select = (nametable_y_of(self.v) << 1u16) | nametable_x_of(self.v);
        let a = 0x23C0u16 | (select << 10u16) | ((coarse_y_of(self.v) >> 2u16) << 3u16) | (
        coarse_x_of(self.v) >> 2u16);
        mirror_nametable(a, self.mirroring) as u16
    }

    /// The two attribute bits of the next tile's quadrant within `byte`.
    pub open spec fn attribute_bits(self, byte: u8) -> u8 {
        let shift = (((coarse_y_of(self.v) & 0x02) << 1u16) | (coarse_x_of(self.v) & 0x02)) as u8;
        (byte >> shift) & 0x03
    }

    /// Address of the low pattern plane of the next tile's current row.
    pub open spec fn pattern_fetch_addr(self) -> u16 {
        let base: u16 = if self.ctrl & 0x10 == 0 {
            0x0000
        } else {
            0x1000
        };
        (base + (self.bg_next_tile_id as u16) * 16 + fine_y_of(self.v)) as u16
    }

    /// One cycle of the background fetch pattern, selected by `cycle % 8`.
    pub open spec fn background_fetched(self, cart: Option<CartState>) -> PpuState {
        let phase = self.cycle % 8;
        if phase == 1 {
            let s = self.shifters_loaded();
            PpuState { bg_next_tile_id: slot_read_chr(cart, s.nametable_fetch_addr()), ..s }
        } else if phase == 3 {
            PpuState {
                bg_next_tile_attr: self.attribute_bits(
                    slot_read_chr(cart, self.attribute_fetch_addr()),
                ),
                ..self
            }
        } else if phase == 5 {
            PpuState { bg_next_tile_lsb: slot_read_chr(cart, self.pattern_fetch_addr()), ..self }
        } else if phase == 7 {
            PpuState {
                bg_next_tile_msb: slot_read_chr(cart, (self.pattern_fetch_addr() + 8) as u16),
                ..self
            }
        } else if phase == 0 {
            self.scroll_x_incremented()
        } else {
            self
        }
    }

    /// The 2-bit background pixel and palette at the current fine X position.
    pub open spec fn background_pixel(self) -> (u8, u8) {
        if self.show_background() {
            let bit_select = 0x8000u16 >> (self.fine_x_scroll as u16);
            let p0 = (self.bg_shifter_pattern_lo & bit_select) > 0;
            let p1 = (self.bg_shifter_pattern_hi & bit_select) > 0;
            let a0 = (self.bg_shifter_attrib_lo & bit_select) > 0;
            let a1 = (self.bg_shifter_attrib_hi & bit_select) > 0;
            (
                ((if p1 {
                    2u8
                } else {
                    0u8
                }) + (if p0 {
                    1u8
                } else {
                    0u8
                })) as u8,
                ((if a1 {
                    2u8
                } else {
                    0u8
                }) + (if a0 {
                    1u8
                } else {
                    0u8
                })) as u8,
            )
        } else {
            (0, 0)
        }
    }

    /// The colour index that the current pixel takes from palette RAM.
    pub open spec fn pixel_color_index(self) -> u8 {
        let (bg_pixel, bg_palette) = self.background_pixel();
        let (pixel, palette) = if bg_pixel > 0 {
            (bg_pixel, bg_palette)
        } else {
            (0u8, 0u8)
        };
        self.read_palette((palette * 4 + pixel) as u16)
    }

    /// The current pixel drawn into the frame buffer (as RGBA) when it is on
    /// screen and inside the buffer.
    pub open spec fn pixel_rendered(self) -> PpuState {
        let x = self.cycle - 1;
        let y = self.scanline;
        if x >= SCREEN_WIDTH || y < 0 || y >= SCREEN_HEIGHT {
            self
        } else {
            let rgb = NES_PALETTE@[(self.pixel_color_index() & 0x3F) as int];
            let i = (y * self.frame_width + self.cycle - 1) * 4;
            if i + 3 < self.pixels.len() {
                PpuState {
                    pixels: self.pixels.update(i, rgb.0).update(i + 1, rgb.1).update(i + 2, rgb.2).update(
                        i + 3,
                        255,
                    ),
                    ..self
                }
            } else {
                self
            }
        }
    }

    /// Work done on the pre-render and visible scanlines.
    pub open spec fn visible_line_step(self, cart: Option<CartState>) -> PpuState {
        let re = self.rendering_enabled();
        let s1 = if 1 <= self.cycle <= 256 {
            let a = if self.scanline != -1 {
                self.pixel_rendered()
            } else {
                self
            };
            let b = if re {
                a.shifters_advanced()
            } else {
                a
            };
            if re {
                b.background_fetched(cart)
            } else {
                b
            }
        } else {
            self
        };
        let s2 = if self.cycle == 257 && re {
            s1.address_x_transferred()
        } else {
            s1
        };
        let s3 = if 321 <= self.cycle <= 336 && re {
            s2.background_fetched(cart)
        } else {
            s2
        };
        if self.cycle == 256 && re {
            s3.scroll_y_incremented()
        } else {
            s3
        }
    }

    /// Work done on the pre-render scanline only.
    pub open spec fn prerender_line_step(self) -> PpuState {
        let s1 = if self.cycle == 1 {
            PpuState { status: self.status & !(0x80u8 | 0x20u8 | 0x40u8), ..self }
        } else {
            self
        };
        if 280 <= self.cycle <= 304 && self.rendering_enabled() {
            s1.address_y_transferred()
        } else {
            s1
        }
    }

    /// The start of vertical blank (scanline 241, cycle 1).
    pub open spec fn vblank_step(self) -> PpuState {
        PpuState {
            status: with_flag(self.status, 0x80, true),
            nmi_line_low: if self.ctrl & 0x80 != 0 {
                false
            } else {
                self.nmi_line_low
            },
            ..self
        }
    }

    /// Advance the dot counter, wrapping scanlines and frames.
    pub open spec fn dot_advanced(self) -> PpuState {
        let cycle = self.cycle + 1;
        if cycle > 340 {
            let scanline = self.scanline + 1;
            if scanline > 260 {
                PpuState {
                    cycle: 0,
                    scanline: -1isize,
                    frame_complete: true,
                    frame_counter: crate::wadd64(self.frame_counter, 1),
                    nmi_line_low: true,
                    ..self
                }
            } else {
                PpuState { cycle: 0, scanline: scanline as isize, ..self }
            }
        } else {
            PpuState { cycle: cycle as usize, ..self }
        }
    }

    /// One PPU dot: the state after it.
    pub open spec fn stepped(self, cart: Option<CartState>) -> PpuState {
        let s1 = if self.scanline == -1 || (0 <= self.scanline <= 239) {
            self.visible_line_step(cart)
        } else {
            self
        };
        let s2 = if self.scanline == -1 {
            s1.prerender_line_step()
        } else {
            s1
        };
        let s3 = if self.scanline == 241 && self.cycle == 1 {
            s2.vblank_step()
        } else {
            s2
        };
        s3.dot_advanced()
    }

    /// A PPU dot can be taken from this state without arithmetic overflow.
    pub open spec fn can_step(self) -> bool {
        &&& self.cycle < usize::MAX
        &&& self.scanline < isize::MAX
        &&& self.fine_x_scroll < 16
        &&& (0 <= self.scanline <= 239 && 1 <= self.cycle <= 256) ==> (self.scanline
            * self.frame_width + self.cycle - 1) * 4 + 3 <= usize::MAX
    }
}

impl Ppu {
    fn update_background_shifters(&mut self)
        ensures
            final(self)@ == old(self)@.shifters_advanced(),
    {
        if self.mask.show_background() {
            self.bg_shifter_pattern_lo = self.bg_shifter_pattern_lo << 1u16;
            self.bg_shifter_pattern_hi = self.bg_shifter_pattern_hi << 1u16;
            self.bg_shifter_attrib_lo = self.bg_shifter_attrib_lo << 1u16;
            self.bg_shifter_attrib_hi = self.bg_shifter_attrib_hi << 1u16;
        }
    }

    fn load_background_shifters(&mut self)
        ensures
            final(self)@ == old(self)@.shifters_loaded(),
    {
        self.bg_shifter_pattern_lo = (self.bg_shifter_pattern_lo & 0xFF00) | self.bg_next_tile_lsb as u16;
        self.bg_shifter_pattern_hi = (self.bg_shifter_pattern_hi & 0xFF00) | self.bg_next_tile_msb as u16;
        let attr = self.bg_next_tile_attr;
        proof {
            lemma_u8_fields(attr);
        }
        let attr_bit0 = (attr & 0b01) * 0xFF;
        let attr_bit1 = ((attr & 0b10) >> 1u8) * 0xFF;
        self.bg_shifter_attrib_lo = (self.bg_shifter_attrib_lo & 0xFF00) | (attr_bit0 as u16);
        self.bg_shifter_attrib_hi = (self.bg_shifter_attrib_hi & 0xFF00) | (attr_bit1 as u16);
    }

    fn increment_scroll_x(&mut self)
        ensures
            final(self)@ == old(self)@.scroll_x_incremented(),
    {
        if self.mask.show_background() || self.mask.show_sprites() {
            self.vram_addr.inc_coarse_x();
        }
    }

    fn increment_scroll_y(&mut self)
        ensures
            final(self)@ == old(self)@.scroll_y_incremented(),
    {
        if self.mask.show_background() || self.mask.show_sprites() {
            self.vram_addr.inc_fine_y();
        }
    }

    fn transfer_address_x(&mut self)
        ensures
            final(self)@ == old(self)@.address_x_transferred(),
    {
        if self.mask.show_background() || self.mask.show_sprites() {
            self.vram_addr.copy_horizontal_bits(&self.temp_vram_addr);
        }
    }

    fn transfer_address_y(&mut self)
        ensures
            final(self)@ == old(self)@.address_y_transferred(),
    {
        if self.mask.show_background() || self.mask.show_sprites() {
            self.vram_addr.copy_vertical_bits(&self.temp_vram_addr);
        }
    }

    /// One cycle of the background fetch pattern (nametable byte, attribute
    /// byte, pattern low, pattern high, horizontal increment).
    fn fetch_background(&mut self, cartridge: &Option<Cartridge>)
        ensures
            final(self)@ == old(self)@.background_fetched(slot_state(*cartridge)),
    {
        let phase = self.cycle % 8;
        if phase == 1 {
            self.load_background_shifters();
            let nt_addr = 0x2000u16 | (self.vram_addr.get() & 0x0FFF);
            let mirrored_nt_addr = self.mirror_vram_addr(nt_addr, self.mirroring) as u16;
            self.bg_next_tile_id = read_chr_from_slot(cartridge, mirrored_nt_addr);
        } else if phase == 3 {
            let nametable_select = (self.vram_addr.nametable_y() << 1u16)
                | self.vram_addr.nametable_x();
            let cy = self.vram_addr.coarse_y();
            let cx = self.vram_addr.coarse_x();
            let attr_addr: u16 = 0x23C0u16 | (nametable_select << 10u16) | (((cy >> 2u8) as u16)
                << 3u16) | ((cx >> 2u8) as u16);
            let ghost v = self.vram_addr@;
            proof {
                lemma_attribute_bits(v, cx, cy);
            }
            let mirrored_attr_addr = self.mirror_vram_addr(attr_addr, self.mirroring) as u16;
            let attr_byte = read_chr_from_slot(cartridge, mirrored_attr_addr);
            let shift = ((cy & 0x02) << 1u8) | (cx & 0x02);
            self.bg_next_tile_attr = (attr_byte >> shift) & 0x03;
        } else if phase == 5 {
            let pattern_table_base = self.ctrl.background_pattern_addr();
            let tile_addr = pattern_table_base + (self.bg_next_tile_id as u16 * 16);
            let fine_y = self.vram_addr.fine_y();
            let addr = tile_addr + fine_y;
            self.bg_next_tile_lsb = read_chr_from_slot(cartridge, addr);
        } else if phase == 7 {
            let pattern_table_base = self.ctrl.background_pattern_addr();
            let tile_addr = pattern_table_base + (self.bg_next_tile_id as u16 * 16);
            let fine_y = self.vram_addr.fine_y();
            let pattern_addr_high = tile_addr + fine_y + 8;
            self.bg_next_tile_msb = read_chr_from_slot(cartridge, pattern_addr_high);
        } else if phase == 0 {
            self.increment_scroll_x();
        }
    }

    /// Draws the current dot into the frame buffer.
    fn render_pixel(&mut self)
        requires
            1 <= old(self).cycle,
            old(self).fine_x_scroll < 16,
            (0 <= old(self).scanline <= 239 && 1 <= old(self).cycle <= 256) ==> (old(self).scanline
                * old(self).frame.width + old(self).cycle - 1) * 4 + 3 <= usize::MAX,
        ensures
            final(self)@ == old(self)@.pixel_rendered(),
    {
        let x = self.cycle - 1;
        let y = self.scanline;
        if x >= SCREEN_WIDTH || y < 0 || y >= SCREEN_HEIGHT as isize {
            return;
        }
        let mut bg_pixel: u8 = 0;
        let mut bg_palette: u8 = 0;
        if self.mask.show_background() {
            let bit_select: u16 = 0x8000u16 >> (self.fine_x_scroll as u16);
            let p0_pixel = (self.bg_shifter_pattern_lo & bit_select) > 0;
            let p1_pixel = (self.bg_shifter_pattern_hi & bit_select) > 0;
            bg_pixel = (if p1_pixel {
                2u8
            } else {
                0u8
            }) + (if p0_pixel {
                1u8
            } else {
                0u8
            });
            let bg_pal0 = (self.bg_shifter_attrib_lo & bit_select) > 0;
            let bg_pal1 = (self.bg_shifter_attrib_hi & bit_select) > 0;
            bg_palette = (if bg_pal1 {
                2u8
            } else {
                0u8
            }) + (if bg_pal0 {
                1u8
            } else {
                0u8
            });
        }
        let mut pixel: u8 = 0;
        let mut palette: u8 = 0;
        if bg_pixel > 0 {
            pixel = bg_pixel;
            palette = bg_palette;
        }
        let palette_idx = palette * 4 + pixel;
        let color_idx = self.read_palette_ram(palette_idx as u16);
        let c = color_idx & 0x3F;
        proof {
            lemma_u8_fields(color_idx);
        }
        let (r, g, b) = NES_PALETTE[c as usize];
        let pixel_index = (self.scanline as usize * self.frame.width + self.cycle - 1) * 4;
        if pixel_index + 3 < self.frame.pixels.len() {
            self.frame.pixels.set(pixel_index, r);
            self.frame.pixels.set(pixel_index + 1, g);
            self.frame.pixels.set(pixel_index + 2, b);
            self.frame.pixels.set(pixel_index + 3, 255);
        }
    }

    /// The work of one dot on the pre-render or a visible scanline.
    fn visible_line(&mut self, cartridge: &Option<Cartridge>)
        requires
            old(self)@.can_step(),
        ensures
            final(self)@ == old(self)@.visible_line_step(slot_state(*cartridge)),
    {
        let rendering_enabled = self.mask.show_background() || self.mask.show_sprites();
        if 1 <= self.cycle && self.cycle <= 256 {
            if self.scanline != -1 {
                self.render_pixel();
            }
            if rendering_enabled {
                self.update_background_shifters();
            }
            if rendering_enabled {
                self.fetch_background(cartridge);
            }
        }
        if self.cycle == 257 && rendering_enabled {
            self.transfer_address_x();
        }
        if 321 <= self.cycle && self.cycle <= 336 && rendering_enabled {
            self.fetch_background(cartridge);
        }
        if self.cycle == 256 && rendering_enabled {
            self.increment_scroll_y();
        }
    }

    /// The work of one dot on the pre-render scanline.
    fn prerender_line(&mut self)
        ensures
            final(self)@ == old(self)@.prerender_line_step(),
    {
        let rendering_enabled = self.mask.show_background() || self.mask.show_sprites();
        if self.cycle == 1 {
            self.status.register = self.status.register & !(StatusRegister::VBLANK_STARTED
                | StatusRegister::SPRITE_OVERFLOW | StatusRegister::SPRITE_ZERO_HIT);
        }
        if self.cycle >= 280 && self.cycle <= 304 && rendering_enabled {
            self.transfer_address_y();
        }
    }

    /// Advances the PPU by one dot. Pattern fetches go to the cartridge in
    /// the given slot. Returns whether the NMI line is active.
    #[verifier::rlimit(60)]
    pub fn step_cycle(&mut self, cartridge: &Option<Cartridge>) -> (nmi: bool)
        requires
            old(self)@.can_step(),
        ensures
            final(self)@ == old(self)@.stepped(slot_state(*cartridge)),
            nmi == !final(self).nmi_line_low,
    {
        if self.scanline == -1 || (0 <= self.scanline && self.scanline <= 239) {
            self.visible_line(cartridge);
        }
        if self.scanline == -1 {
            self.prerender_line();
        }
        if self.scanline == 241 {
            if self.cycle == 1 {
                self.status.set_vblank_started(true);
                if self.ctrl.generate_nmi() {
                    self.nmi_line_low = false;
                }
            }
        }
        self.cycle = self.cycle + 1;
        if self.cycle > 340 {
            self.cycle = 0;
            self.scanline = self.scanline + 1;
            if self.scanline > 260 {
                self.scanline = -1;
                self.frame_complete = true;
                self.frame_counter = self.frame_counter.wrapping_add(1);
                self.nmi_line_low = true;
            }
        }
        !self.nmi_line_low
    }
}

} // verus!

verus! {

/// Two writes to PPUADDR, high byte first, set the VRAM address (and the
/// temporary address) to the 14-bit address they spell, and leave the
/// latch ready for the next pair.
pub proof fn lemma_addr_write_pair(p: PpuState, hi: u8, lo: u8)
    requires
        p.address_latch_low,
    ensures
        ({
            let q = p.after_write_addr(hi).after_write_addr(lo);
            &&& q.v == (hi & 0x3F) as u16 * 256 + lo as u16
            &&& q.t == q.v
            &&& q.address_latch_low
        }),
{
    let t0 = p.t;
    let t1 = (t0 & 0x00FF) | ((((hi & 0x3F) as u16) & 0x3F) << 8u16);
    let t2 = (t1 & 0xFF00) | (lo as u16);
    assert(t2 == (hi & 0x3F) as u16 * 256 + lo as u16) by (bit_vector)
        requires
            t1 == (t0 & 0x00FF) | ((((hi & 0x3F) as u16) & 0x3F) << 8u16),
            t2 == (t1 & 0xFF00) | (lo as u16),
    ;
}

/// Two writes to PPUSCROLL, X first, set the temporary address's coarse X
/// and the fine X scroll from the first byte, and its coarse Y and fine Y
/// from the second, keeping the nametable selection.
pub proof fn lemma_scroll_write_pair(p: PpuState, x: u8, y: u8)
    requires
        p.address_latch_low,
    ensures
        ({
            let q = p.after_write_scroll(x).after_write_scroll(y);
            &&& coarse_x_of(q.t) == (x >> 3u8) as u16
            &&& q.fine_x_scroll == x & 0x07
            &&& coarse_y_of(q.t) == (y >> 3u8) as u16
            &&& fine_y_of(q.t) == (y & 0x07) as u16
            &&& nametable_x_of(q.t) == nametable_x_of(p.t)
            &&& nametable_y_of(q.t) == nametable_y_of(p.t)
            &&& q.address_latch_low
            &&& q.v == p.v
        }),
{
    let t1 = with_coarse_x(p.t, x >> 3u8);
    crate::registers::lemma_coarse_x_roundtrip(p.t, x >> 3u8);
    let t2 = with_fine_y(t1, y & 0x07);
    crate::registers::lemma_fine_y_roundtrip(t1, y & 0x07);
    let t3 = with_coarse_y(t2, y >> 3u8);
    crate::registers::lemma_coarse_y_roundtrip(t2, y >> 3u8);
    lemma_u8_fields(x);
    lemma_u8_fields(y);
}

/// Reading PPUSTATUS clears the vertical-blank flag, keeps the other
/// status bits, and resets the write latch shared by PPUSCROLL and PPUADDR.
pub proof fn lemma_status_read(p: PpuState)
    ensures
        p.after_status_read().status & 0x80 == 0,
        p.after_status_read().status & 0x7F == p.status & 0x7F,
        p.after_status_read().address_latch_low,
{
    crate::registers::lemma_status_flag_roundtrip(p.status, 0x80, false);
    let st = p.status;
    lemma_u8_fields(st);
}

/// Palette entries $3F10/$3F14/$3F18/$3F1C are the same cells as
/// $3F00/$3F04/$3F08/$3F0C, and every palette address maps to one of the
/// 32 cells of palette RAM.
pub proof fn lemma_palette_mirrors(addr: u16)
    ensures
        0 <= palette_index(addr) < 32,
        palette_index(addr) == palette_index(addr & 0x1F),
        (addr & 0x13) == 0x10 ==> palette_index(addr) == palette_index((addr & 0x0F) as u16),
{
    lemma_u16_fields(addr);
}

/// Position of the PPU's current dot within a frame: scanline -1 (the
/// pre-render line) starts at 0, each scanline has 341 dots.
pub open spec fn dot_position(p: PpuState) -> int {
    (p.scanline + 1) * 341 + p.cycle
}

/// Dots in one frame: scanlines -1 to 260, of 341 dots each.
pub open spec fn dots_per_frame() -> int {
    262int * 341
}

/// The dot counters and frame bookkeeping of a PPU state.
spec fn dot_counters(p: PpuState) -> (usize, isize, bool, u64) {
    (p.cycle, p.scanline, p.frame_complete, p.frame_counter)
}

/// The work done within a dot leaves the dot counters to `dot_advanced`.
proof fn lemma_dot_work_keeps_counters(p: PpuState, cart: Option<CartState>)
    ensures
        dot_counters(p.visible_line_step(cart)) == dot_counters(p),
        dot_counters(p.prerender_line_step()) == dot_counters(p),
        dot_counters(p.vblank_step()) == dot_counters(p),
{
    assert(dot_counters(p.pixel_rendered()) == dot_counters(p));
    assert(dot_counters(p.shifters_advanced()) == dot_counters(p));
    assert(forall|q: PpuState| #[trigger] dot_counters(q.background_fetched(cart)) == dot_counters(q));
    assert(forall|q: PpuState| #[trigger] dot_counters(q.shifters_advanced()) == dot_counters(q));
    assert(forall|q: PpuState| #[trigger] dot_counters(q.address_x_transferred()) == dot_counters(q));
    assert(forall|q: PpuState| #[trigger] dot_counters(q.scroll_y_incremented()) == dot_counters(q));
}

/// Each dot moves the PPU one position forward, wrapping at the end of the
/// frame (after scanline 260, dot 340), where the frame is flagged complete
/// and the frame counter advances.
#[verifier::rlimit(40)]
pub proof fn lemma_dot_advance(p: PpuState, cart: Option<CartState>)
    requires
        p.cycle <= 340,
        -1 <= p.scanline <= 260,
        p.can_step(),
    ensures
        dot_position(p.stepped(cart)) == (dot_position(p) + 1) % dots_per_frame(),
        p.stepped(cart).cycle <= 340,
        -1 <= p.stepped(cart).scanline <= 260,
        dot_position(p) == dots_per_frame() - 1 ==> p.stepped(cart).frame_complete
            && p.stepped(cart).frame_counter == crate::wadd64(p.frame_counter, 1),
        dot_position(p) != dots_per_frame() - 1 ==> p.stepped(cart).frame_complete
            == p.frame_complete && p.stepped(cart).frame_counter == p.frame_counter,
{
    lemma_dot_work_keeps_counters(p, cart);
    let s1 = if p.scanline == -1 || (0 <= p.scanline <= 239) {
        p.visible_line_step(cart)
    } else {
        p
    };
    lemma_dot_work_keeps_counters(s1, cart);
    let s2 = if p.scanline == -1 {
        s1.prerender_line_step()
    } else {
        s1
    };
    lemma_dot_work_keeps_counters(s2, cart);
    let s3 = if p.scanline == 241 && p.cycle == 1 {
        s2.vblank_step()
    } else {
        s2
    };
    assert(dot_counters(s3) == dot_counters(p));
    assert(p.stepped(cart) == s3.dot_advanced());
    let q = s3.dot_advanced();
    let pos = dot_position(p);
    assert(0 <= pos < dots_per_frame());
    if p.cycle < 340 {
        assert(q.cycle == p.cycle + 1 && q.scanline == p.scanline);
        assert(dot_position(q) == pos + 1);
        assert((pos + 1) % dots_per_frame() == pos + 1);
    } else if p.scanline < 260 {
        assert(q.cycle == 0 && q.scanline == p.scanline + 1);
        assert(dot_position(q) == pos + 1);
        assert((pos + 1) % dots_per_frame() == pos + 1);
    } else {
        assert(q.cycle == 0 && q.scanline == -1);
        assert(pos + 1 == dots_per_frame());
        assert(dot_position(q) == 0);
    }
}

/// The start of vertical blank: the dot at scanline 241, cycle 1 sets the
/// vblank flag and, when PPUCTRL enables NMI, pulls the NMI line low.
pub proof fn lemma_vblank_start(p: PpuState, cart: Option<CartState>)
    requires
        p.scanline == 241,
        p.cycle == 1,
    ensures
        p.stepped(cart).status & 0x80 != 0,
        p.ctrl & 0x80 != 0 ==> !p.stepped(cart).nmi_line_low,
        p.ctrl & 0x80 == 0 ==> p.stepped(cart).nmi_line_low == p.nmi_line_low,
{
    crate::registers::lemma_status_flag_roundtrip(p.status, 0x80, true);
}

/// Bit `15 - f` of a shifter tested through the mask `0x8000 >> f`.
proof fn lemma_shifter_bit(x: u16, f: u16)
    by (bit_vector)
    requires
        f < 16,
    ensures
        ((x & (0x8000u16 >> f)) > 0) == ((x >> ((15u16 - f) as u16)) & 1u16 == 1u16),
        (x >> ((15u16 - f) as u16)) & 1u16 <= 1u16,
{
}

/// The background pixel at fine X position `f` comes from bit `15 - f` of
/// each shifter: the low pattern plane gives bit 0 of the 2-bit pixel value
/// and the high plane bit 1; the low attribute shifter gives bit 0 of the
/// palette number and the high one bit 1. With background rendering off the
/// pixel is 0 in palette 0. The colour drawn is palette RAM entry
/// `4 * palette + pixel` for a nonzero pixel and the backdrop entry 0
/// otherwise.
pub proof fn lemma_background_pixel_planes(p: PpuState)
    requires
        p.fine_x_scroll < 16,
    ensures
        ({
            let i = (15 - p.fine_x_scroll) as u16;
            p.background_pixel() == if p.show_background() {
                (
                    (2 * ((p.bg_shifter_pattern_hi >> i) & 1) + ((p.bg_shifter_pattern_lo >> i)
                        & 1)) as u8,
                    (2 * ((p.bg_shifter_attrib_hi >> i) & 1) + ((p.bg_shifter_attrib_lo >> i)
                        & 1)) as u8,
                )
            } else {
                (0u8, 0u8)
            }
        }),
        ({
            let (v, pal) = p.background_pixel();
            p.pixel_color_index() == p.read_palette(
                if v != 0 {
                    (pal * 4 + v) as u16
                } else {
                    0u16
                },
            )
        }),
{
    let f = p.fine_x_scroll as u16;
    assert((15 - p.fine_x_scroll) as u16 == ((15u16 - f) as u16));
    lemma_shifter_bit(p.bg_shifter_pattern_lo, f);
    lemma_shifter_bit(p.bg_shifter_pattern_hi, f);
    lemma_shifter_bit(p.bg_shifter_attrib_lo, f);
    lemma_shifter_bit(p.bg_shifter_attrib_hi, f);
}

} // verus!
