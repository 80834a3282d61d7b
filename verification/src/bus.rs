//! The system bus: the CPU's view of RAM, PPU registers, controllers and the
//! cartridge, and the PPU's view of pattern, nametable and palette memory.
use vstd::prelude::*;
use crate::bits::{lemma_pixel_bits, lemma_u16_fields, lemma_u16_from_bytes, lemma_u8_fields, lemma_usize_fields};
use crate::Mirroring;
use crate::cartridge::{
    CartState, Cartridge, cart_read_chr, cart_read_prg, cart_write_chr, slot_read_chr, slot_state,
};
use crate::controller::{Controller, ControllerState, after_read, after_write, read_result};
use crate::cpu::{AddressingMode, Cpu6502, InspectState, Operation, operation_of};
use crate::ppu::{FrameData, Ppu, PpuState, dot_position, dots_per_frame, lemma_dot_advance, mirror_nametable, palette_index};
use crate::ram::{Memory, ram_read, ram_write};

verus! {

/// Memory access as the CPU and PPU see it. The behaviour of each operation
/// is described over the bus's abstract state `Self::V`.
pub trait BusAccess: View + Sized {
    /// The invariant that every operation keeps.
    spec fn inv(s: Self::V) -> bool;

    /// A CPU read of `addr`: the state after it and the byte it returns.
    spec fn spec_read(s: Self::V, addr: u16) -> (Self::V, u8);

    /// A CPU write of `data` to `addr`.
    spec fn spec_write(s: Self::V, addr: u16, data: u8) -> Self::V;

    /// The side effects of a CPU read of PPUSTATUS.
    spec fn spec_status_read_side_effects(s: Self::V) -> Self::V;

    /// The side effects of a CPU read of PPUDATA that fetched `last`.
    spec fn spec_data_read_side_effects(s: Self::V, last: u8) -> (Self::V, u8);

    /// A PPU read of `addr`.
    spec fn spec_ppu_read_vram(s: Self::V, addr: u16) -> u8;

    /// A PPU write of `data` to `addr`.
    spec fn spec_ppu_write_vram(s: Self::V, addr: u16, data: u8) -> Self::V;

    /// The current nametable mirroring.
    spec fn spec_mirroring(s: Self::V) -> Mirroring;

    fn read(&mut self, addr: u16) -> (r: u8)
        requires
            Self::inv(old(self)@),
        ensures
            Self::inv(final(self)@),
            (final(self)@, r) == Self::spec_read(old(self)@, addr),
    ;

    fn write(&mut self, addr: u16, data: u8)
        requires
            Self::inv(old(self)@),
        ensures
            Self::inv(final(self)@),
            final(self)@ == Self::spec_write(old(self)@, addr, data),
    ;

    fn ppu_status_read_side_effects(&mut self)
        requires
            Self::inv(old(self)@),
        ensures
            Self::inv(final(self)@),
            final(self)@ == Self::spec_status_read_side_effects(old(self)@),
    ;

    fn ppu_data_read_side_effects(&mut self, last_read_value: u8) -> (r: u8)
        requires
            Self::inv(old(self)@),
        ensures
            Self::inv(final(self)@),
            (final(self)@, r) == Self::spec_data_read_side_effects(old(self)@, last_read_value),
    ;

    fn ppu_read_vram(&self, addr: u16) -> (r: u8)
        ensures
            r == Self::spec_ppu_read_vram(self@, addr),
    ;

    fn ppu_write_vram(&mut self, addr: u16, data: u8)
        requires
            Self::inv(old(self)@),
        ensures
            Self::inv(final(self)@),
            final(self)@ == Self::spec_ppu_write_vram(old(self)@, addr, data),
    ;

    fn get_mirroring(&self) -> (r: Mirroring)
        ensures
            r == Self::spec_mirroring(self@),
    ;

    fn read_u16_zp(&mut self, addr: u16) -> (r: u16)
        requires
            Self::inv(old(self)@),
        ensures
            Self::inv(final(self)@),
            ({
                let (s1, lo) = Self::spec_read(old(self)@, addr & 0x00FF);
                let (s2, hi) = Self::spec_read(s1, crate::wadd16(addr, 1) & 0x00FF);
                final(self)@ == s2 && r == hi * 256 + lo
            }),
    ;

    /// 16-bit little-endian read.
    fn read_u16(&mut self, addr: u16) -> (r: u16)
        requires
            Self::inv(old(self)@),
        ensures
            Self::inv(final(self)@),
            ({
                let (s1, lo) = Self::spec_read(old(self)@, addr);
                let (s2, hi) = Self::spec_read(s1, crate::wadd16(addr, 1));
                final(self)@ == s2 && r == hi * 256 + lo
            }),
    {
        let ghost s0 = self@;
        let lo8 = self.read(addr);
        let ghost s1 = self@;
        assert((s1, lo8) == Self::spec_read(s0, addr));
        let hi8 = self.read(addr.wrapping_add(1));
        assert((self@, hi8) == Self::spec_read(s1, crate::wadd16(addr, 1)));
        let lo = lo8 as u16;
        let hi = hi8 as u16;
        proof {
            lemma_u16_from_bytes(hi, lo);
        }
        (hi << 8u16) | lo
    }

    /// 16-bit little-endian write.
    fn write_u16(&mut self, addr: u16, data: u16)
        requires
            Self::inv(old(self)@),
        ensures
            Self::inv(final(self)@),
            final(self)@ == Self::spec_write(
                Self::spec_write(old(self)@, addr, (data % 256) as u8),
                crate::wadd16(addr, 1),
                (data / 256) as u8,
            ),
    {
        proof {
            lemma_u16_fields(data);
        }
        let lo = (data & 0xFF) as u8;
        let hi = (data >> 8u16) as u8;
        self.write(addr, lo);
        self.write(addr.wrapping_add(1), hi);
    }
}

/// Two reads, low byte first, at `addr` and `addr + 1` (wrapping).
pub open spec fn spec_read_u16<B: BusAccess>(s: B::V, addr: u16) -> (B::V, u16) {
    let (s1, lo) = B::spec_read(s, addr);
    let (s2, hi) = B::spec_read(s1, crate::wadd16(addr, 1));
    (s2, (hi * 256 + lo) as u16)
}

/// Two reads, low byte first, wrapping within the zero page.
pub open spec fn spec_read_u16_zp<B: BusAccess>(s: B::V, addr: u16) -> (B::V, u16) {
    let (s1, lo) = B::spec_read(s, addr & 0x00FF);
    let (s2, hi) = B::spec_read(s1, crate::wadd16(addr, 1) & 0x00FF);
    (s2, (hi * 256 + lo) as u16)
}

} // verus!


verus! {

/// The observable state of the whole system bus.
#[verifier::ext_equal]
pub struct BusState {
    pub ram: Seq<u8>,
    pub ppu: PpuState,
    pub cpu: Cpu6502,
    pub cartridge: Option<CartState>,
    pub controller1: ControllerState,
    pub controller2: ControllerState,
    pub total_cycles: u64,
    pub prev_nmi_line: bool,
    pub test_mode: bool,
    pub test_pattern_rendered: bool,
    pub oam_dma_cycles_remaining: usize,
    pub oam_dma_page: u8,
    pub oam_dma_offset: u8,
    pub oam_dma_data: u8,
}

/// The main system bus, connecting CPU, PPU, RAM, cartridge and controllers.
pub struct Bus {
    pub cpu_ram: Memory,
    pub ppu: Ppu,
    pub cpu: Cpu6502,
    pub cartridge: Option<Cartridge>,
    pub controller1: Controller,
    pub controller2: Controller,
    pub total_cycles: u64,
    pub prev_nmi_line: bool,
    pub test_mode: bool,
    pub test_pattern_rendered: bool,
    pub oam_dma_cycles_remaining: usize,
    pub oam_dma_page: u8,
    pub oam_dma_offset: u8,
    pub oam_dma_data: u8,
}

impl View for Bus {
    type V = BusState;

    open spec fn view(&self) -> BusState {
        BusState {
            ram: self.cpu_ram.ram@,
            ppu: self.ppu@,
            cpu: self.cpu,
            cartridge: slot_state(self.cartridge),
            controller1: self.controller1@,
            controller2: self.controller2@,
            total_cycles: self.total_cycles,
            prev_nmi_line: self.prev_nmi_line,
            test_mode: self.test_mode,
            test_pattern_rendered: self.test_pattern_rendered,
            oam_dma_cycles_remaining: self.oam_dma_cycles_remaining,
            oam_dma_page: self.oam_dma_page,
            oam_dma_offset: self.oam_dma_offset,
            oam_dma_data: self.oam_dma_data,
        }
    }
}

// ---------------------------------------------------------------------------
// The bus's behaviour over its abstract state
// ---------------------------------------------------------------------------

/// The PPU's dot counters are in range and its frame buffer is addressable,
/// so that PPU dots can be taken forever.
pub open spec fn ppu_timing_ok(p: PpuState) -> bool {
    &&& p.cycle <= 340
    &&& -1 <= p.scanline <= 260
    &&& p.fine_x_scroll < 8
    &&& (239 * p.frame_width + 255) * 4 + 3 <= usize::MAX
}

/// The invariant of the bus: RAM has its size and the PPU can keep running.
pub open spec fn bus_inv(s: BusState) -> bool {
    &&& s.ram.len() == crate::ram::RAM_SIZE
    &&& ppu_timing_ok(s.ppu)
}

/// The current nametable mirroring: the cartridge's, or horizontal without one.
pub open spec fn bus_mirroring(s: BusState) -> Mirroring {
    match s.cartridge {
        Some(c) => c.mirroring,
        None => Mirroring::Horizontal,
    }
}

/// Palette index used by the bus's palette writes: the address is masked to
/// $3F1F, $3F10/$3F14/$3F18/$3F1C fall back to $3F00/$3F04/$3F08/$3F0C, and
/// the low five bits select the entry.
pub open spec fn bus_palette_index(addr: u16) -> int {
    let m = addr & 0x3F1F;
    let f = if m == 0x3F10 || m == 0x3F14 || m == 0x3F18 || m == 0x3F1C {
        (m - 0x10) as u16
    } else {
        m
    };
    (f & 0x1F) as int
}

/// The bus after a palette write.
pub open spec fn bus_write_palette(s: BusState, addr: u16, data: u8) -> BusState {
    BusState {
        ppu: PpuState {
            palette_ram: s.ppu.palette_ram.update(bus_palette_index(addr), data),
            ..s.ppu
        },
        ..s
    }
}

/// A PPU read: pattern memory from the cartridge, nametables from the PPU's
/// RAM through the mirroring, palette entries from palette RAM.
pub open spec fn bus_ppu_read_vram(s: BusState, addr: u16) -> u8 {
    let a = addr & 0x3FFF;
    if a <= 0x1FFF {
        slot_read_chr(s.cartridge, a)
    } else if a <= 0x3EFF {
        let m = mirror_nametable(a, bus_mirroring(s));
        if m < s.ppu.vram.len() {
            s.ppu.vram[m]
        } else {
            0
        }
    } else {
        s.ppu.read_palette(a)
    }
}

/// A PPU write: pattern memory to the cartridge, nametables to the PPU's RAM
/// through the mirroring, palette entries to palette RAM.
pub open spec fn bus_ppu_write_vram(s: BusState, addr: u16, data: u8) -> BusState {
    let a = addr & 0x3FFF;
    if a <= 0x1FFF {
        match s.cartridge {
            Some(c) => BusState { cartridge: Some(cart_write_chr(c, a, data)), ..s },
            None => s,
        }
    } else if a <= 0x3EFF {
        let m = mirror_nametable(a, bus_mirroring(s));
        if m < s.ppu.vram.len() {
            BusState { ppu: PpuState { vram: s.ppu.vram.update(m, data), ..s.ppu }, ..s }
        } else {
            s
        }
    } else {
        bus_write_palette(s, a, data)
    }
}

/// A CPU read of `addr`: the state after it and the byte it returns.
pub open spec fn bus_read(s: BusState, addr: u16) -> (BusState, u8) {
    if addr <= 0x1FFF {
        (s, s.ram[(addr & 0x07FF) as int])
    } else if addr <= 0x3FFF {
        let register = addr & 0x0007;
        if register == 2 {
            (s, s.ppu.status)
        } else if register == 4 {
            (s, s.ppu.oam_data[s.ppu.oam_addr as int])
        } else if register == 7 {
            let a = s.ppu.v & 0x3FFF;
            (
                s,
                if a >= 0x3F00 {
                    s.ppu.read_palette(a)
                } else {
                    bus_ppu_read_vram(s, a)
                },
            )
        } else {
            (s, 0)
        }
    } else if addr <= 0x4015 {
        (s, 0)
    } else if addr == 0x4016 {
        (BusState { controller1: after_read(s.controller1), ..s }, read_result(s.controller1))
    } else if addr == 0x4017 {
        (BusState { controller2: after_read(s.controller2), ..s }, read_result(s.controller2))
    } else if addr <= 0x401F {
        (s, 0)
    } else {
        (
            s,
            match s.cartridge {
                Some(c) => cart_read_prg(c, addr),
                None => 0xFF,
            },
        )
    }
}

/// The OAM DMA state after a write to $4014.
pub open spec fn oam_dma_triggered(s: BusState, page: u8) -> BusState {
    BusState {
        oam_dma_page: page,
        oam_dma_offset: 0,
        oam_dma_cycles_remaining: if s.total_cycles % 2 == 1 {
            514
        } else {
            513
        },
        ..s
    }
}

/// A CPU write of `data` to `addr`.
pub open spec fn bus_write(s: BusState, addr: u16, data: u8) -> BusState {
    if addr <= 0x1FFF {
        BusState { ram: ram_write(s.ram, addr & 0x07FF, data), ..s }
    } else if addr <= 0x3FFF {
        let register = addr & 0x0007;
        if register == 0 {
            BusState { ppu: s.ppu.after_write_ctrl(data), ..s }
        } else if register == 1 {
            BusState { ppu: PpuState { mask: data, ..s.ppu }, ..s }
        } else if register == 3 {
            BusState { ppu: PpuState { oam_addr: data, ..s.ppu }, ..s }
        } else if register == 4 {
            BusState { ppu: s.ppu.after_write_oam_data(data), ..s }
        } else if register == 5 {
            BusState { ppu: s.ppu.after_write_scroll(data), ..s }
        } else if register == 6 {
            BusState { ppu: s.ppu.after_write_addr(data), ..s }
        } else if register == 7 {
            let v = s.ppu.v;
            let s1 = if v >= 0x3F00 {
                bus_write_palette(s, v, data)
            } else {
                bus_ppu_write_vram(s, v, data)
            };
            BusState { ppu: s1.ppu.after_increment(), ..s1 }
        } else {
            s
        }
    } else if addr == 0x4014 {
        oam_dma_triggered(s, data)
    } else if addr == 0x4016 {
        BusState { controller1: after_write(s.controller1, data), ..s }
    } else if addr == 0x4017 {
        BusState { controller2: after_write(s.controller2, data), ..s }
    } else {
        s
    }
}

// ---------------------------------------------------------------------------
// Memory access
// ---------------------------------------------------------------------------

impl Bus {
    fn bus_read(&mut self, addr: u16) -> (r: u8)
        requires
            bus_inv(old(self)@),
        ensures
            bus_inv(final(self)@),
            (final(self)@, r) == bus_read(old(self)@, addr),
    {
        if addr <= 0x1FFF {
            proof {
                lemma_u16_fields(addr);
            }
            self.cpu_ram.ram[(addr & 0x07FF) as usize]
        } else if addr <= 0x3FFF {
            let register = addr & 0x0007;
            if register == 0x0002 {
                self.ppu.read_status_peek()
            } else if register == 0x0004 {
                self.ppu.read_oam_data()
            } else if register == 0x0007 {
                let vram_addr = self.ppu.get_vram_address();
                let ghost v = self.ppu.vram_addr@;
                proof {
                    lemma_u16_fields(v);
                }
                if vram_addr >= 0x3F00 {
                    self.read_palette(vram_addr)
                } else {
                    self.ppu_read_vram(vram_addr)
                }
            } else {
                0
            }
        } else if addr <= 0x4015 {
            0
        } else if addr == 0x4016 {
            self.controller1.read()
        } else if addr == 0x4017 {
            self.controller2.read()
        } else if addr <= 0x401F {
            0
        } else {
            match &self.cartridge {
                Some(cart) => cart.read_prg(addr),
                None => 0xFF,
            }
        }
    }

    #[verifier::rlimit(80)]
    fn bus_write(&mut self, addr: u16, data: u8)
        requires
            bus_inv(old(self)@),
        ensures
            bus_inv(final(self)@),
            final(self)@ == bus_write(old(self)@, addr, data),
    {
        if addr <= 0x1FFF {
            self.cpu_ram.write(addr & 0x07FF, data);
        } else if addr <= 0x3FFF {
            let register = addr & 0x0007;
            if register == 0x0000 {
                self.ppu.write_ctrl(data);
            } else if register == 0x0001 {
                self.ppu.write_mask(data);
            } else if register == 0x0003 {
                self.ppu.write_oam_addr(data);
            } else if register == 0x0004 {
                self.ppu.write_oam_data(data);
            } else if register == 0x0005 {
                proof {
                    lemma_u8_fields(data);
                }
                self.ppu.write_scroll(data);
            } else if register == 0x0006 {
                self.ppu.write_addr(data);
            } else if register == 0x0007 {
                let vram_addr = self.ppu.vram_addr.get();
                if vram_addr >= 0x3F00 {
                    self.write_palette(vram_addr, data);
                } else {
                    self.ppu_write_vram(vram_addr, data);
                }
                self.ppu.increment_vram_addr();
            }
        } else if addr == 0x4014 {
            self.trigger_oam_dma(data);
        } else if addr == 0x4016 {
            self.controller1.write(data);
        } else if addr == 0x4017 {
            self.controller2.write(data);
        } else if addr >= 0x4020 {
            if let Some(cart) = &mut self.cartridge {
                cart.write_prg(addr, data);
            }
        }
    }

    /// Side effects of a CPU read of PPUSTATUS ($2002).
    pub fn ppu_status_read_side_effects(&mut self)
        ensures
            final(self)@ == (BusState { ppu: old(self)@.ppu.after_status_read(), ..old(self)@ }),
    {
        self.ppu.handle_status_read_side_effects();
    }

    pub fn read_palette(&self, addr: u16) -> (r: u8)
        ensures
            r == self@.ppu.read_palette(addr),
    {
        let index = (addr & 0x1F) as usize;
        proof {
            lemma_u16_fields(addr);
        }
        proof {
            lemma_usize_fields(index);
        }
        let mirrored_index = if index == 0x10 || index == 0x14 || index == 0x18 || index == 0x1C {
            index & 0x0F
        } else {
            index
        };
        self.ppu.palette_ram[mirrored_index]
    }

    pub fn write_palette(&mut self, addr: u16, data: u8)
        ensures
            final(self)@ == bus_write_palette(old(self)@, addr, data),
    {
        let mirrored_addr = addr & 0x3F1F;
        let final_addr = if mirrored_addr == 0x3F10 || mirrored_addr == 0x3F14 || mirrored_addr
            == 0x3F18 || mirrored_addr == 0x3F1C {
            mirrored_addr - 0x10
        } else {
            mirrored_addr
        };
        let palette_index = (final_addr & 0x1F) as usize;
        proof {
            lemma_u16_fields(final_addr);
        }
        if palette_index < self.ppu.palette_ram.len() {
            self.ppu.palette_ram[palette_index] = data;
        }
    }

    /// PPU read through the bus, palettes included.
    pub fn ppu_read(&self, addr: u16) -> (r: u8)
        ensures
            r == (if addr >= 0x3F00 {
                self@.ppu.read_palette(addr)
            } else {
                bus_ppu_read_vram(self@, addr)
            }),
    {
        if addr >= 0x3F00 {
            self.read_palette(addr)
        } else {
            self.ppu_read_vram(addr)
        }
    }

    /// PPU write through the bus; addresses above $3FFF are ignored.
    pub fn ppu_write(&mut self, addr: u16, data: u8)
        ensures
            final(self)@ == (if addr <= 0x1FFF {
                match old(self)@.cartridge {
                    Some(c) => BusState {
                        cartridge: Some(cart_write_chr(c, addr, data)),
                        ..old(self)@
                    },
                    None => old(self)@,
                }
            } else if addr <= 0x3EFF {
                bus_ppu_write_vram(old(self)@, addr, data)
            } else if addr <= 0x3FFF {
                bus_write_palette(old(self)@, addr, data)
            } else {
                old(self)@
            }),
    {
        if addr <= 0x1FFF {
            if let Some(cart) = &mut self.cartridge {
                cart.write_chr(addr, data);
            }
        } else if addr <= 0x3EFF {
            self.ppu_write_vram(addr, data);
        } else if addr <= 0x3FFF {
            self.write_palette(addr, data);
        }
    }

    pub fn ppu_read_vram(&self, addr: u16) -> (r: u8)
        ensures
            r == bus_ppu_read_vram(self@, addr),
    {
        let a0 = addr;
        let addr = a0 & 0x3FFF;
        proof {
            lemma_u16_fields(a0);
        }
        if addr <= 0x1FFF {
            crate::cartridge::read_chr_from_slot(&self.cartridge, addr)
        } else if addr <= 0x3EFF {
            let mirroring = self.get_mirroring();
            let mirrored_addr = self.ppu.mirror_vram_addr(addr, mirroring);
            if mirrored_addr < self.ppu.vram.len() {
                self.ppu.vram[mirrored_addr]
            } else {
                0
            }
        } else {
            self.read_palette(addr)
        }
    }

    pub fn ppu_write_vram(&mut self, addr: u16, data: u8)
        ensures
            final(self)@ == bus_ppu_write_vram(old(self)@, addr, data),
    {
        let a0 = addr;
        let addr = a0 & 0x3FFF;
        proof {
            lemma_u16_fields(a0);
        }
        if addr <= 0x1FFF {
            if let Some(cart) = &mut self.cartridge {
                cart.write_chr(addr, data);
            }
        } else if addr <= 0x3EFF {
            let mirroring = self.get_mirroring();
            let mirrored_addr = self.ppu.mirror_vram_addr(addr, mirroring);
            if mirrored_addr < self.ppu.vram.len() {
                self.ppu.vram[mirrored_addr] = data;
            }
        } else {
            self.write_palette(addr, data);
        }
    }

    fn get_mirroring(&self) -> (r: Mirroring)
        ensures
            r == bus_mirroring(self@),
    {
        match &self.cartridge {
            Some(cart) => cart.get_mirroring(),
            None => Mirroring::Horizontal,
        }
    }

    /// Starts an OAM DMA transfer from CPU page `page`.
    pub fn trigger_oam_dma(&mut self, page: u8)
        ensures
            final(self)@ == oam_dma_triggered(old(self)@, page),
    {
        self.oam_dma_page = page;
        self.oam_dma_offset = 0;
        self.oam_dma_cycles_remaining = 513;
        if self.total_cycles % 2 == 1 {
            self.oam_dma_cycles_remaining = self.oam_dma_cycles_remaining + 1;
        }
    }
}

impl BusAccess for Bus {
    open spec fn inv(s: BusState) -> bool {
        bus_inv(s)
    }

    open spec fn spec_read(s: BusState, addr: u16) -> (BusState, u8) {
        bus_read(s, addr)
    }

    open spec fn spec_write(s: BusState, addr: u16, data: u8) -> BusState {
        bus_write(s, addr, data)
    }

    open spec fn spec_status_read_side_effects(s: BusState) -> BusState {
        BusState { ppu: s.ppu.after_status_read(), ..s }
    }

    open spec fn spec_data_read_side_effects(s: BusState, last: u8) -> (BusState, u8) {
        let (p, r) = s.ppu.after_data_read(last);
        (BusState { ppu: p, ..s }, r)
    }

    open spec fn spec_ppu_read_vram(s: BusState, addr: u16) -> u8 {
        bus_ppu_read_vram(s, addr)
    }

    open spec fn spec_ppu_write_vram(s: BusState, addr: u16, data: u8) -> BusState {
        bus_ppu_write_vram(s, addr, data)
    }

    open spec fn spec_mirroring(s: BusState) -> Mirroring {
        bus_mirroring(s)
    }

    fn read(&mut self, addr: u16) -> (r: u8) {
        self.bus_read(addr)
    }

    fn write(&mut self, addr: u16, data: u8) {
        self.bus_write(addr, data);
    }

    fn ppu_status_read_side_effects(&mut self) {
        self.ppu.handle_status_read_side_effects();
    }

    fn ppu_data_read_side_effects(&mut self, last_read_value: u8) -> (r: u8) {
        self.ppu.handle_data_read_side_effects(last_read_value)
    }

    fn ppu_read_vram(&self, addr: u16) -> (r: u8) {
        Bus::ppu_read_vram(self, addr)
    }

    fn ppu_write_vram(&mut self, addr: u16, data: u8) {
        Bus::ppu_write_vram(self, addr, data);
    }

    fn get_mirroring(&self) -> (r: Mirroring) {
        Bus::get_mirroring(self)
    }

    fn read_u16_zp(&mut self, addr: u16) -> (r: u16) {
        let lo_addr = addr & 0x00FF;
        let hi_addr = addr.wrapping_add(1) & 0x00FF;
        let lo = self.read(lo_addr) as u16;
        let hi = self.read(hi_addr) as u16;
        proof {
            lemma_u16_from_bytes(hi, lo);
        }
        (hi << 8u16) | lo
    }
}

} // verus!

verus! {

// ---------------------------------------------------------------------------
// Clocking
// ---------------------------------------------------------------------------

/// `n` PPU dots taken one after another, fetching pattern data from `cart`.
pub open spec fn ppu_dots(p: PpuState, cart: Option<CartState>, n: nat) -> PpuState
    decreases n,
{
    if n == 0 {
        p
    } else {
        ppu_dots(p, cart, (n - 1) as nat).stepped(cart)
    }
}

/// One bus clock spent on OAM DMA: odd remaining counts read the next source
/// byte into the DMA latch, even ones store the latch into OAM and advance.
/// A transfer started on an even cycle therefore stores the latch once
/// before its first read. The transfer ends when the offset wraps to zero.
pub open spec fn dma_clocked(s: BusState) -> BusState {
    let rem = (s.oam_dma_cycles_remaining - 1) as usize;
    let s0 = BusState { oam_dma_cycles_remaining: rem, ..s };
    if rem % 2 == 1 {
        let addr = (s.oam_dma_page * 256 + s.oam_dma_offset) as u16;
        let (s1, d) = bus_read(s0, addr);
        BusState { oam_dma_data: d, ..s1 }
    } else {
        let off = crate::wadd8(s.oam_dma_offset, 1);
        BusState {
            ppu: PpuState {
                oam_data: s.ppu.oam_data.update(s.oam_dma_offset as int, s.oam_dma_data),
                ..s.ppu
            },
            oam_dma_offset: off,
            oam_dma_cycles_remaining: if off == 0 {
                0
            } else {
                rem
            },
            ..s0
        }
    }
}

/// One CPU instruction (or NMI entry) executed against the bus: the bus
/// after it, with the new CPU, and the cycles taken.
#[verifier::opaque]
pub open spec fn cpu_stepped(s: BusState) -> (BusState, u8) {
    let (c, s2, r) = s.cpu.spec_step::<Bus>(s);
    (BusState { cpu: c, ..s2 }, r)
}

/// CPU reads and writes through the bus never change its cycle count.
proof fn lemma_access_keeps_cycles()
    ensures
        forall|s: BusState, a: u16| #[trigger] bus_read(s, a).0.total_cycles == s.total_cycles,
        forall|s: BusState, a: u16, d: u8| #[trigger] bus_write(s, a, d).total_cycles
            == s.total_cycles,
{
    assert forall|s: BusState, a: u16, d: u8| #[trigger] bus_write(s, a, d).total_cycles
        == s.total_cycles by {
        if a > 0x1FFF && a <= 0x3FFF && a & 0x0007 == 7 {
            let v = s.ppu.v;
            if v < 0x3F00 {
                let x = v & 0x3FFF;
                if x <= 0x1FFF {
                } else if x <= 0x3EFF {
                } else {
                }
            }
        }
    }
}

#[verifier::rlimit(40)]
proof fn lemma_address_keeps_cycles(c: Cpu6502, s: BusState, mode: AddressingMode)
    ensures
        c.spec_effective_address::<Bus>(s, mode).1.total_cycles == s.total_cycles,
{
    lemma_access_keeps_cycles();
}

#[verifier::spinoff_prover]
#[verifier::rlimit(40)]
proof fn lemma_op_keeps_cycles(
    c: Cpu6502,
    s: BusState,
    op: Operation,
    addr: u16,
    mode: AddressingMode,
    operand: u8,
)
    ensures
        c.spec_exec_op::<Bus>(s, op, addr, mode, operand).1.total_cycles == s.total_cycles,
{
    lemma_access_keeps_cycles();
}

#[verifier::rlimit(40)]
proof fn lemma_execute_keeps_cycles(
    c: Cpu6502,
    s: BusState,
    opcode: u8,
    addr: u16,
    mode: AddressingMode,
    pc: u16,
)
    ensures
        c.spec_execute::<Bus>(s, opcode, addr, mode, pc).1.total_cycles == s.total_cycles,
{
    lemma_access_keeps_cycles();
    let (s1, operand) = c.spec_operand::<Bus>(s, addr, mode);
    lemma_op_keeps_cycles(c, s1, operation_of(opcode), addr, mode, operand);
}

/// A CPU instruction leaves the bus's cycle count to the caller.
#[verifier::spinoff_prover]
#[verifier::rlimit(40)]
proof fn lemma_cpu_step_keeps_cycles(s: BusState)
    ensures
        cpu_stepped(s).0.total_cycles == s.total_cycles,
{
    reveal(cpu_stepped);
    lemma_access_keeps_cycles();
    let c = s.cpu;
    if !c.nmi_pending {
        let pc = c.registers.program_counter;
        let (s1, opcode) = bus_read(s, pc);
        let c1 = Cpu6502 { cycles: 0, ..c }.with_pc(crate::wadd16(pc, 1));
        let (mode, base_cycles, _name) = crate::cpu::decode_table(opcode);
        lemma_address_keeps_cycles(c1, s1, mode);
        let (c2, s2, addr, addr_cycles) = c1.spec_effective_address::<Bus>(s1, mode);
        lemma_execute_keeps_cycles(c2, s2, opcode, addr, mode, pc);
    }
}

/// One bus clock: an OAM DMA cycle (no CPU cycles) or one CPU step, then
/// three PPU dots per CPU cycle, then an NMI request to the CPU on a falling
/// edge of the PPU's NMI line while NMI generation is enabled. Returns the
/// state and the CPU cycles taken.
pub open spec fn bus_clock(s: BusState) -> (BusState, u64) {
    let (s1, cycles) = if s.oam_dma_cycles_remaining > 0 {
        (dma_clocked(s), 0u64)
    } else {
        let (s2, r) = cpu_stepped(s);
        (s2, r as u64)
    };
    let s2 = nmi_delivered(
        BusState { ppu: ppu_dots(s1.ppu, s1.cartridge, (3 * cycles) as nat), ..s1 },
    );
    (BusState { total_cycles: (s1.total_cycles + cycles) as u64, ..s2 }, cycles)
}

/// NMI delivery: on a falling edge of the PPU's NMI line, with NMI
/// generation enabled in PPUCTRL, the CPU gets an NMI request; the line's
/// level is remembered for the next edge.
pub open spec fn nmi_delivered(s: BusState) -> BusState {
    let nmi_now = s.ppu.nmi_line_low;
    BusState {
        cpu: if !nmi_now && s.prev_nmi_line && s.ppu.ctrl & 0x80 != 0 {
            Cpu6502 { nmi_pending: true, ..s.cpu }
        } else {
            s.cpu
        },
        prev_nmi_line: nmi_now,
        ..s
    }
}

/// A PPU whose dot counters are in range can always take a dot, and keeps
/// its counters in range by taking it.
pub proof fn lemma_ppu_dot_keeps_timing(p: PpuState, cart: Option<CartState>)
    requires
        ppu_timing_ok(p),
    ensures
        p.can_step(),
        ppu_timing_ok(p.stepped(cart)),
{
    if 0 <= p.scanline <= 239 {
        let s = p.scanline as int;
        let w = p.frame_width as int;
        assert(s * w <= 239 * w) by (nonlinear_arith)
            requires
                0 <= s <= 239,
                0 <= w,
        ;
    }
}

/// Any number of dots keeps the PPU's counters in range.
pub proof fn lemma_ppu_dots_keep_timing(p: PpuState, cart: Option<CartState>, n: nat)
    requires
        ppu_timing_ok(p),
    ensures
        ppu_timing_ok(ppu_dots(p, cart, n)),
    decreases n,
{
    if n > 0 {
        lemma_ppu_dots_keep_timing(p, cart, (n - 1) as nat);
        lemma_ppu_dot_keeps_timing(ppu_dots(p, cart, (n - 1) as nat), cart);
    }
}

} // verus!

verus! {

/// The bus as `new` builds it: fresh RAM, PPU, CPU and controllers, no cartridge.
pub open spec fn bus_power_on() -> BusState {
    BusState {
        ram: Seq::new(crate::ram::RAM_SIZE as nat, |i: int| 0u8),
        ppu: PpuState::power_on().after_reset(),
        cpu: Cpu6502::new_state(),
        cartridge: None,
        controller1: ControllerState { strobe: false, button_index: 0, button_states: 0 },
        controller2: ControllerState { strobe: false, button_index: 0, button_states: 0 },
        total_cycles: 0,
        prev_nmi_line: true,
        test_mode: false,
        test_pattern_rendered: false,
        oam_dma_cycles_remaining: 0,
        oam_dma_page: 0,
        oam_dma_offset: 0,
        oam_dma_data: 0,
    }
}

/// A system reset: RAM cleared, PPU reset, cycle count and DMA cleared, then
/// the CPU reset, which reads the reset vector through the bus.
pub open spec fn bus_reset(s: BusState) -> BusState {
    let s1 = BusState {
        ram: Seq::new(crate::ram::RAM_SIZE as nat, |i: int| 0u8),
        ppu: s.ppu.after_reset(),
        total_cycles: 0,
        oam_dma_cycles_remaining: 0,
        ..s
    };
    let (c, s2) = s.cpu.spec_reset::<Bus>(s1);
    BusState { cpu: c, ..s2 }
}

impl Bus {
    pub fn new() -> (r: Self)
        ensures
            r@ == bus_power_on(),
            bus_inv(r@),
    {
        let r = Bus {
            cpu_ram: Memory::new(),
            ppu: Ppu::new(),
            cpu: Cpu6502::new(),
            cartridge: None,
            controller1: Controller::new(),
            controller2: Controller::new(),
            total_cycles: 0,
            prev_nmi_line: true,
            test_mode: false,
            test_pattern_rendered: false,
            oam_dma_cycles_remaining: 0,
            oam_dma_page: 0,
            oam_dma_offset: 0,
            oam_dma_data: 0,
        };
        assert(r@ =~= bus_power_on());
        r
    }

    /// Inserts a cartridge and resets the system.
    pub fn insert_cartridge(&mut self, cartridge: Cartridge)
        requires
            bus_inv(old(self)@),
        ensures
            bus_inv(final(self)@),
            final(self)@ == bus_reset(
                BusState { cartridge: slot_state(Some(cartridge)), ..old(self)@ },
            ),
    {
        self.cartridge = Some(cartridge);
        self.reset();
    }

    /// Resets RAM, the PPU, the cycle count and any DMA in flight, then the CPU.
    #[verifier::rlimit(40)]
    pub fn reset(&mut self)
        requires
            bus_inv(old(self)@),
        ensures
            bus_inv(final(self)@),
            final(self)@ == bus_reset(old(self)@),
    {
        let ghost s0 = self@;
        self.cpu_ram = Memory::new();
        self.ppu.reset();
        self.total_cycles = 0;
        self.oam_dma_cycles_remaining = 0;
        let ghost s1 = self@;
        assert(s1 =~= BusState {
            ram: Seq::new(crate::ram::RAM_SIZE as nat, |i: int| 0u8),
            ppu: s0.ppu.after_reset(),
            total_cycles: 0,
            oam_dma_cycles_remaining: 0,
            ..s0
        });
        let mut cpu = self.cpu;
        cpu.reset(self);
        self.cpu = cpu;
    }

    /// Advances the PPU by one dot.
    pub fn step_ppu(&mut self)
        requires
            bus_inv(old(self)@),
        ensures
            bus_inv(final(self)@),
            final(self)@ == (BusState {
                ppu: old(self)@.ppu.stepped(old(self)@.cartridge),
                ..old(self)@
            }),
    {
        proof {
            lemma_ppu_dot_keeps_timing(self.ppu@, self@.cartridge);
        }
        self.ppu.step_cycle(&self.cartridge);
    }

    /// Runs the PPU for three dots per CPU cycle.
    pub(crate) fn clock_ppu(&mut self, cpu_cycles: u64)
        requires
            bus_inv(old(self)@),
            cpu_cycles <= u64::MAX / 3,
        ensures
            bus_inv(final(self)@),
            final(self)@ == (BusState {
                ppu: ppu_dots(old(self)@.ppu, old(self)@.cartridge, (3 * cpu_cycles) as nat),
                ..old(self)@
            }),
    {
        let n = cpu_cycles * 3;
        let ghost s0 = self@;
        let mut i: u64 = 0;
        while i < n
            invariant
                i <= n,
                n == 3 * cpu_cycles,
                bus_inv(s0),
                self@ == (BusState { ppu: ppu_dots(s0.ppu, s0.cartridge, i as nat), ..s0 }),
                bus_inv(self@),
            decreases n - i,
        {
            proof {
                lemma_ppu_dot_keeps_timing(self.ppu@, self@.cartridge);
            }
            self.ppu.step_cycle(&self.cartridge);
            i = i + 1;
        }
    }

    /// One OAM DMA cycle.
    #[verifier::rlimit(40)]
    fn oam_dma_cycle(&mut self)
        requires
            bus_inv(old(self)@),
            old(self).oam_dma_cycles_remaining > 0,
        ensures
            bus_inv(final(self)@),
            final(self)@ == dma_clocked(old(self)@),
            final(self).total_cycles == old(self).total_cycles,
            final(self).oam_dma_cycles_remaining < old(self).oam_dma_cycles_remaining,
    {
        let ghost s0 = self@;
        proof {
            lemma_access_keeps_cycles();
        }
        self.oam_dma_cycles_remaining = self.oam_dma_cycles_remaining - 1;
        if self.oam_dma_cycles_remaining % 2 == 1 {
            let page = self.oam_dma_page;
            let offset = self.oam_dma_offset;
            proof {
                lemma_u16_from_bytes(page as u16, offset as u16);
            }
            let addr = ((page as u16) << 8u16) + offset as u16;
            self.oam_dma_data = self.bus_read(addr);
        } else {
            self.ppu.write_oam_byte(self.oam_dma_offset, self.oam_dma_data);
            self.oam_dma_offset = self.oam_dma_offset.wrapping_add(1);
            if self.oam_dma_offset == 0 {
                self.oam_dma_cycles_remaining = 0;
            }
        }
        assert(self@ =~= dma_clocked(s0));
    }

    /// One CPU instruction executed against this bus.
    pub(crate) fn step_cpu(&mut self) -> (r: u8)
        requires
            bus_inv(old(self)@),
        ensures
            bus_inv(final(self)@),
            (final(self)@, r) == cpu_stepped(old(self)@),
            final(self).total_cycles == old(self).total_cycles,
            2 <= r <= 11,
    {
        proof {
            reveal(cpu_stepped);
            lemma_cpu_step_keeps_cycles(self@);
        }
        let mut cpu = self.cpu;
        let c = cpu.step(self);
        self.cpu = cpu;
        c
    }

    /// One bus clock: an OAM DMA cycle or one CPU instruction, the PPU dots
    /// that go with it, and NMI delivery. Returns the CPU cycles taken.
    #[verifier::rlimit(40)]
    pub fn clock(&mut self) -> (r: u64)
        requires
            bus_inv(old(self)@),
            old(self).total_cycles <= u64::MAX - 11,
        ensures
            bus_inv(final(self)@),
            (final(self)@, r) == bus_clock(old(self)@),
            r <= 11,
            final(self).total_cycles == old(self).total_cycles + r,
            old(self).oam_dma_cycles_remaining == 0 ==> r >= 2,
            old(self).oam_dma_cycles_remaining > 0 ==> r == 0
                && final(self).oam_dma_cycles_remaining < old(self).oam_dma_cycles_remaining,
    {
        let mut cycles_executed: u64 = 0;
        if self.oam_dma_cycles_remaining > 0 {
            self.oam_dma_cycle();
            cycles_executed = 0;
        } else {
            let c = self.step_cpu();
            cycles_executed = c as u64;
        }
        self.clock_ppu(cycles_executed);
        self.deliver_nmi();
        self.total_cycles = self.total_cycles + cycles_executed;
        cycles_executed
    }

    /// Requests an NMI from the CPU on a falling edge of the PPU's NMI line.
    pub(crate) fn deliver_nmi(&mut self)
        ensures
            final(self)@ == nmi_delivered(old(self)@),
    {
        let current_nmi_line = self.ppu.nmi_line_low;
        if !current_nmi_line && self.prev_nmi_line {
            if self.ppu.ctrl.generate_nmi() {
                self.cpu.trigger_nmi();
            }
        }
        self.prev_nmi_line = current_nmi_line;
    }
}

} // verus!

verus! {

/// What `debug_read` shows at `addr` without side effects: RAM, OAMDATA,
/// cartridge PRG space ($FF without a cartridge), and zero elsewhere.
pub open spec fn bus_peek(s: BusState, addr: u16) -> u8 {
    if addr <= 0x1FFF {
        s.ram[(addr & 0x07FF) as int]
    } else if addr <= 0x3FFF {
        if addr & 0x0007 == 4 {
            s.ppu.oam_data[s.ppu.oam_addr as int]
        } else {
            0
        }
    } else if addr >= 0x4020 {
        match s.cartridge {
            Some(c) => cart_read_prg(c, addr),
            None => 0xFF,
        }
    } else {
        0
    }
}

/// A copy of a frame.
fn copy_frame(f: &FrameData) -> (r: FrameData)
    ensures
        r.pixels@ == f.pixels@,
        r.width == f.width,
        r.height == f.height,
{
    let pixels = f.pixels.clone();
    assert(pixels@ =~= f.pixels@);
    FrameData { pixels, width: f.width, height: f.height }
}

impl Bus {
    /// A copy of the PPU's frame buffer.
    pub fn get_ppu_frame(&self) -> (r: FrameData)
        ensures
            r.pixels@ == self.ppu.frame.pixels@,
            r.width == self.ppu.frame.width,
            r.height == self.ppu.frame.height,
    {
        copy_frame(&self.ppu.frame)
    }

    /// A copy of the PPU's frame buffer.
    pub fn get_ppu_frame_direct(&self) -> (r: FrameData)
        ensures
            r.pixels@ == self.ppu.frame.pixels@,
            r.width == self.ppu.frame.width,
            r.height == self.ppu.frame.height,
    {
        copy_frame(&self.ppu.frame)
    }

    /// Replaces the PPU's frame buffer.
    pub fn set_ppu_frame(&mut self, frame: FrameData)
        ensures
            final(self).ppu.frame == frame,
            final(self)@ == (BusState {
                ppu: PpuState {
                    pixels: frame.pixels@,
                    frame_width: frame.width,
                    frame_height: frame.height,
                    ..old(self)@.ppu
                },
                ..old(self)@
            }),
    {
        self.ppu.frame = frame;
    }

    /// A snapshot of the CPU registers.
    pub fn get_cpu_state(&self) -> (r: InspectState)
        ensures
            r.registers == self.cpu.registers,
            r.total_cycles == 0,
    {
        self.cpu.inspect()
    }

    /// Mutable access to the CPU.
    pub fn get_cpu_state_mut(&mut self) -> (r: &mut Cpu6502)
        ensures
            *r == old(self).cpu,
            final(self)@ == (BusState { cpu: *final(r), ..old(self)@ }),
    {
        &mut self.cpu
    }

    /// Mutable access to the CPU.
    pub fn get_cpu(&mut self) -> (r: &mut Cpu6502)
        ensures
            *r == old(self).cpu,
            final(self)@ == (BusState { cpu: *final(r), ..old(self)@ }),
    {
        &mut self.cpu
    }

    /// Mutable access to the PPU.
    pub fn get_ppu(&mut self) -> (r: &mut Ppu)
        ensures
            *r == old(self).ppu,
            final(self)@ == (BusState { ppu: final(r)@, ..old(self)@ }),
    {
        &mut self.ppu
    }

    /// Sets PPUMASK.
    pub fn write_ppu_mask(&mut self, value: u8)
        ensures
            final(self)@ == (BusState { ppu: PpuState { mask: value, ..old(self)@.ppu }, ..old(self)@ }),
    {
        self.ppu.write_mask(value);
    }

    pub fn is_frame_complete(&self) -> (r: bool)
        ensures
            r == self.ppu.frame_complete,
    {
        self.ppu.frame_complete
    }

    pub fn reset_frame_complete(&mut self)
        ensures
            final(self)@ == (BusState {
                ppu: PpuState { frame_complete: false, ..old(self)@.ppu },
                ..old(self)@
            }),
    {
        self.ppu.frame_complete = false;
    }

    /// Reads `addr` for a debugger, without side effects.
    pub fn debug_read(&self, addr: u16) -> (r: u8)
        requires
            self@.ram.len() == crate::ram::RAM_SIZE,
        ensures
            r == bus_peek(self@, addr),
    {
        if addr <= 0x1FFF {
            proof {
                lemma_u16_fields(addr);
            }
            self.cpu_ram.ram[(addr & 0x07FF) as usize]
        } else if addr <= 0x3FFF {
            if addr & 0x0007 == 0x0004 {
                self.ppu.read_oam_data()
            } else {
                0
            }
        } else if addr >= 0x4020 {
            match &self.cartridge {
                Some(cart) => cart.read_prg(addr),
                None => 0xFF,
            }
        } else {
            0
        }
    }

    /// Whether the bus's invariant holds: RAM has its size and the PPU's
    /// dot counters, fine X scroll and frame width are in range.
    pub fn invariant_holds(&self) -> (r: bool)
        ensures
            r == bus_inv(self@),
    {
        let w = self.ppu.frame.width;
        self.cpu_ram.ram.len() == crate::ram::RAM_SIZE && self.ppu.cycle <= 340 && -1
            <= self.ppu.scanline && self.ppu.scanline <= 260 && self.ppu.fine_x_scroll < 8 && w
            <= (usize::MAX - 3 - 255 * 4) / (239 * 4) && (239 * w + 255) * 4 + 3 <= usize::MAX
    }

    /// The bytes at `start_addr` and the `length - 1` addresses after it, as
    /// `debug_read` shows them.
    pub fn debug_memory(&self, start_addr: u16, length: u16) -> (r: Vec<u8>)
        requires
            self@.ram.len() == crate::ram::RAM_SIZE,
            start_addr + length <= 0xFFFF,
        ensures
            r@ == Seq::new(length as nat, |i: int| bus_peek(self@, (start_addr + i) as u16)),
    {
        let mut result: Vec<u8> = Vec::new();
        let end = start_addr + length;
        let mut addr = start_addr;
        while addr < end
            invariant
                start_addr <= addr <= end,
                end == start_addr + length,
                self@.ram.len() == crate::ram::RAM_SIZE,
                result@ == Seq::new(
                    (addr - start_addr) as nat,
                    |i: int| bus_peek(self@, (start_addr + i) as u16),
                ),
            decreases end - addr,
        {
            result.push(self.debug_read(addr));
            addr = addr + 1;
        }
        result
    }

    /// Key events are not routed to the controllers by the bus: nothing changes.
    pub fn handle_key_event(&mut self, key_code: &str, pressed: bool)
        ensures
            *final(self) == *old(self),
    {
    }

    /// Points the CPU at `addr`.
    pub fn set_cpu_pc(&mut self, addr: u16)
        ensures
            final(self)@ == (BusState { cpu: old(self).cpu.with_pc(addr), ..old(self)@ }),
    {
        self.cpu.registers.program_counter = addr;
    }

    pub fn is_brk_detected(&self) -> (r: bool)
        ensures
            r == self.cpu.brk_executed,
    {
        self.cpu.is_brk_executed()
    }

    pub fn is_rom_loaded(&self) -> (r: bool)
        ensures
            r == self.cartridge.is_some(),
    {
        self.cartridge.is_some()
    }

    /// One bus clock; reports whether the PPU has completed a frame.
    pub fn tick(&mut self) -> (r: Option<bool>)
        requires
            bus_inv(old(self)@),
            old(self).total_cycles <= u64::MAX - 11,
        ensures
            bus_inv(final(self)@),
            final(self)@ == bus_clock(old(self)@).0,
            r == Some(final(self)@.ppu.frame_complete),
    {
        self.clock();
        Some(self.ppu.frame_complete)
    }

    /// A CPU read of `addr`, with the side effects of one.
    pub fn mem_read(&mut self, addr: u16) -> (r: u8)
        requires
            bus_inv(old(self)@),
        ensures
            bus_inv(final(self)@),
            (final(self)@, r) == bus_read(old(self)@, addr),
    {
        self.bus_read(addr)
    }
}

} // verus!

verus! {

/// Palette entries 1 to 12 of the test pattern.
pub const TEST_PALETTE: [u8; 12] = [
    0x11, 0x21, 0x31, 0x0F, 0x1F, 0x2F, 0x06, 0x16, 0x26, 0x09, 0x19, 0x29,
];

/// Attribute byte of the test pattern for a group of eight attribute bytes:
/// palettes 0, 1, 2, 3 in turn.
pub open spec fn test_attribute_byte(group: int) -> u8 {
    let g = group % 4;
    if g == 0 {
        0x00
    } else if g == 1 {
        0x55
    } else if g == 2 {
        0xAA
    } else {
        0xFF
    }
}

/// Nametable 0 filled with tiles 0..31 on every row, and its attribute
/// table with a palette per group of eight bytes.
pub open spec fn test_pattern_vram(v: Seq<u8>) -> Seq<u8> {
    Seq::new(
        v.len(),
        |i: int|
            if i < 960 {
                (i % 32) as u8
            } else if i < 1024 {
                test_attribute_byte((i - 960) / 8)
            } else {
                v[i]
            },
    )
}

/// The backdrop colour $0D and the twelve test colours installed.
pub open spec fn test_pattern_palette(p: Seq<u8>) -> Seq<u8> {
    Seq::new(
        p.len(),
        |i: int|
            if i == 0 {
                0x0Du8
            } else if 1 <= i <= 12 {
                TEST_PALETTE@[i - 1]
            } else {
                p[i]
            },
    )
}

/// The bus after `init_test_pattern`.
pub open spec fn with_test_pattern(s: BusState) -> BusState {
    BusState {
        ppu: PpuState {
            vram: test_pattern_vram(s.ppu.vram),
            palette_ram: test_pattern_palette(s.ppu.palette_ram),
            ..s.ppu
        },
        test_pattern_rendered: true,
        ..s
    }
}

/// The palette colour index of pixel (`x`, `y`) of the test frame, drawn
/// from nametable 0, the pattern tables and the attribute table.
pub open spec fn test_frame_color(s: BusState, x: int, y: int) -> u8 {
    let nt_col = x / 8;
    let nt_row = y / 8;
    let tile_id = s.ppu.vram[nt_row * 32 + nt_col];
    let pattern_addr = (tile_id * 16 + y % 8) as u16;
    let lo = bus_ppu_read_vram(s, pattern_addr);
    let hi = bus_ppu_read_vram(s, (pattern_addr + 8) as u16);
    let bit = (7 - x % 8) as u8;
    let entry = (((hi >> bit) & 1) << 1u8) | ((lo >> bit) & 1);
    let attr = s.ppu.vram[0x3C0 + (nt_row / 4) * 8 + nt_col / 4];
    let shift = (((nt_col % 4) / 2) * 2 + ((nt_row % 4) / 2) * 4) as u8;
    let high_bits = (attr >> shift) & 3;
    let palette_addr: u16 = if entry == 0 {
        0x3F00
    } else {
        (0x3F01 + high_bits * 4 + (entry - 1)) as u16
    };
    s.ppu.read_palette(palette_addr)
}

/// Byte `i` of the test frame: each pixel, row by row, takes three bytes
/// that all hold its colour index.
pub open spec fn test_frame_byte(s: BusState, i: int) -> u8 {
    test_frame_color(s, (i / 3) % 256, (i / 3) / 256)
}

/// `f` is the test frame of bus state `s`: 256 by 240 pixels of three bytes
/// each, followed by zeros up to the size of an RGBA frame.
pub open spec fn is_test_frame(f: FrameData, s: BusState) -> bool {
    &&& f.width == 256
    &&& f.height == 240
    &&& f.pixels@.len() == 256 * 240 * 4
    &&& forall|i: int| 0 <= i < 256 * 240 * 3 ==> f.pixels@[i] == test_frame_byte(s, i)
    &&& forall|i: int| 256 * 240 * 3 <= i < 256 * 240 * 4 ==> f.pixels@[i] == 0
}

/// `f` is a copy of the PPU's frame buffer in bus state `s`.
pub open spec fn is_ppu_frame(f: FrameData, s: BusState) -> bool {
    &&& f.pixels@ == s.ppu.pixels
    &&& f.width == s.ppu.frame_width
    &&& f.height == s.ppu.frame_height
}

/// `f` is a black 256 by 240 RGBA frame.
pub open spec fn is_blank_frame(f: FrameData) -> bool {
    &&& f.width == 256
    &&& f.height == 240
    &&& f.pixels@ == Seq::new(256 * 240 * 4, |i: int| 0u8)
}

/// Bytes 3 * (256 * y + x) to 3 * (256 * y + x) + 2 of the test frame
/// belong to pixel (x, y).
proof fn lemma_pixel_byte_position(x: int, y: int, i: int)
    requires
        0 <= x < 256,
        0 <= y < 240,
        y * 768 + x * 3 <= i < y * 768 + x * 3 + 3,
    ensures
        (i / 3) % 256 == x,
        (i / 3) / 256 == y,
{
    assert(i / 3 == y * 256 + x);
}

impl Bus {
    /// Fills nametable 0, its attribute table and the palette with a test pattern.
    #[verifier::rlimit(40)]
    pub fn init_test_pattern(&mut self)
        ensures
            final(self)@ == with_test_pattern(old(self)@),
    {
        let ghost s0 = self@;
        let mut i: usize = 0;
        while i < 960
            invariant
                i <= 960,
                self@ == (BusState { ppu: PpuState { vram: self.ppu.vram@, ..s0.ppu }, ..s0 }),
                forall|j: int| 0 <= j < i ==> self.ppu.vram@[j] == (j % 32) as u8,
                forall|j: int| i <= j < 2048 ==> self.ppu.vram@[j] == s0.ppu.vram[j],
            decreases 960 - i,
        {
            self.ppu.vram[i] = (i % 32) as u8;
            i = i + 1;
        }
        let mut i: usize = 0;
        while i < 64
            invariant
                i <= 64,
                self@ == (BusState { ppu: PpuState { vram: self.ppu.vram@, ..s0.ppu }, ..s0 }),
                forall|j: int| 0 <= j < 960 ==> self.ppu.vram@[j] == (j % 32) as u8,
                forall|j: int|
                    960 <= j < 960 + i ==> self.ppu.vram@[j] == test_attribute_byte((j - 960) / 8),
                forall|j: int| 960 + i <= j < 2048 ==> self.ppu.vram@[j] == s0.ppu.vram[j],
            decreases 64 - i,
        {
            let row_group = i / 8;
            let color_bits: u8 = if row_group % 4 == 0 {
                0b00000000
            } else if row_group % 4 == 1 {
                0b01010101
            } else if row_group % 4 == 2 {
                0b10101010
            } else {
                0b11111111
            };
            self.ppu.vram[0x3C0 + i] = color_bits;
            i = i + 1;
        }
        assert(self.ppu.vram@ =~= test_pattern_vram(s0.ppu.vram));
        let colors: [u8; 12] = TEST_PALETTE;
        let mut i: usize = 0;
        while i < 12
            invariant
                i <= 12,
                colors@ == TEST_PALETTE@,
                self@ == (BusState {
                    ppu: PpuState {
                        vram: test_pattern_vram(s0.ppu.vram),
                        palette_ram: self.ppu.palette_ram@,
                        ..s0.ppu
                    },
                    ..s0
                }),
                forall|j: int| 1 <= j < 1 + i ==> self.ppu.palette_ram@[j] == TEST_PALETTE@[j - 1],
                forall|j: int|
                    0 <= j < 32 && !(1 <= j < 1 + i) ==> self.ppu.palette_ram@[j]
                        == s0.ppu.palette_ram[j],
            decreases 12 - i,
        {
            let c = colors[i];
            assert(c < 0x40);
            proof {
                lemma_u8_fields(c);
            }
            let a = 0x01 + i as u8;
            proof {
                lemma_u8_fields(a);
            }
            self.ppu.write_palette(a, c);
            i = i + 1;
        }
        proof {
            lemma_u8_fields(0x0D);
        }
        proof {
            lemma_u16_fields(0);
        }
        self.ppu.write_palette(0x00, 0x0D);
        assert(self.ppu.palette_ram@ =~= test_pattern_palette(s0.ppu.palette_ram));
        self.test_pattern_rendered = true;
        assert(self@ =~= with_test_pattern(s0));
    }

    /// The colour index of pixel (`x`, `y`) of the test frame.
    fn test_frame_color_at(&self, x: usize, y: usize) -> (r: u8)
        requires
            x < 256,
            y < 240,
        ensures
            r == test_frame_color(self@, x as int, y as int),
    {
        let nt_col = x / 8;
        let nt_row = y / 8;
        let nt_index = nt_row * 32 + nt_col;
        let tile_id = self.ppu.vram[nt_index];
        let pattern_addr = (tile_id as u16) * 16 + (y % 8) as u16;
        let pattern_low = self.ppu_read_vram(pattern_addr);
        let pattern_high = self.ppu_read_vram(pattern_addr + 8);
        let bit_index = (7 - (x % 8)) as u8;
        let color_bit_low = (pattern_low >> bit_index) & 1;
        let color_bit_high = (pattern_high >> bit_index) & 1;
        let palette_entry_index = (color_bit_high << 1u8) | color_bit_low;
        let attr_col = nt_col / 4;
        let attr_row = nt_row / 4;
        let attr_byte_index = 0x3C0 + attr_row * 8 + attr_col;
        let attr_byte = self.ppu.vram[attr_byte_index];
        let quadrant_shift = (((nt_col % 4) / 2) * 2 + ((nt_row % 4) / 2) * 4) as u8;
        let palette_high_bits = (attr_byte >> quadrant_shift) & 0b11;
        proof {
            lemma_u8_fields(attr_byte >> quadrant_shift);
        }
        proof {
            lemma_pixel_bits(pattern_high, pattern_low, bit_index);
        }
        let high4 = (palette_high_bits as u16) << 2u16;
        proof {
            lemma_u16_fields(palette_high_bits as u16);
        }
        let palette_addr: u16 = if palette_entry_index == 0 {
            0x3F00
        } else {
            0x3F01 + high4 + (palette_entry_index as u16 - 1)
        };
        self.read_palette(palette_addr)
    }

    /// A frame drawn from the test pattern (installed first if it is not yet).
    #[verifier::rlimit(40)]
    pub fn get_ppu_test_frame(&mut self) -> (r: Result<FrameData, String>)
        ensures
            final(self)@ == (if old(self).test_pattern_rendered {
                old(self)@
            } else {
                with_test_pattern(old(self)@)
            }),
            r is Ok,
            is_test_frame(r->Ok_0, final(self)@),
    {
        if !self.test_pattern_rendered {
            self.init_test_pattern();
        }
        let ghost s1 = self@;
        let mut frame = FrameData::new(256, 240);
        let mut y: usize = 0;
        while y < 240
            invariant
                y <= 240,
                self@ == s1,
                frame.width == 256,
                frame.height == 240,
                frame.pixels@.len() == 256 * 240 * 4,
                forall|i: int| 0 <= i < y * 768 ==> frame.pixels@[i] == test_frame_byte(s1, i),
                forall|i: int| y * 768 <= i < 256 * 240 * 4 ==> frame.pixels@[i] == 0,
            decreases 240 - y,
        {
            let mut x: usize = 0;
            while x < 256
                invariant
                    x <= 256,
                    y < 240,
                    self@ == s1,
                    frame.width == 256,
                    frame.height == 240,
                    frame.pixels@.len() == 256 * 240 * 4,
                    forall|i: int|
                        0 <= i < y * 768 + x * 3 ==> frame.pixels@[i] == test_frame_byte(s1, i),
                    forall|i: int|
                        y * 768 + x * 3 <= i < 256 * 240 * 4 ==> frame.pixels@[i] == 0,
                decreases 256 - x,
            {
                let c = self.test_frame_color_at(x, y);
                let pixel_index = y * 256 + x;
                let base_pixel_idx = pixel_index * 3;
                if base_pixel_idx + 2 < frame.pixels.len() {
                    frame.pixels.set(base_pixel_idx, c);
                    frame.pixels.set(base_pixel_idx + 1, c);
                    frame.pixels.set(base_pixel_idx + 2, c);
                }
                assert forall|i: int|
                    0 <= i < y * 768 + (x + 1) * 3 implies frame.pixels@[i] == test_frame_byte(
                    s1,
                    i,
                ) by {
                    if i >= y * 768 + x * 3 {
                        lemma_pixel_byte_position(x as int, y as int, i);
                    }
                }
                x = x + 1;
            }
            y = y + 1;
        }
        Ok(frame)
    }
}

} // verus!

verus! {

impl Bus {
    /// Enters test mode (the test pattern is drawn afresh) or leaves it,
    /// which resets the system.
    #[verifier::rlimit(40)]
    pub fn toggle_test_mode(&mut self)
        requires
            bus_inv(old(self)@),
        ensures
            bus_inv(final(self)@),
            final(self)@ == (if !old(self).test_mode {
                BusState { test_mode: true, test_pattern_rendered: false, ..old(self)@ }
            } else {
                bus_reset(BusState { test_mode: false, ..old(self)@ })
            }),
    {
        self.test_mode = !self.test_mode;
        if self.test_mode {
            self.test_pattern_rendered = false;
        } else {
            self.reset();
        }
    }
}

} // verus!

verus! {

/// After `n` dots the PPU stands `n` positions further on, counted modulo
/// the dots of one frame: each scanline has 341 dots and a frame has
/// scanlines -1 to 260.
#[verifier::rlimit(40)]
pub proof fn lemma_ppu_dots_position(p: PpuState, cart: Option<CartState>, n: nat)
    requires
        ppu_timing_ok(p),
    ensures
        dot_position(ppu_dots(p, cart, n)) == (dot_position(p) + n) % dots_per_frame(),
    decreases n,
{
    if n == 0 {
        assert(0 <= dot_position(p) < dots_per_frame());
    } else {
        let q = ppu_dots(p, cart, (n - 1) as nat);
        lemma_ppu_dots_position(p, cart, (n - 1) as nat);
        lemma_ppu_dots_keep_timing(p, cart, (n - 1) as nat);
        lemma_ppu_dot_keeps_timing(q, cart);
        lemma_dot_advance(q, cart);
        vstd::arithmetic::div_mod::lemma_add_mod_noop(
            dot_position(p) + n - 1,
            1,
            dots_per_frame(),
        );
        assert(1int % dots_per_frame() == 1);
    }
}

/// A whole frame of dots brings the PPU back to the dot where it started.
#[verifier::spinoff_prover]
#[verifier::rlimit(40)]
pub proof fn lemma_frame_of_dots(p: PpuState, cart: Option<CartState>)
    requires
        ppu_timing_ok(p),
    ensures
        ppu_dots(p, cart, dots_per_frame() as nat).cycle == p.cycle,
        ppu_dots(p, cart, dots_per_frame() as nat).scanline == p.scanline,
{
    let n = dots_per_frame() as nat;
    let q = ppu_dots(p, cart, n);
    lemma_ppu_dots_position(p, cart, n);
    lemma_ppu_dots_keep_timing(p, cart, n);
    let b = dot_position(p);
    let m = dots_per_frame();
    assert(0 <= b < m);
    vstd::arithmetic::div_mod::lemma_mod_add_multiples_vanish(b, m);
    vstd::arithmetic::div_mod::lemma_small_mod(b as nat, m as nat);
    assert(dot_position(q) == b);
    assert(q.cycle <= 340 && -1 <= q.scanline <= 260);
}

/// CPU RAM is 2 KiB mirrored through $0000-$1FFF: a read gives back the
/// last byte written to any of the mirrors of its address, and a write
/// leaves the other cells alone.
pub proof fn lemma_ram_mirroring(s: BusState, a: u16, b: u16, d: u8)
    requires
        bus_inv(s),
        a <= 0x1FFF,
        b <= 0x1FFF,
    ensures
        a & 0x07FF == b & 0x07FF ==> bus_read(bus_write(s, a, d), b).1 == d,
        a & 0x07FF != b & 0x07FF ==> bus_read(bus_write(s, a, d), b).1 == bus_read(s, b).1,
        bus_inv(bus_write(s, a, d)),
{
    lemma_u16_fields(a);
    lemma_u16_fields(b);
}

/// What the PPU reads back of a nametable or palette write: the byte
/// written, at every address that shares its cell (through the nametable
/// mirroring or the palette mirrors); other cells keep their contents.
#[verifier::rlimit(40)]
pub proof fn lemma_vram_read_after_write(s: BusState, a: u16, b: u16, d: u8)
    requires
        0x2000 <= a <= 0x3FFF,
        0x2000 <= b <= 0x3FFF,
        s.ppu.vram.len() == 2048,
        s.ppu.palette_ram.len() == 32,
        bus_mirroring(s) != Mirroring::FourScreen,
    ensures
        a <= 0x3EFF && b <= 0x3EFF && mirror_nametable(a, bus_mirroring(s)) == mirror_nametable(
            b,
            bus_mirroring(s),
        ) ==> bus_ppu_read_vram(bus_ppu_write_vram(s, a, d), b) == d,
        a >= 0x3F00 && b >= 0x3F00 && palette_index(a) == palette_index(b) ==> bus_ppu_read_vram(
            bus_ppu_write_vram(s, a, d),
            b,
        ) == d,
        !(a <= 0x3EFF && b <= 0x3EFF && mirror_nametable(a, bus_mirroring(s)) == mirror_nametable(
            b,
            bus_mirroring(s),
        )) && !(a >= 0x3F00 && b >= 0x3F00 && palette_index(a) == palette_index(b))
            ==> bus_ppu_read_vram(bus_ppu_write_vram(s, a, d), b) == bus_ppu_read_vram(s, b),
{
    lemma_u16_fields(a);
    lemma_u16_fields(b);
    crate::ppu::lemma_palette_mirrors(a);
    crate::ppu::lemma_palette_mirrors(b);
    let m = bus_mirroring(s);
    if a <= 0x3EFF {
        lemma_nametable_in_ram(a, m);
    }
    if b <= 0x3EFF {
        lemma_nametable_in_ram(b, m);
    }
    if a >= 0x3F00 {
        assert(bus_palette_index(a) == palette_index(a)) by {
            lemma_u16_fields(a);
        }
    }
}

/// Nametable addresses map into the PPU's 2 KiB of nametable RAM unless
/// the cartridge asks for four screens.
proof fn lemma_nametable_in_ram(a: u16, m: Mirroring)
    requires
        0x2000 <= a <= 0x3EFF,
        m != Mirroring::FourScreen,
    ensures
        0 <= mirror_nametable(a, m) < 2048,
{
    lemma_u16_fields(a);
}

/// A byte pushed on the stack is what the next pull returns, and the pull
/// restores the stack pointer: the CPU ends as it started.
pub proof fn lemma_stack_push_pull(c: Cpu6502, s: BusState, v: u8)
    requires
        bus_inv(s),
    ensures
        ({
            let (c1, s1) = c.spec_push::<Bus>(s, v);
            let (c2, s2, r) = c1.spec_pull::<Bus>(s1);
            &&& r == v
            &&& c2 == c
            &&& s2 == s1
        }),
{
    let sp = c.registers.stack_pointer;
    let a = (0x0100 + sp) as u16;
    lemma_u16_fields(a);
    assert(crate::wadd8(crate::wsub8(sp, 1), 1) == sp);
}

} // verus!

verus! {

/// `n` bus clocks spent on OAM DMA.
pub open spec fn dma_clocks(s: BusState, n: nat) -> BusState
    decreases n,
{
    if n == 0 {
        s
    } else {
        dma_clocked(dma_clocks(s, (n - 1) as nat))
    }
}

/// Pages OAM DMA reads without side effects and without reading OAM itself:
/// CPU RAM ($00-$1F) and cartridge space ($41-$FF).
pub open spec fn dma_plain_page(page: u8) -> bool {
    page < 0x20 || page > 0x40
}

/// Byte `i` of CPU page `page` as the bus reads it in state `s`.
pub open spec fn dma_source_byte(s: BusState, page: u8, i: int) -> u8 {
    bus_read(s, (page * 256 + i) as u16).1
}

/// Clocks a transfer takes after the write to $4014 that starts it: 512
/// (a read and a store for each byte) when it starts on an odd cycle, 511
/// when it starts on an even one, whose first clock stores the latch and
/// whose byte 0 is therefore never read.
pub open spec fn dma_length(total_cycles: u64) -> nat {
    if total_cycles % 2 == 1 {
        512
    } else {
        511
    }
}

/// The first byte a transfer reads: 0 after an odd start, 1 after an even one.
pub open spec fn dma_first_read(total_cycles: u64) -> int {
    if total_cycles % 2 == 1 {
        0
    } else {
        1
    }
}

/// The number of clocks after which a transfer reads byte `i` (for `i` at
/// least its first read).
pub open spec fn dma_read_clock(total_cycles: u64, i: int) -> nat {
    (2 * i - dma_first_read(total_cycles)) as nat
}

/// DMA clocks leave RAM, the cartridge, the CPU and the cycle count alone.
proof fn lemma_dma_clocks_keep(s1: BusState, m: nat)
    ensures
        dma_clocks(s1, m).ram == s1.ram,
        dma_clocks(s1, m).cartridge == s1.cartridge,
        dma_clocks(s1, m).cpu == s1.cpu,
        dma_clocks(s1, m).total_cycles == s1.total_cycles,
    decreases m,
{
    if m > 0 {
        lemma_dma_clocks_keep(s1, (m - 1) as nat);
        lemma_access_keeps_cycles();
    }
}

/// After `k` bytes of a transfer from `page` started from state `s` (the
/// state after the trigger is `s1`) have been stored.
spec fn dma_progress(t: BusState, s: BusState, s1: BusState, page: u8, k: int) -> bool {
    let e = dma_first_read(s.total_cycles);
    &&& e <= k < 256
    &&& t == dma_clocks(s1, (2 * k - e) as nat)
    &&& t.oam_dma_page == page
    &&& t.oam_dma_offset == k
    &&& t.oam_dma_cycles_remaining == 514 - 2 * k
    &&& t.ppu.oam_data.len() == 256
    &&& e == 1 ==> t.ppu.oam_data[0] == s.oam_dma_data
    &&& forall|j: int|
        e <= j < k ==> t.ppu.oam_data[j] == bus_read(
            dma_clocks(s1, dma_read_clock(s.total_cycles, j)),
            (page * 256 + j) as u16,
        ).1
}

/// One read and one store of the transfer move byte `k` into OAM.
#[verifier::rlimit(60)]
proof fn lemma_dma_pair(t: BusState, s: BusState, s1: BusState, page: u8, k: int)
    requires
        dma_progress(t, s, s1, page, k),
    ensures
        dma_clocked(t).oam_dma_cycles_remaining > 0,
        dma_clocks(s1, (2 * k - dma_first_read(s.total_cycles) + 1) as nat) == dma_clocked(t),
        dma_clocks(s1, (2 * k - dma_first_read(s.total_cycles) + 2) as nat) == dma_clocked(
            dma_clocked(t),
        ),
        k < 255 ==> dma_progress(dma_clocked(dma_clocked(t)), s, s1, page, k + 1),
        k == 255 ==> ({
            let u = dma_clocked(dma_clocked(t));
            let e = dma_first_read(s.total_cycles);
            &&& u.oam_dma_cycles_remaining == 0
            &&& e == 1 ==> u.ppu.oam_data[0] == s.oam_dma_data
            &&& forall|j: int|
                e <= j < 256 ==> u.ppu.oam_data[j] == bus_read(
                    dma_clocks(s1, dma_read_clock(s.total_cycles, j)),
                    (page * 256 + j) as u16,
                ).1
        }),
{
    let e = dma_first_read(s.total_cycles);
    let c = (2 * k - e) as nat;
    assert(dma_clocks(s1, c + 1) == dma_clocked(dma_clocks(s1, c)));
    assert(dma_clocks(s1, c + 2) == dma_clocked(dma_clocks(s1, c + 1)));
    let a = (page * 256 + k) as u16;
    let t1 = dma_clocked(t);
    assert(bus_read(BusState { oam_dma_cycles_remaining: (t.oam_dma_cycles_remaining - 1) as usize, ..t }, a).1
        == bus_read(t, a).1);
    assert(dma_read_clock(s.total_cycles, k) == c);
    assert(t1.oam_dma_data == bus_read(t, a).1);
    assert(t1.oam_dma_offset == k && t1.oam_dma_cycles_remaining == 513 - 2 * k);
    let t2 = dma_clocked(t1);
    assert(t2.ppu.oam_data =~= t1.ppu.oam_data.update(k, bus_read(t, a).1));
    assert(forall|j: int| e <= j < k ==> t1.ppu.oam_data[j] == t.ppu.oam_data[j]);
}

/// Where a transfer stands once `k` bytes have been stored.
#[verifier::rlimit(60)]
proof fn lemma_dma_progress(s: BusState, page: u8, k: int)
    requires
        s.ppu.oam_data.len() == 256,
        dma_first_read(s.total_cycles) <= k < 256,
    ensures
        dma_progress(
            dma_clocks(bus_write(s, 0x4014, page), (2 * k - dma_first_read(s.total_cycles)) as nat),
            s,
            bus_write(s, 0x4014, page),
            page,
            k,
        ),
    decreases k,
{
    let s1 = bus_write(s, 0x4014, page);
    let e = dma_first_read(s.total_cycles);
    if k == e {
        assert(dma_clocks(s1, 0) == s1);
        if e == 1 {
            assert(dma_clocks(s1, 1) == dma_clocked(s1));
        }
    } else {
        lemma_dma_progress(s, page, k - 1);
        let t = dma_clocks(s1, (2 * (k - 1) - e) as nat);
        lemma_dma_pair(t, s, s1, page, k - 1);
    }
}

/// The transfer is still running before its last clock.
proof fn lemma_dma_running(s: BusState, page: u8, m: nat)
    requires
        s.ppu.oam_data.len() == 256,
        m < dma_length(s.total_cycles),
    ensures
        dma_clocks(bus_write(s, 0x4014, page), m).oam_dma_cycles_remaining > 0,
{
    let s1 = bus_write(s, 0x4014, page);
    let e = dma_first_read(s.total_cycles);
    if m == 0 {
        assert(dma_clocks(s1, 0) == s1);
    } else {
        let k = ((m + e) / 2) as int;
        lemma_dma_progress(s, page, k);
        let t = dma_clocks(s1, (2 * k - e) as nat);
        lemma_dma_pair(t, s, s1, page, k);
    }
}

/// OAM DMA, from any page: the write to $4014 itself changes neither RAM,
/// the PPU nor the CPU; the transfer then runs for 512 clocks after a start
/// on an odd cycle and 511 after a start on an even one, and ends. Each OAM
/// byte it reaches holds what the bus returned when the transfer read the
/// byte's address; after an even start, whose first clock stores the DMA
/// latch before anything is read, OAM byte 0 holds the latch's earlier
/// value. RAM, the cartridge, the CPU and the cycle count stay as they were.
#[verifier::rlimit(40)]
pub proof fn lemma_oam_dma_transfer(s: BusState, page: u8)
    requires
        s.ppu.oam_data.len() == 256,
    ensures
        ({
            let s1 = bus_write(s, 0x4014, page);
            let n = dma_length(s.total_cycles);
            let t = dma_clocks(s1, n);
            let e = dma_first_read(s.total_cycles);
            &&& s1.ram == s.ram && s1.ppu == s.ppu && s1.cpu == s.cpu
            &&& forall|m: nat| m < n ==> #[trigger] dma_clocks(s1, m).oam_dma_cycles_remaining > 0
            &&& t.oam_dma_cycles_remaining == 0
            &&& t.ram == s.ram
            &&& t.cartridge == s.cartridge
            &&& t.cpu == s.cpu
            &&& t.total_cycles == s.total_cycles
            &&& e == 1 ==> t.ppu.oam_data[0] == s.oam_dma_data
            &&& forall|i: int|
                e <= i < 256 ==> t.ppu.oam_data[i] == bus_read(
                    dma_clocks(s1, dma_read_clock(s.total_cycles, i)),
                    (page * 256 + i) as u16,
                ).1
        }),
{
    let s1 = bus_write(s, 0x4014, page);
    let e = dma_first_read(s.total_cycles);
    assert forall|m: nat| m < dma_length(s.total_cycles) implies #[trigger] dma_clocks(
        s1,
        m,
    ).oam_dma_cycles_remaining > 0 by {
        lemma_dma_running(s, page, m);
    }
    lemma_dma_progress(s, page, 255);
    let t = dma_clocks(s1, (510 - e) as nat);
    lemma_dma_pair(t, s, s1, page, 255);
    lemma_dma_clocks_keep(s1, dma_length(s.total_cycles));
}

/// OAM DMA from a RAM or cartridge page copies the page into OAM: every
/// byte the transfer reads is the page's byte as it was when the transfer
/// started (byte 0 too after an odd start; after an even start OAM byte 0
/// holds the DMA latch's earlier value).
pub proof fn lemma_oam_dma_copies_page(s: BusState, page: u8)
    requires
        bus_inv(s),
        dma_plain_page(page),
        s.ppu.oam_data.len() == 256,
    ensures
        ({
            let t = dma_clocks(bus_write(s, 0x4014, page), dma_length(s.total_cycles));
            let e = dma_first_read(s.total_cycles);
            &&& t.oam_dma_cycles_remaining == 0
            &&& e == 1 ==> t.ppu.oam_data[0] == s.oam_dma_data
            &&& forall|i: int|
                e <= i < 256 ==> t.ppu.oam_data[i] == dma_source_byte(s, page, i)
        }),
{
    let s1 = bus_write(s, 0x4014, page);
    lemma_oam_dma_transfer(s, page);
    let t = dma_clocks(s1, dma_length(s.total_cycles));
    assert forall|i: int|
        dma_first_read(s.total_cycles) <= i < 256 implies t.ppu.oam_data[i] == dma_source_byte(
        s,
        page,
        i,
    ) by {
        let u = dma_clocks(s1, dma_read_clock(s.total_cycles, i));
        lemma_dma_clocks_keep(s1, dma_read_clock(s.total_cycles, i));
        lemma_plain_page_read(u, s, page, i);
    }
}

/// Reading a plain page depends only on RAM and the cartridge, and changes nothing.
proof fn lemma_plain_page_read(t: BusState, s: BusState, page: u8, i: int)
    requires
        dma_plain_page(page),
        0 <= i < 256,
        t.ram == s.ram,
        t.cartridge == s.cartridge,
        s.ram.len() == 2048,
    ensures
        bus_read(t, (page * 256 + i) as u16) == (t, dma_source_byte(s, page, i)),
{
    let a = (page * 256 + i) as u16;
    lemma_u16_fields(a);
}

/// A bus clock during OAM DMA runs no CPU cycle: it is one DMA clock and NMI
/// delivery, returns 0, and leaves the registers and the cycle count alone.
pub proof fn lemma_clock_during_dma(s: BusState)
    requires
        s.oam_dma_cycles_remaining > 0,
    ensures
        bus_clock(s).1 == 0,
        bus_clock(s).0 == nmi_delivered(dma_clocked(s)),
        bus_clock(s).0.cpu.registers == s.cpu.registers,
        bus_clock(s).0.total_cycles == s.total_cycles,
{
    lemma_access_keeps_cycles();
    let s1 = dma_clocked(s);
    assert(ppu_dots(s1.ppu, s1.cartridge, 0) == s1.ppu);
    assert(BusState { ppu: s1.ppu, ..s1 } == s1);
    assert(s1.cpu == s.cpu);
}

/// NMI delivery after a clock reacts to the falling edge of the PPU's NMI
/// line (the line is low while the PPU's `nmi_line_low` flag is false, high
/// while it is true; `prev_nmi_line` holds its level after the previous
/// clock). When the line was high and is now low, with NMI generation on in
/// PPUCTRL, the CPU gets an NMI request. On a rising edge, on a line that
/// stays where it was, or with NMI generation off, the CPU is left exactly as
/// it was. Either way the line's new level is remembered and nothing else
/// changes.
pub proof fn lemma_nmi_on_falling_edge(s: BusState)
    ensures
        ({
            let was_high = s.prev_nmi_line;
            let is_low = !s.ppu.nmi_line_low;
            let t = nmi_delivered(s);
            &&& was_high && is_low && s.ppu.ctrl & 0x80 != 0 ==> t.cpu.nmi_pending
                && t.cpu.registers == s.cpu.registers
            &&& !was_high ==> t.cpu == s.cpu
            &&& !is_low ==> t.cpu == s.cpu
            &&& s.ppu.ctrl & 0x80 == 0 ==> t.cpu == s.cpu
            &&& t.prev_nmi_line == s.ppu.nmi_line_low
            &&& t.ppu == s.ppu && t.ram == s.ram && t.total_cycles == s.total_cycles
        }),
{
}

/// `n` calls of `clock`.
pub open spec fn bus_clocks(s: BusState, n: nat) -> BusState
    decreases n,
{
    if n == 0 {
        s
    } else {
        bus_clock(bus_clocks(s, (n - 1) as nat)).0
    }
}

/// A DMA clock neither reads nor changes the CPU or the remembered NMI line.
proof fn lemma_dma_clocked_ignores_cpu(d: BusState, c: Cpu6502, f: bool)
    requires
        d.oam_dma_cycles_remaining > 0,
    ensures
        dma_clocked((BusState { cpu: c, prev_nmi_line: f, ..d })) == (BusState {
            cpu: c,
            prev_nmi_line: f,
            ..dma_clocked(d)
        }),
{
    let b = BusState { cpu: c, prev_nmi_line: f, ..d };
    let addr = (d.oam_dma_page * 256 + d.oam_dma_offset) as u16;
    let rem = (d.oam_dma_cycles_remaining - 1) as usize;
    let b0 = BusState { oam_dma_cycles_remaining: rem, ..b };
    let d0 = BusState { oam_dma_cycles_remaining: rem, ..d };
    assert(bus_read(b0, addr).1 == bus_read(d0, addr).1);
    assert(bus_read(b0, addr).0 == BusState { cpu: c, prev_nmi_line: f, ..bus_read(d0, addr).0 });
}

/// While DMA runs, `clock` follows the DMA clocks: the state after `m`
/// calls is the state after `m` DMA clocks but for the CPU's NMI request
/// and the remembered NMI line.
proof fn lemma_bus_clocks_follow_dma(s1: BusState, m: nat)
    requires
        forall|j: nat| j < m ==> #[trigger] dma_clocks(s1, j).oam_dma_cycles_remaining > 0,
    ensures
        bus_clocks(s1, m) == (BusState {
            cpu: bus_clocks(s1, m).cpu,
            prev_nmi_line: bus_clocks(s1, m).prev_nmi_line,
            ..dma_clocks(s1, m)
        }),
        bus_clocks(s1, m).cpu == (Cpu6502 {
            nmi_pending: bus_clocks(s1, m).cpu.nmi_pending,
            ..s1.cpu
        }),
    decreases m,
{
    if m > 0 {
        let k = (m - 1) as nat;
        lemma_bus_clocks_follow_dma(s1, k);
        let b = bus_clocks(s1, k);
        let d = dma_clocks(s1, k);
        assert(d.oam_dma_cycles_remaining > 0);
        lemma_dma_clocked_ignores_cpu(d, b.cpu, b.prev_nmi_line);
        lemma_clock_during_dma(b);
        assert(bus_clocks(s1, m) == bus_clock(b).0);
        assert(dma_clocks(s1, m) == dma_clocked(d));
    }
}

/// OAM DMA as `clock` sees it, from any page: after the write to $4014,
/// each of the next 512 calls (511 after a start on an even cycle) returns
/// 0 and leaves the CPU registers and the cycle count alone; then the
/// transfer has ended, OAM holds what the transfer stored, and the next
/// call runs a CPU step again.
pub proof fn lemma_oam_dma_clock_calls(s: BusState, page: u8)
    requires
        s.ppu.oam_data.len() == 256,
    ensures
        ({
            let s1 = bus_write(s, 0x4014, page);
            let n = dma_length(s.total_cycles);
            let b = bus_clocks(s1, n);
            &&& forall|m: nat|
                m < n ==> bus_clock(#[trigger] bus_clocks(s1, m)).1 == 0
                    && bus_clocks(s1, m).cpu.registers == s.cpu.registers
                    && bus_clocks(s1, m).total_cycles == s.total_cycles
            &&& b.oam_dma_cycles_remaining == 0
            &&& b.cpu.registers == s.cpu.registers
            &&& b.total_cycles == s.total_cycles
            &&& b.ppu.oam_data == dma_clocks(s1, n).ppu.oam_data
            &&& b.ram == s.ram
            &&& bus_clock(b).1 == cpu_stepped(b).1
        }),
{
    let s1 = bus_write(s, 0x4014, page);
    let n = dma_length(s.total_cycles);
    lemma_oam_dma_transfer(s, page);
    assert forall|m: nat| m < n implies bus_clock(#[trigger] bus_clocks(s1, m)).1 == 0
        && bus_clocks(s1, m).cpu.registers == s.cpu.registers
        && bus_clocks(s1, m).total_cycles == s.total_cycles by {
        assert forall|j: nat| j < m implies #[trigger] dma_clocks(s1, j).oam_dma_cycles_remaining
            > 0 by {
            assert(dma_clocks(s1, j).oam_dma_cycles_remaining > 0);
        }
        lemma_bus_clocks_follow_dma(s1, m);
        lemma_dma_clocks_keep(s1, m);
        assert(dma_clocks(s1, m).oam_dma_cycles_remaining > 0);
        lemma_clock_during_dma(bus_clocks(s1, m));
    }
    lemma_bus_clocks_follow_dma(s1, n);
    lemma_dma_clocks_keep(s1, n);
}

/// The JSR half of the round trip: the return address minus one is pushed,
/// high byte first, and execution moves to the target. Where the target
/// address is a PPU status or data register, the read of it also runs that
/// register's read side effects, which touch the PPU alone.
#[verifier::rlimit(60)]
proof fn lemma_jsr_effect(c: Cpu6502, s: BusState, p: u16, t: u16)
    requires
        bus_inv(s),
    ensures
        ({
            let ret = crate::wsub16(c.registers.program_counter, 1);
            let (s0, v0) = bus_read(s, t);
            let (ca, sa) = c.spec_push::<Bus>(s0, (ret >> 8u16) as u8);
            let (cb, sb) = ca.spec_push::<Bus>(sa, ret as u8);
            let r = c.spec_execute::<Bus>(s, 0x20, t, AddressingMode::Absolute, p);
            &&& r.0 == cb.with_pc(t)
            &&& r.1 == BusState { ppu: r.1.ppu, ..sb }
            &&& r.2 == 0
        }),
{
    assert(operation_of(0x20) == Operation::Jsr);
}

/// The RTS half: two pulls, low byte first, and execution resumes one past
/// the address they spell.
#[verifier::rlimit(60)]
proof fn lemma_rts_effect(c: Cpu6502, s: BusState, t: u16)
    ensures
        ({
            let (ca, sa, lo) = c.spec_pull::<Bus>(s);
            let (cb, sb, hi) = ca.spec_pull::<Bus>(sa);
            c.spec_execute::<Bus>(s, 0x60, 0, AddressingMode::Implied, t) == (
                cb.with_pc(crate::wadd16((hi * 256 + lo) as u16, 1)),
                sb,
                0u8,
            )
        }),
{
    assert(operation_of(0x60) == Operation::Rts);
}

/// JSR followed by RTS returns to the instruction after the JSR with every
/// register as it was; in RAM only the two return-address bytes that JSR
/// pushed onto the stack have changed.
#[verifier::rlimit(60)]
pub proof fn lemma_jsr_rts_roundtrip(c: Cpu6502, s: BusState, p: u16, t: u16)
    requires
        bus_inv(s),
        c.registers.program_counter == crate::wadd16(p, 3),
    ensures
        ({
            let (c1, s1, x1) = c.spec_execute::<Bus>(s, 0x20, t, AddressingMode::Absolute, p);
            let (c2, s2, x2) = c1.spec_execute::<Bus>(s1, 0x60, 0, AddressingMode::Implied, t);
            let sp = c.registers.stack_pointer;
            let ret = crate::wadd16(p, 2);
            &&& x1 == 0 && x2 == 0
            &&& c1.registers.program_counter == t
            &&& c2.registers == c.registers
            &&& s2.ram == s.ram.update(0x100 + sp, (ret / 256) as u8).update(
                0x100 + crate::wsub8(sp, 1),
                (ret % 256) as u8,
            )
        }),
{
    let sp = c.registers.stack_pointer;
    let ret = crate::wsub16(c.registers.program_counter, 1);
    assert(ret == crate::wadd16(p, 2));
    lemma_u16_fields(ret);
    let (s0, v0) = bus_read(s, t);
    assert(s0.ram == s.ram && bus_inv(s0));
    lemma_jsr_effect(c, s, p, t);
    let (ca, sa) = c.spec_push::<Bus>(s0, (ret >> 8u16) as u8);
    let (cb, sb) = ca.spec_push::<Bus>(sa, ret as u8);
    let a1 = (0x0100 + sp) as u16;
    let sp2 = crate::wsub8(sp, 1);
    let a2 = (0x0100 + sp2) as u16;
    lemma_u16_fields(a1);
    lemma_u16_fields(a2);
    assert(sa.ram == s.ram.update(0x100 + sp, (ret / 256) as u8));
    assert(sb.ram == sa.ram.update(0x100 + sp2, (ret % 256) as u8));
    let c1 = cb.with_pc(t);
    let s1 = c.spec_execute::<Bus>(s, 0x20, t, AddressingMode::Absolute, p).1;
    assert(s1.ram == sb.ram);
    lemma_rts_effect(c1, s1, t);
    let (cx, sx, lo) = c1.spec_pull::<Bus>(s1);
    let (cy, sy, hi) = cx.spec_pull::<Bus>(sx);
    assert(crate::wadd8(sp2, 1) == sp2 + 1 || sp2 == 255);
    assert(lo == (ret % 256) as u8);
    assert(sx == s1);
    assert(hi == (ret / 256) as u8);
    assert(sy == s1);
    assert((hi * 256 + lo) as u16 == ret);
}

} // verus!
