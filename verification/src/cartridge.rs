//! Cartridges and their memory mappers.
use vstd::prelude::*;
use crate::text::{decimal_text, push_decimal};
use crate::{Mirroring, lemma_mirroring_flags_roundtrip, mirroring_flags, mirroring_from_flags};

verus! {

/// The operations a memory mapper offers to the CPU and PPU buses.
pub trait Mapper: Send + Sync {
    fn read_prg(&self, addr: u16) -> u8;

    fn write_prg(&mut self, addr: u16, data: u8);

    fn read_chr(&self, addr: u16) -> u8;

    fn write_chr(&mut self, addr: u16, data: u8);

    fn mirroring(&self) -> Mirroring;
}

/// Size of the CHR RAM that a cartridge without CHR ROM gets.
pub const CHR_RAM_SIZE: usize = 8192;

/// The observable state of a cartridge.
pub struct CartState {
    pub mapper_id: u8,
    pub prg_banks: u8,
    pub chr_banks: u8,
    pub prg_rom: Seq<u8>,
    pub chr_rom: Seq<u8>,
    pub chr_ram: Seq<u8>,
    pub mirroring: Mirroring,
}

/// Index into PRG ROM of CPU address `addr` (at or above $8000): NROM-128
/// mirrors its single 16 KiB bank, NROM-256 maps 32 KiB directly.
pub open spec fn prg_index(prg_banks: u8, addr: u16) -> int {
    if prg_banks == 1 {
        (addr & 0x3FFF) as int
    } else {
        (addr & 0x7FFF) as int
    }
}

/// The byte a CPU read of `addr` gives from the cartridge.
pub open spec fn cart_read_prg(c: CartState, addr: u16) -> u8 {
    if addr < 0x8000 {
        0
    } else if prg_index(c.prg_banks, addr) < c.prg_rom.len() {
        c.prg_rom[prg_index(c.prg_banks, addr)]
    } else {
        0xFF
    }
}

/// The byte a PPU read of pattern memory at `addr` gives: CHR RAM when the
/// cartridge has no CHR ROM banks, CHR ROM otherwise, 0 out of range.
pub open spec fn cart_read_chr(c: CartState, addr: u16) -> u8 {
    let i = (addr & 0x1FFF) as int;
    if c.chr_banks == 0 {
        if i < c.chr_ram.len() {
            c.chr_ram[i]
        } else {
            0
        }
    } else {
        if i < c.chr_rom.len() {
            c.chr_rom[i]
        } else {
            0
        }
    }
}

/// The cartridge after a PPU write of `data` to pattern memory at `addr`:
/// only CHR RAM is writable.
pub open spec fn cart_write_chr(c: CartState, addr: u16, data: u8) -> CartState {
    let i = (addr & 0x1FFF) as int;
    if c.chr_banks == 0 && i < c.chr_ram.len() {
        CartState { chr_ram: c.chr_ram.update(i, data), ..c }
    } else {
        c
    }
}

/// Mapper 0 (NROM): fixed PRG ROM, CHR ROM or 8 KiB of CHR RAM.
struct Mapper0 {
    prg_banks: u8,
    chr_banks: u8,
    prg_rom: Vec<u8>,
    chr_rom: Vec<u8>,
    chr_ram: Vec<u8>,
    mirroring: Mirroring,
    bg_switch_enabled: bool,
    bg_bank_selected: u8,
}

impl Mapper0 {
    pub closed spec fn state(&self, mapper_id: u8) -> CartState {
        CartState {
            mapper_id,
            prg_banks: self.prg_banks,
            chr_banks: self.chr_banks,
            prg_rom: self.prg_rom@,
            chr_rom: self.chr_rom@,
            chr_ram: self.chr_ram@,
            mirroring: self.mirroring,
        }
    }
}

impl Mapper for Mapper0 {
    fn read_prg(&self, addr: u16) -> (r: u8)
        ensures
            r == cart_read_prg(self.state(0), addr),
    {
        if addr < 0x8000 {
            return 0;
        }
        let mapped_addr = if self.prg_banks == 1 {
            (addr & 0x3FFF) as usize
        } else {
            (addr & 0x7FFF) as usize
        };
        if mapped_addr < self.prg_rom.len() {
            self.prg_rom[mapped_addr]
        } else {
            0xFF
        }
    }

    /// PRG ROM is not writable on mapper 0.
    fn write_prg(&mut self, addr: u16, data: u8)
        ensures
            *final(self) == *old(self),
    {
    }

    fn read_chr(&self, addr: u16) -> (r: u8)
        ensures
            r == cart_read_chr(self.state(0), addr),
    {
        let addr = addr & 0x1FFF;
        let index = addr as usize;
        if self.chr_banks == 0 {
            if index < self.chr_ram.len() {
                self.chr_ram[index]
            } else {
                0
            }
        } else {
            if index < self.chr_rom.len() {
                self.chr_rom[index]
            } else {
                0
            }
        }
    }

    fn write_chr(&mut self, addr: u16, data: u8)
        ensures
            final(self).state(0) == cart_write_chr(old(self).state(0), addr, data),
    {
        let addr = addr & 0x1FFF;
        let index = addr as usize;
        if self.chr_banks == 0 {
            if index < self.chr_ram.len() {
                self.chr_ram.set(index, data);
            }
        }
    }

    fn mirroring(&self) -> (r: Mirroring)
        ensures
            r == self.state(0).mirroring,
    {
        self.mirroring
    }
}

/// A cartridge: its header information and its mapper.
pub struct Cartridge {
    mapper_id: u8,
    prg_banks: u8,
    chr_banks: u8,
    mapper: Mapper0,
    mirroring: Mirroring,
}

impl View for Cartridge {
    type V = CartState;

    closed spec fn view(&self) -> CartState {
        CartState { mirroring: self.mirroring, ..self.mapper.state(self.mapper_id) }
    }
}

/// "Unsupported mapper ID: " followed by the decimal digits of `id`.
pub open spec fn unsupported_mapper_text(id: u8) -> Seq<char> {
    "Unsupported mapper ID: "@ + decimal_text(id as nat)
}

/// The error message for an unsupported mapper number.
fn unsupported_mapper_message(id: u8) -> (r: String)
    ensures
        r@ == unsupported_mapper_text(id),
{
    let mut s = "Unsupported mapper ID: ".to_owned();
    push_decimal(&mut s, id);
    s
}

/// The state of an optional cartridge slot.
pub open spec fn slot_state(c: Option<Cartridge>) -> Option<CartState> {
    match c {
        Some(cart) => Some(cart@),
        None => None,
    }
}

/// A PPU pattern-memory read through an optional cartridge slot: 0 when empty.
pub open spec fn slot_read_chr(c: Option<CartState>, addr: u16) -> u8 {
    match c {
        Some(cart) => cart_read_chr(cart, addr),
        None => 0,
    }
}

/// Reads pattern memory through an optional cartridge slot.
pub fn read_chr_from_slot(slot: &Option<Cartridge>, addr: u16) -> (r: u8)
    ensures
        r == slot_read_chr(slot_state(*slot), addr),
{
    match slot {
        Some(cart) => cart.read_chr(addr),
        None => 0,
    }
}

impl Cartridge {
    /// The cartridge that `new` builds from these arguments for mapper 0.
    pub open spec fn spec_new_state(prg_rom: Seq<u8>, chr_rom: Seq<u8>, mirroring_type: u8) -> CartState {
        let prg_banks = (prg_rom.len() / 16384) as u8;
        let chr_banks = (chr_rom.len() / 8192) as u8;
        CartState {
            mapper_id: 0,
            prg_banks,
            chr_banks,
            prg_rom,
            chr_rom: if chr_banks == 0 {
                Seq::empty()
            } else {
                chr_rom
            },
            chr_ram: if chr_banks == 0 {
                Seq::new(CHR_RAM_SIZE as nat, |i: int| 0u8)
            } else {
                Seq::empty()
            },
            mirroring: mirroring_from_flags(mirroring_type),
        }
    }

    /// Builds a cartridge; only mapper 0 is supported.
    pub fn new(prg_rom: Vec<u8>, chr_rom: Vec<u8>, mapper_id: u8, mirroring_type: u8) -> (r: Result<
        Self,
        String,
    >)
        ensures
            mapper_id == 0 <==> r is Ok,
            r matches Ok(c) ==> c@ == Self::spec_new_state(prg_rom@, chr_rom@, mirroring_type),
            r matches Err(e) ==> e@ == unsupported_mapper_text(mapper_id),
    {
        let prg_banks = (prg_rom.len() / 16384) as u8;
        let chr_banks = (chr_rom.len() / 8192) as u8;
        let mirroring = if (mirroring_type & 0x08) != 0 {
            Mirroring::FourScreen
        } else if (mirroring_type & 0x01) != 0 {
            Mirroring::Vertical
        } else {
            Mirroring::Horizontal
        };
        if mapper_id == 0 {
            let chr_ram = if chr_banks == 0 {
                vec![0u8; CHR_RAM_SIZE]
            } else {
                Vec::new()
            };
            let chr_data = if chr_banks == 0 {
                Vec::new()
            } else {
                chr_rom
            };
            let mapper = Mapper0 {
                prg_banks,
                chr_banks,
                prg_rom,
                chr_rom: chr_data,
                chr_ram,
                mirroring,
                bg_switch_enabled: false,
                bg_bank_selected: 0,
            };
            let c = Self { mapper_id, prg_banks, chr_banks, mapper, mirroring };
            assert(c@.chr_ram =~= Self::spec_new_state(c@.prg_rom, chr_rom@, mirroring_type).chr_ram);
            Ok(c)
        } else {
            Err(unsupported_mapper_message(mapper_id))
        }
    }

    pub fn read_prg(&self, addr: u16) -> (r: u8)
        ensures
            r == cart_read_prg(self@, addr),
    {
        self.mapper.read_prg(addr)
    }

    pub fn write_prg(&mut self, addr: u16, data: u8)
        ensures
            *final(self) == *old(self),
    {
        self.mapper.write_prg(addr, data);
    }

    pub fn read_chr(&self, addr: u16) -> (r: u8)
        ensures
            r == cart_read_chr(self@, addr),
    {
        self.mapper.read_chr(addr)
    }

    pub fn write_chr(&mut self, addr: u16, data: u8)
        ensures
            final(self)@ == cart_write_chr(old(self)@, addr, data),
    {
        self.mapper.write_chr(addr, data);
    }

    pub fn mirror_mode(&self) -> (r: Mirroring)
        ensures
            r == self@.mirroring,
    {
        self.mirroring
    }

    pub fn get_mirroring(&self) -> (r: Mirroring)
        ensures
            r == self@.mirroring,
    {
        self.mirroring
    }

    pub fn get_mapper_id(&self) -> (r: u8)
        ensures
            r == self@.mapper_id,
    {
        self.mapper_id
    }
}

/// On a cartridge with CHR RAM, a pattern read gives back the last byte
/// written to the same address (modulo 8 KiB); CHR ROM ignores writes.
pub proof fn lemma_chr_read_after_write(c: CartState, addr: u16, data: u8, other: u16)
    requires
        c.chr_ram.len() == CHR_RAM_SIZE,
    ensures
        c.chr_banks == 0 && (other & 0x1FFF) == (addr & 0x1FFF) ==> cart_read_chr(
            cart_write_chr(c, addr, data),
            other,
        ) == data,
        (other & 0x1FFF) != (addr & 0x1FFF) ==> cart_read_chr(cart_write_chr(c, addr, data), other)
            == cart_read_chr(c, other),
        c.chr_banks != 0 ==> cart_write_chr(c, addr, data) == c,
{
    crate::bits::lemma_u16_fields(addr);
    crate::bits::lemma_u16_fields(other);
}

/// The mirroring of a cartridge built from the iNES flags-6 bits `flags`:
/// four-screen when bit 3 is set, otherwise vertical when bit 0 is set,
/// otherwise horizontal. Building a cartridge from the flags of a vertical,
/// horizontal or four-screen arrangement therefore gives that arrangement.
pub proof fn lemma_cartridge_mirroring(prg_rom: Seq<u8>, chr_rom: Seq<u8>, flags: u8, m: Mirroring)
    ensures
        flags & 0x08 != 0 ==> Cartridge::spec_new_state(prg_rom, chr_rom, flags).mirroring
            == Mirroring::FourScreen,
        flags & 0x08 == 0 && flags & 0x01 != 0 ==> Cartridge::spec_new_state(
            prg_rom,
            chr_rom,
            flags,
        ).mirroring == Mirroring::Vertical,
        flags & 0x09 == 0 ==> Cartridge::spec_new_state(prg_rom, chr_rom, flags).mirroring
            == Mirroring::Horizontal,
        m == Mirroring::Vertical || m == Mirroring::Horizontal || m == Mirroring::FourScreen
            ==> Cartridge::spec_new_state(prg_rom, chr_rom, mirroring_flags(m)).mirroring == m,
{
    assert(flags & 0x09 == 0 ==> flags & 0x08 == 0 && flags & 0x01 == 0) by (bit_vector);
    if m == Mirroring::Vertical || m == Mirroring::Horizontal || m == Mirroring::FourScreen {
        lemma_mirroring_flags_roundtrip(m);
    }
}

} // verus!
