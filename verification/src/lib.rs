//! A Nintendo Entertainment System emulator core: the 6502 CPU, the PPU,
//! the system bus, cartridges, controllers and RAM.
use vstd::prelude::*;

pub mod apu;
pub mod bits;
pub mod bus;
pub mod cartridge;
pub mod controller;
pub mod cpu;
pub mod debugger;
pub mod emulator;
pub mod ppu;
pub mod ram;
pub mod registers;
pub mod text;

verus! {

/// Size of the iNES header.
pub const NES_HEADER_SIZE: usize = 16;

/// Size of one PRG ROM page (16 KiB).
pub const PRG_ROM_PAGE_SIZE: usize = 16384;

/// Size of one CHR ROM page (8 KiB).
pub const CHR_ROM_PAGE_SIZE: usize = 8192;

/// Size of the optional trainer that precedes PRG ROM.
pub const TRAINER_SIZE: usize = 512;

/// `a + b` on 16 bits, wrapping around.
pub open spec fn wadd16(a: u16, b: u16) -> u16 {
    vstd::wrapping::u16_specs::wrapping_add(a, b)
}

/// `a + b` on 64 bits, wrapping around.
pub open spec fn wadd64(a: u64, b: u64) -> u64 {
    vstd::wrapping::u64_specs::wrapping_add(a, b)
}

/// `a + b` on 32 bits, wrapping around.
pub open spec fn wadd32(a: u32, b: u32) -> u32 {
    vstd::wrapping::u32_specs::wrapping_add(a, b)
}

/// `a + b` on 8 bits, wrapping around.
pub open spec fn wadd8(a: u8, b: u8) -> u8 {
    vstd::wrapping::u8_specs::wrapping_add(a, b)
}

/// `a - b` on 8 bits, wrapping around.
pub open spec fn wsub8(a: u8, b: u8) -> u8 {
    vstd::wrapping::u8_specs::wrapping_sub(a, b)
}

/// `a - b` on 16 bits, wrapping around.
pub open spec fn wsub16(a: u16, b: u16) -> u16 {
    vstd::wrapping::u16_specs::wrapping_sub(a, b)
}

/// Nametable mirroring arrangements.
#[derive(Debug, Clone, Copy, PartialEq, Eq, Structural)]
pub enum Mirroring {
    Vertical,
    Horizontal,
    FourScreen,
    SingleScreenLower,
    SingleScreenUpper,
}

/// The iNES flags-6 bits that describe a mirroring arrangement.
pub open spec fn mirroring_flags(m: Mirroring) -> u8 {
    match m {
        Mirroring::Vertical => 0x01,
        Mirroring::Horizontal => 0x00,
        Mirroring::FourScreen => 0x08,
        Mirroring::SingleScreenLower => 0x00,
        Mirroring::SingleScreenUpper => 0x01,
    }
}

/// The mirroring arrangement that iNES flags-6 bits select: bit 3 four-screen,
/// otherwise bit 0 vertical, otherwise horizontal.
pub open spec fn mirroring_from_flags(flags: u8) -> Mirroring {
    if flags & 0x08 != 0 {
        Mirroring::FourScreen
    } else if flags & 0x01 != 0 {
        Mirroring::Vertical
    } else {
        Mirroring::Horizontal
    }
}

impl Mirroring {
    /// Converts the arrangement back to iNES flags-6 bits. The single-screen
    /// arrangements have no flag of their own.
    pub fn into_flags(self) -> (r: u8)
        ensures
            r == mirroring_flags(self),
    {
        match self {
            Mirroring::Vertical => 0x01,
            Mirroring::Horizontal => 0x00,
            Mirroring::FourScreen => 0x08,
            Mirroring::SingleScreenLower => 0x00,
            Mirroring::SingleScreenUpper => 0x01,
        }
    }
}

/// The flags of the three arrangements that the iNES header can express
/// select the same arrangement again.
pub proof fn lemma_mirroring_flags_roundtrip(m: Mirroring)
    requires
        m == Mirroring::Vertical || m == Mirroring::Horizontal || m == Mirroring::FourScreen,
    ensures
        mirroring_from_flags(mirroring_flags(m)) == m,
{
    assert(0x01u8 & 0x08 == 0 && 0x01u8 & 0x01 != 0 && 0x00u8 & 0x08 == 0 && 0x00u8 & 0x01 == 0
        && 0x08u8 & 0x08 != 0) by (bit_vector);
}

/// The parsed content of a .nes file.
#[derive(Debug, Clone)]
pub struct NesRom {
    pub prg_rom: Vec<u8>,
    pub chr_rom: Vec<u8>,
    pub mapper_id: u8,
    pub mirroring: Mirroring,
    pub has_battery_backed_ram: bool,
}

/// Why an image could not be parsed as an iNES file.
#[derive(Debug, Clone, Copy, PartialEq, Eq, Structural)]
pub enum RomError {
    /// The image is shorter than a header or does not start with "NES\x1a".
    InvalidHeader,
    /// The image is shorter than its header says.
    SizeMismatch,
}

/// Whether `b` starts with a complete iNES header ("NES" followed by 0x1A).
pub open spec fn has_ines_header(b: Seq<u8>) -> bool {
    &&& b.len() >= NES_HEADER_SIZE
    &&& b[0] == 0x4E
    &&& b[1] == 0x45
    &&& b[2] == 0x53
    &&& b[3] == 0x1A
}

/// Offset of PRG ROM in an image whose header has flags-6 `flags6`.
pub open spec fn prg_rom_offset(flags6: u8) -> int {
    NES_HEADER_SIZE + if flags6 & 0x04 != 0 {
        TRAINER_SIZE as int
    } else {
        0
    }
}

/// Size of PRG ROM announced by header `b`.
pub open spec fn prg_rom_size(b: Seq<u8>) -> int {
    b[4] * PRG_ROM_PAGE_SIZE
}

/// Size of CHR ROM announced by header `b`.
pub open spec fn chr_rom_size(b: Seq<u8>) -> int {
    b[5] * CHR_ROM_PAGE_SIZE
}

/// The mapper number that header `b` announces.
pub open spec fn header_mapper_id(b: Seq<u8>) -> u8 {
    (b[7] & 0xF0) | (b[6] >> 4u8)
}

/// The outcome of parsing the image `b`, as (error, or the parts of the ROM).
pub open spec fn rom_image_valid(b: Seq<u8>) -> bool {
    &&& has_ines_header(b)
    &&& b.len() >= prg_rom_offset(b[6]) + prg_rom_size(b) + chr_rom_size(b)
}

/// The PRG ROM bytes of a valid image `b`.
pub open spec fn image_prg_rom(b: Seq<u8>) -> Seq<u8> {
    let off = prg_rom_offset(b[6]);
    b.subrange(off, off + prg_rom_size(b))
}

/// The CHR ROM bytes of a valid image `b` (empty when it has none).
pub open spec fn image_chr_rom(b: Seq<u8>) -> Seq<u8> {
    let off = prg_rom_offset(b[6]) + prg_rom_size(b);
    b.subrange(off, off + chr_rom_size(b))
}

impl NesRom {
    /// Parses an iNES image.
    pub fn from_bytes(buffer: &[u8]) -> (r: Result<NesRom, RomError>)
        ensures
            !has_ines_header(buffer@) <==> r == Err::<NesRom, RomError>(RomError::InvalidHeader),
            has_ines_header(buffer@) && !rom_image_valid(buffer@) <==> r == Err::<NesRom, RomError>(
                RomError::SizeMismatch,
            ),
            rom_image_valid(buffer@) <==> r is Ok,
            r matches Ok(rom) ==> {
                let b = buffer@;
                &&& rom.prg_rom@ == image_prg_rom(b)
                &&& rom.chr_rom@ == image_chr_rom(b)
                &&& rom.mapper_id == header_mapper_id(b)
                &&& rom.mirroring == mirroring_from_flags(b[6])
                &&& rom.has_battery_backed_ram == (b[6] & 0x02 != 0)
            },
    {
        if buffer.len() < NES_HEADER_SIZE || buffer[0] != 0x4E || buffer[1] != 0x45 || buffer[2]
            != 0x53 || buffer[3] != 0x1A {
            return Err(RomError::InvalidHeader);
        }
        let prg_rom_pages = buffer[4] as usize;
        let chr_rom_pages = buffer[5] as usize;
        let flags6 = buffer[6];
        let flags7 = buffer[7];

        let prg_size = prg_rom_pages * PRG_ROM_PAGE_SIZE;
        let chr_size = chr_rom_pages * CHR_ROM_PAGE_SIZE;

        let mapper_low = flags6 >> 4u8;
        let mapper_high = flags7 & 0xF0;
        let mapper_id = mapper_high | mapper_low;

        let four_screen = (flags6 & 0x08) != 0;
        let vertical_mirroring = (flags6 & 0x01) != 0;
        let mirroring = if four_screen {
            Mirroring::FourScreen
        } else if vertical_mirroring {
            Mirroring::Vertical
        } else {
            Mirroring::Horizontal
        };

        let has_battery_backed_ram = (flags6 & 0x02) != 0;

        let prg_offset = NES_HEADER_SIZE + if (flags6 & 0x04) != 0 {
            TRAINER_SIZE
        } else {
            0
        };

        if buffer.len() < prg_offset + prg_size + chr_size {
            return Err(RomError::SizeMismatch);
        }
        let prg_rom = vstd::slice::slice_to_vec(&buffer[prg_offset..prg_offset + prg_size]);
        let chr_offset = prg_offset + prg_size;
        let chr_rom = if chr_size > 0 {
            vstd::slice::slice_to_vec(&buffer[chr_offset..chr_offset + chr_size])
        } else {
            Vec::new()
        };
        Ok(NesRom { prg_rom, chr_rom, mapper_id, mirroring, has_battery_backed_ram })
    }
}

} // verus!
