//! The 6502 CPU core (as used in the NES: no decimal mode).
use vstd::prelude::*;
use crate::text::{hex_text, push_hex};
use crate::bits::{lemma_adc_status, lemma_u16_fields, lemma_u16_from_bytes, lemma_u8_fields};
use crate::bus::{BusAccess, spec_read_u16, spec_read_u16_zp};
use crate::registers::with_flag;
use crate::{wadd16, wadd8, wsub16, wsub8};

verus! {

pub const FLAG_CARRY: u8 = 0x01;

pub const FLAG_ZERO: u8 = 0x02;

pub const FLAG_INTERRUPT_DISABLE: u8 = 0x04;

/// Not used by the NES's 6502, kept for compatibility.
pub const FLAG_DECIMAL: u8 = 0x08;

/// Set in the status byte pushed by BRK and PHP.
pub const FLAG_BREAK: u8 = 0x10;

/// Always set.
pub const FLAG_UNUSED: u8 = 0x20;

pub const FLAG_OVERFLOW: u8 = 0x40;

pub const FLAG_NEGATIVE: u8 = 0x80;

pub const STACK_BASE: u16 = 0x0100;

pub const STACK_RESET: u8 = 0xFD;

pub const NMI_VECTOR_ADDR: u16 = 0xFFFA;

pub const RESET_VECTOR_ADDR: u16 = 0xFFFC;

pub const IRQ_BRK_VECTOR_ADDR: u16 = 0xFFFE;

/// The programmer-visible registers.
#[derive(Debug, Clone, Copy)]
pub struct Registers {
    pub accumulator: u8,
    pub x_register: u8,
    pub y_register: u8,
    pub stack_pointer: u8,
    pub program_counter: u16,
    pub status: u8,
}

impl Default for Registers {
    fn default() -> (r: Self)
        ensures
            r == (Registers {
                accumulator: 0,
                x_register: 0,
                y_register: 0,
                stack_pointer: 0xFD,
                program_counter: 0,
                status: 0x24,
            }),
    {
        Self {
            accumulator: 0,
            x_register: 0,
            y_register: 0,
            stack_pointer: 0xFD,
            program_counter: 0,
            status: 0x24,
        }
    }
}

/// A snapshot of the CPU for inspection.
#[derive(Clone)]
pub struct InspectState {
    pub registers: Registers,
    pub total_cycles: u64,
}

/// 6502 addressing modes.
#[derive(Debug, Clone, Copy, PartialEq, Eq, Structural)]
pub enum AddressingMode {
    Implied,
    Accumulator,
    Immediate,
    ZeroPage,
    ZeroPageX,
    ZeroPageY,
    Relative,
    Absolute,
    AbsoluteX,
    AbsoluteY,
    Indirect,
    IndexedIndirect,
    IndirectIndexed,
}

/// What an opcode does, independent of its addressing mode.
#[derive(Debug, Clone, Copy, PartialEq, Eq, Structural)]
pub enum Operation {
    Lda,
    Ldx,
    Ldy,
    Sta,
    Stx,
    Sty,
    Tax,
    Tay,
    Tsx,
    Txa,
    Txs,
    Tya,
    Pha,
    Php,
    Pla,
    Plp,
    Inx,
    Iny,
    Dex,
    Dey,
    Inc,
    Dec,
    Adc,
    Sbc,
    Cmp,
    Cpx,
    Cpy,
    And,
    Ora,
    Eor,
    Bit,
    Clc,
    Sec,
    Cli,
    Sei,
    Clv,
    Cld,
    Sed,
    Asl,
    Lsr,
    Rol,
    Ror,
    Jmp,
    Jsr,
    Rts,
    Rti,
    Branch,
    Brk,
    Lax,
    Sax,
    Slo,
    Rla,
    Dcp,
    Isc,
    /// Official and unofficial NOPs, the jam opcodes, SRE, RRA and
    /// unrecognised opcodes: none of them changes any state.
    Nop,
}

/// The CPU core.
#[derive(Debug, Clone, Copy)]
pub struct Cpu6502 {
    pub registers: Registers,
    pub cycles: u8,
    pub nmi_pending: bool,
    pub brk_executed: bool,
}

// ---------------------------------------------------------------------------
// Decoding
// ---------------------------------------------------------------------------

/// "SP=$" and the stack pointer in two hexadecimal digits, then
/// " (Points to $" and the stack address $0100 + SP in four, then ")".
pub open spec fn stack_pointer_text(sp: u8) -> Seq<char> {
    "SP=$"@ + hex_text(sp as nat, 2) + " (Points to $"@ + hex_text((0x0100 + sp) as nat, 4) + ")"@
}

/// The operation an opcode performs.
pub open spec fn operation_of(opcode: u8) -> Operation {
    match opcode {
        0xA9 | 0xA5 | 0xB5 | 0xAD | 0xBD | 0xB9 | 0xA1 | 0xB1 => Operation::Lda,
        0xA2 | 0xA6 | 0xB6 | 0xAE | 0xBE => Operation::Ldx,
        0xA0 | 0xA4 | 0xB4 | 0xAC | 0xBC => Operation::Ldy,
        0x85 | 0x95 | 0x8D | 0x9D | 0x99 | 0x81 | 0x91 => Operation::Sta,
        0x86 | 0x96 | 0x8E => Operation::Stx,
        0x84 | 0x94 | 0x8C => Operation::Sty,
        0xAA => Operation::Tax,
        0xA8 => Operation::Tay,
        0xBA => Operation::Tsx,
        0x8A => Operation::Txa,
        0x9A => Operation::Txs,
        0x98 => Operation::Tya,
        0x48 => Operation::Pha,
        0x08 => Operation::Php,
        0x68 => Operation::Pla,
        0x28 => Operation::Plp,
        0xE8 => Operation::Inx,
        0xC8 => Operation::Iny,
        0xCA => Operation::Dex,
        0x88 => Operation::Dey,
        0xE6 | 0xF6 | 0xEE | 0xFE => Operation::Inc,
        0xC6 | 0xD6 | 0xCE | 0xDE => Operation::Dec,
        0x69 | 0x65 | 0x75 | 0x6D | 0x7D | 0x79 | 0x61 | 0x71 => Operation::Adc,
        0xE9 | 0xE5 | 0xF5 | 0xED | 0xFD | 0xF9 | 0xE1 | 0xF1 => Operation::Sbc,
        0xC9 | 0xC5 | 0xD5 | 0xCD | 0xDD | 0xD9 | 0xC1 | 0xD1 => Operation::Cmp,
        0xE0 | 0xE4 | 0xEC => Operation::Cpx,
        0xC0 | 0xC4 | 0xCC => Operation::Cpy,
        0x29 | 0x25 | 0x35 | 0x2D | 0x3D | 0x39 | 0x21 | 0x31 => Operation::And,
        0x09 | 0x05 | 0x15 | 0x0D | 0x1D | 0x19 | 0x01 | 0x11 => Operation::Ora,
        0x49 | 0x45 | 0x55 | 0x4D | 0x5D | 0x59 | 0x41 | 0x51 => Operation::Eor,
        0x24 | 0x2C => Operation::Bit,
        0x18 => Operation::Clc,
        0x38 => Operation::Sec,
        0x58 => Operation::Cli,
        0x78 => Operation::Sei,
        0xB8 => Operation::Clv,
        0xD8 => Operation::Cld,
        0xF8 => Operation::Sed,
        0x0A | 0x06 | 0x16 | 0x0E | 0x1E => Operation::Asl,
        0x4A | 0x46 | 0x56 | 0x4E | 0x5E => Operation::Lsr,
        0x2A | 0x26 | 0x36 | 0x2E | 0x3E => Operation::Rol,
        0x6A | 0x66 | 0x76 | 0x6E | 0x7E => Operation::Ror,
        0x4C | 0x6C => Operation::Jmp,
        0x20 => Operation::Jsr,
        0x60 => Operation::Rts,
        0x40 => Operation::Rti,
        0x10 | 0x30 | 0x50 | 0x70 | 0x90 | 0xB0 | 0xD0 | 0xF0 => Operation::Branch,
        0x00 => Operation::Brk,
        0xA7 | 0xB7 | 0xAF | 0xBF | 0xA3 | 0xB3 => Operation::Lax,
        0x87 | 0x97 | 0x8F | 0x83 => Operation::Sax,
        0x07 | 0x17 | 0x0F | 0x1F | 0x1B | 0x03 | 0x13 => Operation::Slo,
        0x27 | 0x37 | 0x2F | 0x3F | 0x3B | 0x23 | 0x33 => Operation::Rla,
        0xC7 | 0xD7 | 0xCF | 0xDF | 0xDB | 0xC3 | 0xD3 => Operation::Dcp,
        0xE7 | 0xF7 | 0xEF | 0xFF | 0xFB | 0xE3 | 0xF3 => Operation::Isc,
        _ => Operation::Nop,
    }
}

/// The decode table: addressing mode, base cycle count and mnemonic of each opcode.
#[verifier::opaque]
pub open spec fn decode_table(opcode: u8) -> (AddressingMode, u8, &'static str) {
    match opcode {
        0x00 => (AddressingMode::Implied, 7, "BRK"),
        0xEA => (AddressingMode::Implied, 2, "NOP"),
        0xA9 => (AddressingMode::Immediate, 2, "LDA"),
        0xA5 => (AddressingMode::ZeroPage, 3, "LDA"),
        0xB5 => (AddressingMode::ZeroPageX, 4, "LDA"),
        0xAD => (AddressingMode::Absolute, 4, "LDA"),
        0xBD => (AddressingMode::AbsoluteX, 4, "LDA"),
        0xB9 => (AddressingMode::AbsoluteY, 4, "LDA"),
        0xA1 => (AddressingMode::IndexedIndirect, 6, "LDA"),
        0xB1 => (AddressingMode::IndirectIndexed, 5, "LDA"),
        0xA2 => (AddressingMode::Immediate, 2, "LDX"),
        0xA6 => (AddressingMode::ZeroPage, 3, "LDX"),
        0xB6 => (AddressingMode::ZeroPageY, 4, "LDX"),
        0xAE => (AddressingMode::Absolute, 4, "LDX"),
        0xBE => (AddressingMode::AbsoluteY, 4, "LDX"),
        0xA0 => (AddressingMode::Immediate, 2, "LDY"),
        0xA4 => (AddressingMode::ZeroPage, 3, "LDY"),
        0xB4 => (AddressingMode::ZeroPageX, 4, "LDY"),
        0xAC => (AddressingMode::Absolute, 4, "LDY"),
        0xBC => (AddressingMode::AbsoluteX, 4, "LDY"),
        0x85 => (AddressingMode::ZeroPage, 3, "STA"),
        0x95 => (AddressingMode::ZeroPageX, 4, "STA"),
        0x8D => (AddressingMode::Absolute, 4, "STA"),
        0x9D => (AddressingMode::AbsoluteX, 5, "STA"),
        0x99 => (AddressingMode::AbsoluteY, 5, "STA"),
        0x81 => (AddressingMode::IndexedIndirect, 6, "STA"),
        0x91 => (AddressingMode::IndirectIndexed, 6, "STA"),
        0x86 => (AddressingMode::ZeroPage, 3, "STX"),
        0x96 => (AddressingMode::ZeroPageY, 4, "STX"),
        0x8E => (AddressingMode::Absolute, 4, "STX"),
        0x84 => (AddressingMode::ZeroPage, 3, "STY"),
        0x94 => (AddressingMode::ZeroPageX, 4, "STY"),
        0x8C => (AddressingMode::Absolute, 4, "STY"),
        0x4C => (AddressingMode::Absolute, 3, "JMP"),
        0x6C => (AddressingMode::Indirect, 5, "JMP"),
        0x10 => (AddressingMode::Relative, 2, "BPL"),
        0x30 => (AddressingMode::Relative, 2, "BMI"),
        0x50 => (AddressingMode::Relative, 2, "BVC"),
        0x70 => (AddressingMode::Relative, 2, "BVS"),
        0x90 => (AddressingMode::Relative, 2, "BCC"),
        0xB0 => (AddressingMode::Relative, 2, "BCS"),
        0xD0 => (AddressingMode::Relative, 2, "BNE"),
        0xF0 => (AddressingMode::Relative, 2, "BEQ"),
        0x18 => (AddressingMode::Implied, 2, "CLC"),
        0x38 => (AddressingMode::Implied, 2, "SEC"),
        0x58 => (AddressingMode::Implied, 2, "CLI"),
        0x78 => (AddressingMode::Implied, 2, "SEI"),
        0xB8 => (AddressingMode::Implied, 2, "CLV"),
        0xD8 => (AddressingMode::Implied, 2, "CLD"),
        0xF8 => (AddressingMode::Implied, 2, "SED"),
        0xCA => (AddressingMode::Implied, 2, "DEX"),
        0x88 => (AddressingMode::Implied, 2, "DEY"),
        0xE8 => (AddressingMode::Implied, 2, "INX"),
        0xC8 => (AddressingMode::Implied, 2, "INY"),
        0xAA => (AddressingMode::Implied, 2, "TAX"),
        0xA8 => (AddressingMode::Implied, 2, "TAY"),
        0xBA => (AddressingMode::Implied, 2, "TSX"),
        0x8A => (AddressingMode::Implied, 2, "TXA"),
        0x9A => (AddressingMode::Implied, 2, "TXS"),
        0x98 => (AddressingMode::Implied, 2, "TYA"),
        0x48 => (AddressingMode::Implied, 3, "PHA"),
        0x08 => (AddressingMode::Implied, 3, "PHP"),
        0x68 => (AddressingMode::Implied, 4, "PLA"),
        0x28 => (AddressingMode::Implied, 4, "PLP"),
        0x20 => (AddressingMode::Absolute, 6, "JSR"),
        0x60 => (AddressingMode::Implied, 6, "RTS"),
        0x40 => (AddressingMode::Implied, 6, "RTI"),
        0x69 => (AddressingMode::Immediate, 2, "ADC"),
        0xE9 => (AddressingMode::Immediate, 2, "SBC"),
        0xC9 => (AddressingMode::Immediate, 2, "CMP"),
        0xE0 => (AddressingMode::Immediate, 2, "CPX"),
        0xC0 => (AddressingMode::Immediate, 2, "CPY"),
        0x29 => (AddressingMode::Immediate, 2, "AND"),
        0x49 => (AddressingMode::Immediate, 2, "EOR"),
        0x09 => (AddressingMode::Immediate, 2, "ORA"),
        0x24 => (AddressingMode::ZeroPage, 3, "BIT"),
        0x2C => (AddressingMode::Absolute, 4, "BIT"),
        0x0A => (AddressingMode::Accumulator, 2, "ASL"),
        0x06 => (AddressingMode::ZeroPage, 5, "ASL"),
        0x16 => (AddressingMode::ZeroPageX, 6, "ASL"),
        0x0E => (AddressingMode::Absolute, 6, "ASL"),
        0x1E => (AddressingMode::AbsoluteX, 7, "ASL"),
        0x4A => (AddressingMode::Accumulator, 2, "LSR"),
        0x46 => (AddressingMode::ZeroPage, 5, "LSR"),
        0x56 => (AddressingMode::ZeroPageX, 6, "LSR"),
        0x4E => (AddressingMode::Absolute, 6, "LSR"),
        0x5E => (AddressingMode::AbsoluteX, 7, "LSR"),
        0x2A => (AddressingMode::Accumulator, 2, "ROL"),
        0x26 => (AddressingMode::ZeroPage, 5, "ROL"),
        0x36 => (AddressingMode::ZeroPageX, 6, "ROL"),
        0x2E => (AddressingMode::Absolute, 6, "ROL"),
        0x3E => (AddressingMode::AbsoluteX, 7, "ROL"),
        0x6A => (AddressingMode::Accumulator, 2, "ROR"),
        0x66 => (AddressingMode::ZeroPage, 5, "ROR"),
        0x76 => (AddressingMode::ZeroPageX, 6, "ROR"),
        0x6E => (AddressingMode::Absolute, 6, "ROR"),
        0x7E => (AddressingMode::AbsoluteX, 7, "ROR"),
        0xE6 => (AddressingMode::ZeroPage, 5, "INC"),
        0xF6 => (AddressingMode::ZeroPageX, 6, "INC"),
        0xEE => (AddressingMode::Absolute, 6, "INC"),
        0xFE => (AddressingMode::AbsoluteX, 7, "INC"),
        0xC6 => (AddressingMode::ZeroPage, 5, "DEC"),
        0xD6 => (AddressingMode::ZeroPageX, 6, "DEC"),
        0xCE => (AddressingMode::Absolute, 6, "DEC"),
        0xDE => (AddressingMode::AbsoluteX, 7, "DEC"),
        0x65 => (AddressingMode::ZeroPage, 3, "ADC"),
        0x75 => (AddressingMode::ZeroPageX, 4, "ADC"),
        0x6D => (AddressingMode::Absolute, 4, "ADC"),
        0x7D => (AddressingMode::AbsoluteX, 4, "ADC"),
        0x79 => (AddressingMode::AbsoluteY, 4, "ADC"),
        0x61 => (AddressingMode::IndexedIndirect, 6, "ADC"),
        0x71 => (AddressingMode::IndirectIndexed, 5, "ADC"),
        0xE5 => (AddressingMode::ZeroPage, 3, "SBC"),
        0xF5 => (AddressingMode::ZeroPageX, 4, "SBC"),
        0xED => (AddressingMode::Absolute, 4, "SBC"),
        0xFD => (AddressingMode::AbsoluteX, 4, "SBC"),
        0xF9 => (AddressingMode::AbsoluteY, 4, "SBC"),
        0xE1 => (AddressingMode::IndexedIndirect, 6, "SBC"),
        0xF1 => (AddressingMode::IndirectIndexed, 5, "SBC"),
        0xC5 => (AddressingMode::ZeroPage, 3, "CMP"),
        0xD5 => (AddressingMode::ZeroPageX, 4, "CMP"),
        0xCD => (AddressingMode::Absolute, 4, "CMP"),
        0xDD => (AddressingMode::AbsoluteX, 4, "CMP"),
        0xD9 => (AddressingMode::AbsoluteY, 4, "CMP"),
        0xC1 => (AddressingMode::IndexedIndirect, 6, "CMP"),
        0xD1 => (AddressingMode::IndirectIndexed, 5, "CMP"),
        0xE4 => (AddressingMode::ZeroPage, 3, "CPX"),
        0xEC => (AddressingMode::Absolute, 4, "CPX"),
        0xC4 => (AddressingMode::ZeroPage, 3, "CPY"),
        0xCC => (AddressingMode::Absolute, 4, "CPY"),
        0x25 => (AddressingMode::ZeroPage, 3, "AND"),
        0x35 => (AddressingMode::ZeroPageX, 4, "AND"),
        0x2D => (AddressingMode::Absolute, 4, "AND"),
        0x3D => (AddressingMode::AbsoluteX, 4, "AND"),
        0x39 => (AddressingMode::AbsoluteY, 4, "AND"),
        0x21 => (AddressingMode::IndexedIndirect, 6, "AND"),
        0x31 => (AddressingMode::IndirectIndexed, 5, "AND"),
        0x05 => (AddressingMode::ZeroPage, 3, "ORA"),
        0x15 => (AddressingMode::ZeroPageX, 4, "ORA"),
        0x0D => (AddressingMode::Absolute, 4, "ORA"),
        0x1D => (AddressingMode::AbsoluteX, 4, "ORA"),
        0x19 => (AddressingMode::AbsoluteY, 4, "ORA"),
        0x01 => (AddressingMode::IndexedIndirect, 6, "ORA"),
        0x11 => (AddressingMode::IndirectIndexed, 5, "ORA"),
        0x45 => (AddressingMode::ZeroPage, 3, "EOR"),
        0x55 => (AddressingMode::ZeroPageX, 4, "EOR"),
        0x4D => (AddressingMode::Absolute, 4, "EOR"),
        0x5D => (AddressingMode::AbsoluteX, 4, "EOR"),
        0x59 => (AddressingMode::AbsoluteY, 4, "EOR"),
        0x41 => (AddressingMode::IndexedIndirect, 6, "EOR"),
        0x51 => (AddressingMode::IndirectIndexed, 5, "EOR"),
        0x02 | 0x12 | 0x22 | 0x32 | 0x42 | 0x52 | 0x62 | 0x72 | 0x92 | 0xB2 | 0xD2 | 0xF2 => (
            AddressingMode::Implied,
            2,
            "KIL*",
        ),
        0x07 => (AddressingMode::ZeroPage, 5, "SLO*"),
        0x17 => (AddressingMode::ZeroPageX, 6, "SLO*"),
        0x0F => (AddressingMode::Absolute, 6, "SLO*"),
        0x1F => (AddressingMode::AbsoluteX, 7, "SLO*"),
        0x1B => (AddressingMode::AbsoluteY, 7, "SLO*"),
        0x03 => (AddressingMode::IndexedIndirect, 8, "SLO*"),
        0x13 => (AddressingMode::IndirectIndexed, 8, "SLO*"),
        0x27 => (AddressingMode::ZeroPage, 5, "RLA*"),
        0x37 => (AddressingMode::ZeroPageX, 6, "RLA*"),
        0x2F => (AddressingMode::Absolute, 6, "RLA*"),
        0x3F => (AddressingMode::AbsoluteX, 7, "RLA*"),
        0x3B => (AddressingMode::AbsoluteY, 7, "RLA*"),
        0x23 => (AddressingMode::IndexedIndirect, 8, "RLA*"),
        0x33 => (AddressingMode::IndirectIndexed, 8, "RLA*"),
        0x47 => (AddressingMode::ZeroPage, 5, "SRE*"),
        0x57 => (AddressingMode::ZeroPageX, 6, "SRE*"),
        0x4F => (AddressingMode::Absolute, 6, "SRE*"),
        0x5F => (AddressingMode::AbsoluteX, 7, "SRE*"),
        0x5B => (AddressingMode::AbsoluteY, 7, "SRE*"),
        0x43 => (AddressingMode::IndexedIndirect, 8, "SRE*"),
        0x53 => (AddressingMode::IndirectIndexed, 8, "SRE*"),
        0x67 => (AddressingMode::ZeroPage, 5, "RRA*"),
        0x77 => (AddressingMode::ZeroPageX, 6, "RRA*"),
        0x6F => (AddressingMode::Absolute, 6, "RRA*"),
        0x7F => (AddressingMode::AbsoluteX, 7, "RRA*"),
        0x7B => (AddressingMode::AbsoluteY, 7, "RRA*"),
        0x63 => (AddressingMode::IndexedIndirect, 8, "RRA*"),
        0x73 => (AddressingMode::IndirectIndexed, 8, "RRA*"),
        0x87 => (AddressingMode::ZeroPage, 3, "SAX*"),
        0x97 => (AddressingMode::ZeroPageY, 4, "SAX*"),
        0x8F => (AddressingMode::Absolute, 4, "SAX*"),
        0x83 => (AddressingMode::IndexedIndirect, 6, "SAX*"),
        0xA7 => (AddressingMode::ZeroPage, 3, "LAX*"),
        0xB7 => (AddressingMode::ZeroPageY, 4, "LAX*"),
        0xAF => (AddressingMode::Absolute, 4, "LAX*"),
        0xBF => (AddressingMode::AbsoluteY, 4, "LAX*"),
        0xA3 => (AddressingMode::IndexedIndirect, 6, "LAX*"),
        0xB3 => (AddressingMode::IndirectIndexed, 5, "LAX*"),
        0xC7 => (AddressingMode::ZeroPage, 5, "DCP*"),
        0xD7 => (AddressingMode::ZeroPageX, 6, "DCP*"),
        0xCF => (AddressingMode::Absolute, 6, "DCP*"),
        0xDF => (AddressingMode::AbsoluteX, 7, "DCP*"),
        0xDB => (AddressingMode::AbsoluteY, 7, "DCP*"),
        0xC3 => (AddressingMode::IndexedIndirect, 8, "DCP*"),
        0xD3 => (AddressingMode::IndirectIndexed, 8, "DCP*"),
        0xE7 => (AddressingMode::ZeroPage, 5, "ISC*"),
        0xF7 => (AddressingMode::ZeroPageX, 6, "ISC*"),
        0xEF => (AddressingMode::Absolute, 6, "ISC*"),
        0xFF => (AddressingMode::AbsoluteX, 7, "ISC*"),
        0xFB => (AddressingMode::AbsoluteY, 7, "ISC*"),
        0xE3 => (AddressingMode::IndexedIndirect, 8, "ISC*"),
        0xF3 => (AddressingMode::IndirectIndexed, 8, "ISC*"),
        0x1A | 0x3A | 0x5A | 0x7A | 0xDA | 0xFA => (AddressingMode::Implied, 2, "NOP*"),
        0x80 | 0x82 | 0x89 | 0xC2 | 0xE2 => (AddressingMode::Immediate, 2, "NOP*"),
        0x04 | 0x44 | 0x64 => (AddressingMode::ZeroPage, 3, "NOP*"),
        0x14 | 0x34 | 0x54 | 0x74 | 0xD4 | 0xF4 => (AddressingMode::ZeroPageX, 4, "NOP*"),
        0x0C => (AddressingMode::Absolute, 4, "NOP*"),
        0x1C | 0x3C | 0x5C | 0x7C | 0xDC | 0xFC => (AddressingMode::AbsoluteX, 4, "NOP*"),
        _ => (AddressingMode::Implied, 2, "???"),
    }
}

/// Number of operand bytes that follow an opcode in this addressing mode.
pub open spec fn operand_bytes(mode: AddressingMode) -> u8 {
    match mode {
        AddressingMode::Implied | AddressingMode::Accumulator => 0,
        AddressingMode::Immediate | AddressingMode::ZeroPage | AddressingMode::ZeroPageX
        | AddressingMode::ZeroPageY | AddressingMode::Relative | AddressingMode::IndexedIndirect
        | AddressingMode::IndirectIndexed => 1,
        AddressingMode::Absolute | AddressingMode::AbsoluteX | AddressingMode::AbsoluteY
        | AddressingMode::Indirect => 2,
    }
}

/// The name of an addressing mode as the disassembler prints it.
pub open spec fn mode_name(mode: AddressingMode) -> &'static str {
    match mode {
        AddressingMode::Implied => "Implied",
        AddressingMode::Accumulator => "Accumulator",
        AddressingMode::Immediate => "Immediate",
        AddressingMode::ZeroPage => "Zero Page",
        AddressingMode::ZeroPageX => "Zero Page, X",
        AddressingMode::ZeroPageY => "Zero Page, Y",
        AddressingMode::Relative => "Relative",
        AddressingMode::Absolute => "Absolute",
        AddressingMode::AbsoluteX => "Absolute, X",
        AddressingMode::AbsoluteY => "Absolute, Y",
        AddressingMode::Indirect => "Indirect",
        AddressingMode::IndexedIndirect => "(Indirect, X)",
        AddressingMode::IndirectIndexed => "(Indirect), Y",
    }
}

// ---------------------------------------------------------------------------
// Flag arithmetic
// ---------------------------------------------------------------------------

/// The status byte with Z and N set from `value`.
pub open spec fn nz_flags(status: u8, value: u8) -> u8 {
    with_flag(with_flag(status, FLAG_ZERO, value == 0), FLAG_NEGATIVE, value & 0x80 != 0)
}

/// Whether a branch opcode's condition holds for `status`.
pub open spec fn branch_condition(status: u8, opcode: u8) -> bool {
    match opcode {
        0x10 => status & FLAG_NEGATIVE == 0,
        0x30 => status & FLAG_NEGATIVE != 0,
        0x50 => status & FLAG_OVERFLOW == 0,
        0x70 => status & FLAG_OVERFLOW != 0,
        0x90 => status & FLAG_CARRY == 0,
        0xB0 => status & FLAG_CARRY != 0,
        0xD0 => status & FLAG_ZERO == 0,
        0xF0 => status & FLAG_ZERO != 0,
        _ => false,
    }
}

/// Whether two addresses lie on different 256-byte pages.
pub open spec fn page_crossed(a: u16, b: u16) -> bool {
    a & 0xFF00 != b & 0xFF00
}

/// The registers after ADC of `operand` (binary mode): A, C, V, N and Z.
pub open spec fn adc_registers(r: Registers, operand: u8) -> Registers {
    let acc = r.accumulator;
    let carry = r.status & FLAG_CARRY;
    let sum16 = acc + operand + carry;
    let result = (sum16 % 256) as u8;
    let c = with_flag(r.status, FLAG_CARRY, sum16 > 0xFF);
    let v = with_flag(c, FLAG_OVERFLOW, (acc ^ operand) & 0x80 == 0 && (acc ^ result) & 0x80 != 0);
    Registers { accumulator: result, status: nz_flags(v, result), ..r }
}

/// The status after comparing register value `reg` with `operand`.
pub open spec fn compare_status(status: u8, reg: u8, operand: u8) -> u8 {
    with_flag(nz_flags(status, wsub8(reg, operand)), FLAG_CARRY, reg >= operand)
}

/// Setting Z, N and then C to `z`, `n` and `c` makes those bits read so and
/// keeps the status's other bits.
proof fn lemma_zn_c_bits(status: u8, z: bool, n: bool, c: bool)
    by (bit_vector)
    ensures
        (with_flag(with_flag(with_flag(status, 0x02, z), 0x80, n), 0x01, c) & 0x01 != 0) == c,
        (with_flag(with_flag(with_flag(status, 0x02, z), 0x80, n), 0x01, c) & 0x02 != 0) == z,
        (with_flag(with_flag(with_flag(status, 0x02, z), 0x80, n), 0x01, c) & 0x80 != 0) == n,
        with_flag(with_flag(with_flag(status, 0x02, z), 0x80, n), 0x01, c) & 0x7C == status
            & 0x7C,
{
}

/// CMP, CPX and CPY: after comparing register value `reg` with `operand`,
/// the carry flag is set exactly when `reg >= operand` as unsigned bytes
/// (the subtraction needs no borrow), the zero flag exactly when they are
/// equal, the negative flag is bit 7 of `reg - operand` modulo 256, and the
/// other flags are those the status had.
pub proof fn lemma_compare_flags(status: u8, reg: u8, operand: u8)
    ensures
        (compare_status(status, reg, operand) & FLAG_CARRY != 0) == (reg >= operand),
        (compare_status(status, reg, operand) & FLAG_ZERO != 0) == (reg == operand),
        (compare_status(status, reg, operand) & FLAG_NEGATIVE != 0) == ((reg - operand) % 256
            >= 128),
        compare_status(status, reg, operand) & 0x7C == status & 0x7C,
{
    let d = wsub8(reg, operand);
    assert(d as int == (reg - operand) % 256);
    assert((d & 0x80 != 0) == (d >= 128)) by (bit_vector);
    lemma_zn_c_bits(status, d == 0, d & 0x80 != 0, reg >= operand);
}

/// CMP compares the accumulator, CPX the X register and CPY the Y register
/// with the operand: the registers and the bus stay as they were, and the
/// carry flag afterwards is set exactly when that register is at least the
/// operand, the zero flag exactly when they are equal.
pub proof fn lemma_compare_instructions<B: BusAccess>(
    c: Cpu6502,
    s: B::V,
    op: Operation,
    addr: u16,
    mode: AddressingMode,
    operand: u8,
)
    requires
        op == Operation::Cmp || op == Operation::Cpx || op == Operation::Cpy,
    ensures
        ({
            let r = c.registers;
            let reg = if op == Operation::Cmp {
                r.accumulator
            } else if op == Operation::Cpx {
                r.x_register
            } else {
                r.y_register
            };
            let (c2, s2) = c.spec_exec_op::<B>(s, op, addr, mode, operand);
            &&& s2 == s
            &&& c2.registers.accumulator == r.accumulator
            &&& c2.registers.x_register == r.x_register
            &&& c2.registers.y_register == r.y_register
            &&& c2.registers.stack_pointer == r.stack_pointer
            &&& c2.registers.program_counter == r.program_counter
            &&& (c2.registers.status & FLAG_CARRY != 0) == (reg >= operand)
            &&& (c2.registers.status & FLAG_ZERO != 0) == (reg == operand)
            &&& (c2.registers.status & FLAG_NEGATIVE != 0) == ((reg - operand) % 256 >= 128)
        }),
{
    let r = c.registers;
    lemma_compare_flags(r.status, r.accumulator, operand);
    lemma_compare_flags(r.status, r.x_register, operand);
    lemma_compare_flags(r.status, r.y_register, operand);
}

/// The addressing modes that add the X register into the address they form.
pub open spec fn indexed_by_x(mode: AddressingMode) -> bool {
    mode == AddressingMode::ZeroPageX || mode == AddressingMode::AbsoluteX || mode
        == AddressingMode::IndexedIndirect
}

/// The addressing modes that add the Y register into the address they form.
pub open spec fn indexed_by_y(mode: AddressingMode) -> bool {
    mode == AddressingMode::ZeroPageY || mode == AddressingMode::AbsoluteY || mode
        == AddressingMode::IndirectIndexed
}

/// Only the X-indexed modes depend on X, and only the Y-indexed ones on Y:
/// with any other value in the register, any other mode reads the same bytes
/// and forms the same address; the absolute indexed modes add their
/// register to the 16-bit base they read.
pub proof fn lemma_index_registers<B: BusAccess>(c: Cpu6502, s: B::V, mode: AddressingMode, v: u8)
    ensures
        ({
            let cx = c.with_registers(Registers { x_register: v, ..c.registers });
            let r = c.spec_effective_address::<B>(s, mode);
            let rx = cx.spec_effective_address::<B>(s, mode);
            !indexed_by_x(mode) ==> rx.1 == r.1 && rx.2 == r.2 && rx.3 == r.3
        }),
        ({
            let cy = c.with_registers(Registers { y_register: v, ..c.registers });
            let r = c.spec_effective_address::<B>(s, mode);
            let ry = cy.spec_effective_address::<B>(s, mode);
            !indexed_by_y(mode) ==> ry.1 == r.1 && ry.2 == r.2 && ry.3 == r.3
        }),
        ({
            let base = spec_read_u16::<B>(s, c.registers.program_counter).1;
            &&& c.spec_effective_address::<B>(s, AddressingMode::AbsoluteX).2 == wadd16(
                base,
                c.registers.x_register as u16,
            )
            &&& c.spec_effective_address::<B>(s, AddressingMode::AbsoluteY).2 == wadd16(
                base,
                c.registers.y_register as u16,
            )
        }),
{
}

/// The disassembler's mode names tell the modes apart and name the index
/// register: a name mentions X exactly for the X-indexed modes and Y exactly
/// for the Y-indexed ones.
pub proof fn lemma_mode_names(m1: AddressingMode, m2: AddressingMode)
    ensures
        mode_name(m1)@.contains('X') == indexed_by_x(m1),
        mode_name(m1)@.contains('Y') == indexed_by_y(m1),
        mode_name(m1)@ == mode_name(m2)@ ==> m1 == m2,
{
    reveal_strlit("Implied");
    reveal_strlit("Accumulator");
    reveal_strlit("Immediate");
    reveal_strlit("Zero Page");
    reveal_strlit("Zero Page, X");
    reveal_strlit("Zero Page, Y");
    reveal_strlit("Relative");
    reveal_strlit("Absolute");
    reveal_strlit("Absolute, X");
    reveal_strlit("Absolute, Y");
    reveal_strlit("Indirect");
    reveal_strlit("(Indirect, X)");
    reveal_strlit("(Indirect), Y");
    let n = mode_name(m1)@;
    match m1 {
        AddressingMode::ZeroPageX => { assert(n[11] == 'X'); },
        AddressingMode::ZeroPageY => { assert(n[11] == 'Y'); },
        AddressingMode::AbsoluteX => { assert(n[10] == 'X'); },
        AddressingMode::AbsoluteY => { assert(n[10] == 'Y'); },
        AddressingMode::IndexedIndirect => { assert(n[11] == 'X'); },
        AddressingMode::IndirectIndexed => { assert(n[12] == 'Y'); },
        _ => {},
    }
    lemma_mode_name_ends(m1);
    lemma_mode_name_ends(m2);
}

/// Length, first and last character of each mode's name.
spec fn mode_name_ends(mode: AddressingMode) -> (nat, char, char) {
    match mode {
        AddressingMode::Implied => (7, 'I', 'd'),
        AddressingMode::Accumulator => (11, 'A', 'r'),
        AddressingMode::Immediate => (9, 'I', 'e'),
        AddressingMode::ZeroPage => (9, 'Z', 'e'),
        AddressingMode::ZeroPageX => (12, 'Z', 'X'),
        AddressingMode::ZeroPageY => (12, 'Z', 'Y'),
        AddressingMode::Relative => (8, 'R', 'e'),
        AddressingMode::Absolute => (8, 'A', 'e'),
        AddressingMode::AbsoluteX => (11, 'A', 'X'),
        AddressingMode::AbsoluteY => (11, 'A', 'Y'),
        AddressingMode::Indirect => (8, 'I', 't'),
        AddressingMode::IndexedIndirect => (13, '(', ')'),
        AddressingMode::IndirectIndexed => (13, '(', 'Y'),
    }
}

proof fn lemma_mode_name_ends(mode: AddressingMode)
    ensures
        mode_name(mode)@.len() == mode_name_ends(mode).0,
        mode_name(mode)@[0] == mode_name_ends(mode).1,
        mode_name(mode)@[mode_name(mode)@.len() - 1] == mode_name_ends(mode).2,
{
    reveal_strlit("Implied");
    reveal_strlit("Accumulator");
    reveal_strlit("Immediate");
    reveal_strlit("Zero Page");
    reveal_strlit("Zero Page, X");
    reveal_strlit("Zero Page, Y");
    reveal_strlit("Relative");
    reveal_strlit("Absolute");
    reveal_strlit("Absolute, X");
    reveal_strlit("Absolute, Y");
    reveal_strlit("Indirect");
    reveal_strlit("(Indirect, X)");
    reveal_strlit("(Indirect), Y");
}

impl Cpu6502 {
    pub open spec fn with_registers(self, r: Registers) -> Cpu6502 {
        Cpu6502 { registers: r, ..self }
    }

    pub open spec fn with_pc(self, pc: u16) -> Cpu6502 {
        self.with_registers(Registers { program_counter: pc, ..self.registers })
    }

    pub open spec fn with_status(self, status: u8) -> Cpu6502 {
        self.with_registers(Registers { status, ..self.registers })
    }

    /// The CPU with `value` loaded into A (or X or Y) and N, Z set from it.
    pub open spec fn with_a_nz(self, value: u8) -> Cpu6502 {
        self.with_registers(
            Registers {
                accumulator: value,
                status: nz_flags(self.registers.status, value),
                ..self.registers
            },
        )
    }

    pub open spec fn with_x_nz(self, value: u8) -> Cpu6502 {
        self.with_registers(
            Registers {
                x_register: value,
                status: nz_flags(self.registers.status, value),
                ..self.registers
            },
        )
    }

    pub open spec fn with_y_nz(self, value: u8) -> Cpu6502 {
        self.with_registers(
            Registers {
                y_register: value,
                status: nz_flags(self.registers.status, value),
                ..self.registers
            },
        )
    }

    /// Push one byte: write at $0100 + SP, then decrement SP.
    pub open spec fn spec_push<B: BusAccess>(self, s: B::V, data: u8) -> (Cpu6502, B::V) {
        let sp = self.registers.stack_pointer;
        (
            self.with_registers(Registers { stack_pointer: wsub8(sp, 1), ..self.registers }),
            B::spec_write(s, (0x0100 + sp) as u16, data),
        )
    }

    /// Pull one byte: increment SP, then read at $0100 + SP.
    pub open spec fn spec_pull<B: BusAccess>(self, s: B::V) -> (Cpu6502, B::V, u8) {
        let sp = wadd8(self.registers.stack_pointer, 1);
        let (s1, v) = B::spec_read(s, (0x0100 + sp) as u16);
        (self.with_registers(Registers { stack_pointer: sp, ..self.registers }), s1, v)
    }

    /// Operand address and page-cross cycle of `mode`, with the operand bytes consumed.
    pub open spec fn spec_effective_address<B: BusAccess>(self, s: B::V, mode: AddressingMode) -> (
        Cpu6502,
        B::V,
        u16,
        u8,
    ) {
        let pc = self.registers.program_counter;
        let x = self.registers.x_register;
        let y = self.registers.y_register;
        match mode {
            AddressingMode::Implied | AddressingMode::Accumulator => (self, s, 0, 0),
            AddressingMode::Immediate => (self.with_pc(wadd16(pc, 1)), s, pc, 0),
            AddressingMode::ZeroPage => {
                let (s1, b) = B::spec_read(s, pc);
                (self.with_pc(wadd16(pc, 1)), s1, b as u16, 0)
            },
            AddressingMode::ZeroPageX => {
                let (s1, b) = B::spec_read(s, pc);
                (self.with_pc(wadd16(pc, 1)), s1, wadd8(b, x) as u16, 0)
            },
            AddressingMode::ZeroPageY => {
                let (s1, b) = B::spec_read(s, pc);
                (self.with_pc(wadd16(pc, 1)), s1, wadd8(b, y) as u16, 0)
            },
            AddressingMode::Absolute => {
                let (s1, a) = spec_read_u16::<B>(s, pc);
                (self.with_pc(wadd16(pc, 2)), s1, a, 0)
            },
            AddressingMode::AbsoluteX => {
                let (s1, base) = spec_read_u16::<B>(s, pc);
                let a = wadd16(base, x as u16);
                (
                    self.with_pc(wadd16(pc, 2)),
                    s1,
                    a,
                    if page_crossed(base, a) {
                        1
                    } else {
                        0
                    },
                )
            },
            AddressingMode::AbsoluteY => {
                let (s1, base) = spec_read_u16::<B>(s, pc);
                let a = wadd16(base, y as u16);
                (
                    self.with_pc(wadd16(pc, 2)),
                    s1,
                    a,
                    if page_crossed(base, a) {
                        1
                    } else {
                        0
                    },
                )
            },
            AddressingMode::Indirect => {
                let (s1, ptr) = spec_read_u16::<B>(s, pc);
                let c = self.with_pc(wadd16(pc, 2));
                if ptr & 0x00FF == 0x00FF {
                    let (s2, lo) = B::spec_read(s1, ptr);
                    let (s3, hi) = B::spec_read(s2, ptr & 0xFF00);
                    (c, s3, (hi * 256 + lo) as u16, 0)
                } else {
                    let (s2, a) = spec_read_u16::<B>(s1, ptr);
                    (c, s2, a, 0)
                }
            },
            AddressingMode::IndexedIndirect => {
                let (s1, b) = B::spec_read(s, pc);
                let (s2, a) = spec_read_u16_zp::<B>(s1, wadd8(b, x) as u16);
                (self.with_pc(wadd16(pc, 1)), s2, a, 0)
            },
            AddressingMode::IndirectIndexed => {
                let (s1, b) = B::spec_read(s, pc);
                let (s2, base) = spec_read_u16_zp::<B>(s1, b as u16);
                let a = wadd16(base, y as u16);
                (
                    self.with_pc(wadd16(pc, 1)),
                    s2,
                    a,
                    if page_crossed(base, a) {
                        1
                    } else {
                        0
                    },
                )
            },
            AddressingMode::Relative => {
                let (s1, b) = B::spec_read(s, pc);
                let pc1 = wadd16(pc, 1);
                (self.with_pc(pc1), s1, wadd16(pc1, (b as i8) as u16), 0)
            },
        }
    }
    /// The value an instruction operates on: read from memory (or the
    /// immediate byte), or the accumulator.
    pub open spec fn spec_operand<B: BusAccess>(self, s: B::V, addr: u16, mode: AddressingMode) -> (
        B::V,
        u8,
    ) {
        if mode == AddressingMode::Immediate {
            B::spec_read(s, addr)
        } else if mode == AddressingMode::Accumulator {
            (s, self.registers.accumulator)
        } else if mode != AddressingMode::Implied && mode != AddressingMode::Relative {
            B::spec_read(s, addr)
        } else {
            (s, 0)
        }
    }

    /// A shift or rotate: its input (the accumulator, or a second read of
    /// memory) and where its result goes.
    pub open spec fn spec_shift<B: BusAccess>(
        self,
        s: B::V,
        addr: u16,
        mode: AddressingMode,
        op: Operation,
    ) -> (Cpu6502, B::V) {
        let status = self.registers.status;
        let (s1, value) = if mode == AddressingMode::Accumulator {
            (s, self.registers.accumulator)
        } else {
            B::spec_read(s, addr)
        };
        let (carry_out, result) = match op {
            Operation::Asl => (value & 0x80 != 0, value << 1u8),
            Operation::Lsr => (value & 0x01 != 0, value >> 1u8),
            Operation::Rol => (
                value & 0x80 != 0,
                (value << 1u8) | (if status & FLAG_CARRY != 0 {
                    1u8
                } else {
                    0u8
                }),
            ),
            _ => (
                value & 0x01 != 0,
                (value >> 1u8) | (if status & FLAG_CARRY != 0 {
                    0x80u8
                } else {
                    0u8
                }),
            ),
        };
        let st = nz_flags(with_flag(status, FLAG_CARRY, carry_out), result);
        if mode == AddressingMode::Accumulator {
            (
                self.with_registers(
                    Registers { accumulator: result, status: st, ..self.registers },
                ),
                s1,
            )
        } else {
            (self.with_status(st), B::spec_write(s1, addr, result))
        }
    }

    /// The effect of an arithmetic, comparison, logic or flag instruction.
    pub open spec fn spec_alu(self, op: Operation, operand: u8) -> Cpu6502 {
        let r = self.registers;
        let a = r.accumulator;
        let x = r.x_register;
        let y = r.y_register;
        let status = r.status;
        match op {
            Operation::Adc => self.with_registers(adc_registers(r, operand)),
            Operation::Sbc => self.with_registers(adc_registers(r, !operand)),
            Operation::Cmp => self.with_status(compare_status(status, a, operand)),
            Operation::Cpx => self.with_status(compare_status(status, x, operand)),
            Operation::Cpy => self.with_status(compare_status(status, y, operand)),
            Operation::And => self.with_a_nz(a & operand),
            Operation::Ora => self.with_a_nz(a | operand),
            Operation::Eor => self.with_a_nz(a ^ operand),
            Operation::Bit => {
                let z = with_flag(status, FLAG_ZERO, a & operand == 0);
                self.with_status((z & 0x3F) | (operand & 0xC0))
            },
            Operation::Clc => self.with_status(with_flag(status, FLAG_CARRY, false)),
            Operation::Sec => self.with_status(with_flag(status, FLAG_CARRY, true)),
            Operation::Cli => self.with_status(with_flag(status, FLAG_INTERRUPT_DISABLE, false)),
            Operation::Sei => self.with_status(with_flag(status, FLAG_INTERRUPT_DISABLE, true)),
            Operation::Clv => self.with_status(with_flag(status, FLAG_OVERFLOW, false)),
            Operation::Cld => self.with_status(with_flag(status, FLAG_DECIMAL, false)),
            Operation::Sed => self.with_status(with_flag(status, FLAG_DECIMAL, true)),
            _ => self,
        }
    }

    /// The effect of one operation other than a taken branch.
    pub open spec fn spec_exec_op<B: BusAccess>(
        self,
        s: B::V,
        op: Operation,
        addr: u16,
        mode: AddressingMode,
        operand: u8,
    ) -> (Cpu6502, B::V) {
        let r = self.registers;
        let a = r.accumulator;
        let x = r.x_register;
        let y = r.y_register;
        let status = r.status;
        match op {
            Operation::Lda => (self.with_a_nz(operand), s),
            Operation::Ldx => (self.with_x_nz(operand), s),
            Operation::Ldy => (self.with_y_nz(operand), s),
            Operation::Sta => (self, B::spec_write(s, addr, a)),
            Operation::Stx => (self, B::spec_write(s, addr, x)),
            Operation::Sty => (self, B::spec_write(s, addr, y)),
            Operation::Tax => (self.with_x_nz(a), s),
            Operation::Tay => (self.with_y_nz(a), s),
            Operation::Tsx => (self.with_x_nz(r.stack_pointer), s),
            Operation::Txa => (self.with_a_nz(x), s),
            Operation::Txs => (self.with_registers(Registers { stack_pointer: x, ..r }), s),
            Operation::Tya => (self.with_a_nz(y), s),
            Operation::Pha => self.spec_push::<B>(s, a),
            Operation::Php => self.spec_push::<B>(s, status | FLAG_BREAK | FLAG_UNUSED),
            Operation::Pla => {
                let (c1, s1, v) = self.spec_pull::<B>(s);
                (c1.with_a_nz(v), s1)
            },
            Operation::Plp => {
                let (c1, s1, v) = self.spec_pull::<B>(s);
                (c1.with_status((v & !FLAG_BREAK) | FLAG_UNUSED), s1)
            },
            Operation::Inx => (self.with_x_nz(wadd8(x, 1)), s),
            Operation::Iny => (self.with_y_nz(wadd8(y, 1)), s),
            Operation::Dex => (self.with_x_nz(wsub8(x, 1)), s),
            Operation::Dey => (self.with_y_nz(wsub8(y, 1)), s),
            Operation::Inc => {
                let result = wadd8(operand, 1);
                (self.with_status(nz_flags(status, result)), B::spec_write(s, addr, result))
            },
            Operation::Dec => {
                let result = wsub8(operand, 1);
                (self.with_status(nz_flags(status, result)), B::spec_write(s, addr, result))
            },
            Operation::Adc | Operation::Sbc | Operation::Cmp | Operation::Cpx | Operation::Cpy
            | Operation::And | Operation::Ora | Operation::Eor | Operation::Bit | Operation::Clc
            | Operation::Sec | Operation::Cli | Operation::Sei | Operation::Clv | Operation::Cld
            | Operation::Sed => (self.spec_alu(op, operand), s),
            Operation::Asl | Operation::Lsr | Operation::Rol | Operation::Ror => self.spec_shift::<B>(
                s,
                addr,
                mode,
                op,
            ),
            Operation::Jmp => (self.with_pc(addr), s),
            Operation::Jsr => {
                let ret = wsub16(r.program_counter, 1);
                let (c1, s1) = self.spec_push::<B>(s, (ret >> 8u16) as u8);
                let (c2, s2) = c1.spec_push::<B>(s1, ret as u8);
                (c2.with_pc(addr), s2)
            },
            Operation::Rts => {
                let (c1, s1, lo) = self.spec_pull::<B>(s);
                let (c2, s2, hi) = c1.spec_pull::<B>(s1);
                (c2.with_pc(wadd16((hi * 256 + lo) as u16, 1)), s2)
            },
            Operation::Rti => {
                let (c1, s1, st) = self.spec_pull::<B>(s);
                let c1 = c1.with_status((st & !FLAG_BREAK) | FLAG_UNUSED);
                let (c2, s2, lo) = c1.spec_pull::<B>(s1);
                let (c3, s3, hi) = c2.spec_pull::<B>(s2);
                (c3.with_pc((hi * 256 + lo) as u16), s3)
            },
            Operation::Brk => {
                let pc1 = wadd16(r.program_counter, 1);
                let c0 = self.with_pc(pc1);
                let (c1, s1) = c0.spec_push::<B>(s, (pc1 >> 8u16) as u8);
                let (c2, s2) = c1.spec_push::<B>(s1, (pc1 & 0xFF) as u8);
                let (c3, s3) = c2.spec_push::<B>(s2, status | FLAG_BREAK | FLAG_UNUSED);
                let c4 = c3.with_status(c3.registers.status | FLAG_INTERRUPT_DISABLE);
                let (s4, vector) = spec_read_u16::<B>(s3, IRQ_BRK_VECTOR_ADDR);
                (Cpu6502 { brk_executed: true, ..c4.with_pc(vector) }, s4)
            },
            Operation::Lax => (
                self.with_registers(
                    Registers {
                        accumulator: operand,
                        x_register: operand,
                        status: nz_flags(status, operand),
                        ..r
                    },
                ),
                s,
            ),
            Operation::Sax => (self, B::spec_write(s, addr, a & x)),
            Operation::Slo => {
                let (s1, v) = B::spec_read(s, addr);
                let shifted = v << 1u8;
                let c = self.with_status(with_flag(status, FLAG_CARRY, v & 0x80 != 0));
                (c.with_a_nz(a | shifted), B::spec_write(s1, addr, shifted))
            },
            Operation::Rla => {
                let (s1, v) = B::spec_read(s, addr);
                let rotated = (v << 1u8) | (status & FLAG_CARRY);
                let c = self.with_status(with_flag(status, FLAG_CARRY, v & 0x80 != 0));
                (c.with_a_nz(a & rotated), B::spec_write(s1, addr, rotated))
            },
            Operation::Dcp => {
                let (s1, v) = B::spec_read(s, addr);
                let d = wsub8(v, 1);
                (self.with_status(compare_status(status, a, d)), B::spec_write(s1, addr, d))
            },
            Operation::Isc => {
                let (s1, v) = B::spec_read(s, addr);
                let i = wadd8(v, 1);
                (self.with_registers(adc_registers(r, !i)), B::spec_write(s1, addr, i))
            },
            Operation::Branch | Operation::Nop => (self, s),
        }
    }

    /// Whether an addressing mode reads its operand from memory.
    pub open spec fn reads_memory(mode: AddressingMode) -> bool {
        mode != AddressingMode::Immediate && mode != AddressingMode::Accumulator && mode
            != AddressingMode::Implied && mode != AddressingMode::Relative
    }

    /// Executes `opcode` whose operand address is `addr`; `pc` is the
    /// opcode's own address. Returns the extra cycles of a taken branch.
    pub open spec fn spec_execute<B: BusAccess>(
        self,
        s: B::V,
        opcode: u8,
        addr: u16,
        mode: AddressingMode,
        pc: u16,
    ) -> (Cpu6502, B::V, u8) {
        let (s1, operand) = self.spec_operand::<B>(s, addr, mode);
        let op = operation_of(opcode);
        if op == Operation::Branch && branch_condition(self.registers.status, opcode) {
            (
                self.with_pc(addr),
                s1,
                if page_crossed(wadd16(pc, 2), addr) {
                    2
                } else {
                    1
                },
            )
        } else {
            let (c2, s2) = self.spec_exec_op::<B>(s1, op, addr, mode, operand);
            let s3 = if Self::reads_memory(mode) {
                if addr & 0xE007 == 0x2002 {
                    B::spec_status_read_side_effects(s2)
                } else if addr & 0xE007 == 0x2007 {
                    B::spec_data_read_side_effects(s2, operand).0
                } else {
                    s2
                }
            } else {
                s2
            };
            (c2, s3, 0)
        }
    }

    /// An interrupt entry: push PC and the status byte `pushed_status`, set
    /// the interrupt-disable flag, load PC from `vector`; takes 7 cycles.
    pub open spec fn spec_interrupt<B: BusAccess>(self, s: B::V, pushed_status: u8, vector: u16) -> (
        Cpu6502,
        B::V,
    ) {
        let pc = self.registers.program_counter;
        let (c1, s1) = self.spec_push::<B>(s, (pc >> 8u16) as u8);
        let (c2, s2) = c1.spec_push::<B>(s1, (pc & 0xFF) as u8);
        let (c3, s3) = c2.spec_push::<B>(s2, pushed_status);
        let c4 = c3.with_status(c3.registers.status | FLAG_INTERRUPT_DISABLE);
        let (s4, target) = spec_read_u16::<B>(s3, vector);
        (Cpu6502 { cycles: 7, ..c4.with_pc(target) }, s4)
    }

    /// One call of `step`: the CPU and bus after it and the cycles it took.
    pub open spec fn spec_step<B: BusAccess>(self, s: B::V) -> (Cpu6502, B::V, u8) {
        if self.nmi_pending {
            let (c1, s1) = self.spec_interrupt::<B>(
                s,
                (self.registers.status & !FLAG_BREAK) | FLAG_UNUSED,
                NMI_VECTOR_ADDR,
            );
            (Cpu6502 { nmi_pending: false, ..c1 }, s1, 7)
        } else {
            let pc = self.registers.program_counter;
            let (s1, opcode) = B::spec_read(s, pc);
            let c1 = Cpu6502 { cycles: 0, ..self }.with_pc(wadd16(pc, 1));
            let (mode, base_cycles, _name) = decode_table(opcode);
            let (c2, s2, addr, addr_cycles) = c1.spec_effective_address::<B>(s1, mode);
            let (c3, s3, extra) = c2.spec_execute::<B>(s2, opcode, addr, mode, pc);
            let cycles = (base_cycles + addr_cycles + extra) as u8;
            let c4 = Cpu6502 {
                cycles,
                brk_executed: if opcode == 0 {
                    true
                } else {
                    c3.brk_executed
                },
                ..c3
            };
            (c4, s3, cycles)
        }
    }

    /// The CPU after `reset`, with PC loaded from the reset vector.
    pub open spec fn spec_reset<B: BusAccess>(self, s: B::V) -> (Cpu6502, B::V) {
        let (s1, vector) = spec_read_u16::<B>(s, RESET_VECTOR_ADDR);
        (
            Cpu6502 {
                registers: Registers {
                    accumulator: 0,
                    x_register: 0,
                    y_register: 0,
                    stack_pointer: STACK_RESET,
                    program_counter: vector,
                    status: FLAG_INTERRUPT_DISABLE | FLAG_UNUSED,
                },
                cycles: 8,
                nmi_pending: false,
                brk_executed: false,
            },
            s1,
        )
    }
}

impl Cpu6502 {
    /// The CPU as `new` builds it.
    pub open spec fn new_state() -> Cpu6502 {
        Cpu6502 {
            registers: Registers {
                accumulator: 0,
                x_register: 0,
                y_register: 0,
                stack_pointer: 0xFD,
                program_counter: 0,
                status: 0x24,
            },
            cycles: 0,
            nmi_pending: false,
            brk_executed: false,
        }
    }

    pub fn new() -> (r: Self)
        ensures
            r == Self::new_state(),
    {
        Cpu6502 {
            registers: Registers {
                accumulator: 0,
                x_register: 0,
                y_register: 0,
                stack_pointer: 0xFD,
                program_counter: 0,
                status: 0b0010_0100,
            },
            cycles: 0,
            nmi_pending: false,
            brk_executed: false,
        }
    }

    /// Loads PC from the reset vector and puts the registers in their power-up state.
    pub fn reset<B: BusAccess>(&mut self, bus: &mut B)
        requires
            B::inv(old(bus)@),
        ensures
            B::inv(final(bus)@),
            (*final(self), final(bus)@) == old(self).spec_reset::<B>(old(bus)@),
    {
        let reset_vector = bus.read_u16(RESET_VECTOR_ADDR);
        self.registers.program_counter = reset_vector;
        self.registers.accumulator = 0;
        self.registers.x_register = 0;
        self.registers.y_register = 0;
        self.registers.stack_pointer = STACK_RESET;
        self.registers.status = FLAG_INTERRUPT_DISABLE | FLAG_UNUSED;
        self.cycles = 8;
        self.nmi_pending = false;
        self.brk_executed = false;
    }

    fn push<B: BusAccess>(&mut self, bus: &mut B, data: u8)
        requires
            B::inv(old(bus)@),
        ensures
            B::inv(final(bus)@),
            (*final(self), final(bus)@) == old(self).spec_push::<B>(old(bus)@, data),
    {
        let addr = 0x0100u16 + self.registers.stack_pointer as u16;
        bus.write(addr, data);
        self.registers.stack_pointer = self.registers.stack_pointer.wrapping_sub(1);
    }

    fn pull<B: BusAccess>(&mut self, bus: &mut B) -> (r: u8)
        requires
            B::inv(old(bus)@),
        ensures
            B::inv(final(bus)@),
            (*final(self), final(bus)@, r) == old(self).spec_pull::<B>(old(bus)@),
    {
        self.registers.stack_pointer = self.registers.stack_pointer.wrapping_add(1);
        let addr = 0x0100u16 + self.registers.stack_pointer as u16;
        bus.read(addr)
    }

    fn update_nz_flags(&mut self, value: u8)
        ensures
            *final(self) == old(self).with_status(nz_flags(old(self).registers.status, value)),
    {
        if value == 0 {
            self.registers.status = self.registers.status | FLAG_ZERO;
        } else {
            self.registers.status = self.registers.status & !FLAG_ZERO;
        }
        if value & FLAG_NEGATIVE != 0 {
            self.registers.status = self.registers.status | FLAG_NEGATIVE;
        } else {
            self.registers.status = self.registers.status & !FLAG_NEGATIVE;
        }
    }

    fn compare(&mut self, reg: u8, operand: u8)
        ensures
            *final(self) == old(self).with_status(
                compare_status(old(self).registers.status, reg, operand),
            ),
    {
        let result = reg.wrapping_sub(operand);
        self.update_nz_flags(result);
        if reg >= operand {
            self.registers.status = self.registers.status | FLAG_CARRY;
        } else {
            self.registers.status = self.registers.status & !FLAG_CARRY;
        }
    }

    /// Decodes an opcode into its addressing mode, base cycle count and mnemonic.
    fn decode_opcode(&self, opcode: u8) -> (r: (AddressingMode, u8, &'static str))
        ensures
            r == decode_table(opcode),
            2 <= r.1 <= 8,
    {
        reveal(decode_table);
        match opcode {
            0x00 => (AddressingMode::Implied, 7, "BRK"),
            0xEA => (AddressingMode::Implied, 2, "NOP"),
            0xA9 => (AddressingMode::Immediate, 2, "LDA"),
            0xA5 => (AddressingMode::ZeroPage, 3, "LDA"),
            0xB5 => (AddressingMode::ZeroPageX, 4, "LDA"),
            0xAD => (AddressingMode::Absolute, 4, "LDA"),
            0xBD => (AddressingMode::AbsoluteX, 4, "LDA"),
            0xB9 => (AddressingMode::AbsoluteY, 4, "LDA"),
            0xA1 => (AddressingMode::IndexedIndirect, 6, "LDA"),
            0xB1 => (AddressingMode::IndirectIndexed, 5, "LDA"),
            0xA2 => (AddressingMode::Immediate, 2, "LDX"),
            0xA6 => (AddressingMode::ZeroPage, 3, "LDX"),
            0xB6 => (AddressingMode::ZeroPageY, 4, "LDX"),
            0xAE => (AddressingMode::Absolute, 4, "LDX"),
            0xBE => (AddressingMode::AbsoluteY, 4, "LDX"),
            0xA0 => (AddressingMode::Immediate, 2, "LDY"),
            0xA4 => (AddressingMode::ZeroPage, 3, "LDY"),
            0xB4 => (AddressingMode::ZeroPageX, 4, "LDY"),
            0xAC => (AddressingMode::Absolute, 4, "LDY"),
            0xBC => (AddressingMode::AbsoluteX, 4, "LDY"),
            0x85 => (AddressingMode::ZeroPage, 3, "STA"),
            0x95 => (AddressingMode::ZeroPageX, 4, "STA"),
            0x8D => (AddressingMode::Absolute, 4, "STA"),
            0x9D => (AddressingMode::AbsoluteX, 5, "STA"),
            0x99 => (AddressingMode::AbsoluteY, 5, "STA"),
            0x81 => (AddressingMode::IndexedIndirect, 6, "STA"),
            0x91 => (AddressingMode::IndirectIndexed, 6, "STA"),
            0x86 => (AddressingMode::ZeroPage, 3, "STX"),
            0x96 => (AddressingMode::ZeroPageY, 4, "STX"),
            0x8E => (AddressingMode::Absolute, 4, "STX"),
            0x84 => (AddressingMode::ZeroPage, 3, "STY"),
            0x94 => (AddressingMode::ZeroPageX, 4, "STY"),
            0x8C => (AddressingMode::Absolute, 4, "STY"),
            0x4C => (AddressingMode::Absolute, 3, "JMP"),
            0x6C => (AddressingMode::Indirect, 5, "JMP"),
            0x10 => (AddressingMode::Relative, 2, "BPL"),
            0x30 => (AddressingMode::Relative, 2, "BMI"),
            0x50 => (AddressingMode::Relative, 2, "BVC"),
            0x70 => (AddressingMode::Relative, 2, "BVS"),
            0x90 => (AddressingMode::Relative, 2, "BCC"),
            0xB0 => (AddressingMode::Relative, 2, "BCS"),
            0xD0 => (AddressingMode::Relative, 2, "BNE"),
            0xF0 => (AddressingMode::Relative, 2, "BEQ"),
            0x18 => (AddressingMode::Implied, 2, "CLC"),
            0x38 => (AddressingMode::Implied, 2, "SEC"),
            0x58 => (AddressingMode::Implied, 2, "CLI"),
            0x78 => (AddressingMode::Implied, 2, "SEI"),
            0xB8 => (AddressingMode::Implied, 2, "CLV"),
            0xD8 => (AddressingMode::Implied, 2, "CLD"),
            0xF8 => (AddressingMode::Implied, 2, "SED"),
            0xCA => (AddressingMode::Implied, 2, "DEX"),
            0x88 => (AddressingMode::Implied, 2, "DEY"),
            0xE8 => (AddressingMode::Implied, 2, "INX"),
            0xC8 => (AddressingMode::Implied, 2, "INY"),
            0xAA => (AddressingMode::Implied, 2, "TAX"),
            0xA8 => (AddressingMode::Implied, 2, "TAY"),
            0xBA => (AddressingMode::Implied, 2, "TSX"),
            0x8A => (AddressingMode::Implied, 2, "TXA"),
            0x9A => (AddressingMode::Implied, 2, "TXS"),
            0x98 => (AddressingMode::Implied, 2, "TYA"),
            0x48 => (AddressingMode::Implied, 3, "PHA"),
            0x08 => (AddressingMode::Implied, 3, "PHP"),
            0x68 => (AddressingMode::Implied, 4, "PLA"),
            0x28 => (AddressingMode::Implied, 4, "PLP"),
            0x20 => (AddressingMode::Absolute, 6, "JSR"),
            0x60 => (AddressingMode::Implied, 6, "RTS"),
            0x40 => (AddressingMode::Implied, 6, "RTI"),
            0x69 => (AddressingMode::Immediate, 2, "ADC"),
            0xE9 => (AddressingMode::Immediate, 2, "SBC"),
            0xC9 => (AddressingMode::Immediate, 2, "CMP"),
            0xE0 => (AddressingMode::Immediate, 2, "CPX"),
            0xC0 => (AddressingMode::Immediate, 2, "CPY"),
            0x29 => (AddressingMode::Immediate, 2, "AND"),
            0x49 => (AddressingMode::Immediate, 2, "EOR"),
            0x09 => (AddressingMode::Immediate, 2, "ORA"),
            0x24 => (AddressingMode::ZeroPage, 3, "BIT"),
            0x2C => (AddressingMode::Absolute, 4, "BIT"),
            0x0A => (AddressingMode::Accumulator, 2, "ASL"),
            0x06 => (AddressingMode::ZeroPage, 5, "ASL"),
            0x16 => (AddressingMode::ZeroPageX, 6, "ASL"),
            0x0E => (AddressingMode::Absolute, 6, "ASL"),
            0x1E => (AddressingMode::AbsoluteX, 7, "ASL"),
            0x4A => (AddressingMode::Accumulator, 2, "LSR"),
            0x46 => (AddressingMode::ZeroPage, 5, "LSR"),
            0x56 => (AddressingMode::ZeroPageX, 6, "LSR"),
            0x4E => (AddressingMode::Absolute, 6, "LSR"),
            0x5E => (AddressingMode::AbsoluteX, 7, "LSR"),
            0x2A => (AddressingMode::Accumulator, 2, "ROL"),
            0x26 => (AddressingMode::ZeroPage, 5, "ROL"),
            0x36 => (AddressingMode::ZeroPageX, 6, "ROL"),
            0x2E => (AddressingMode::Absolute, 6, "ROL"),
            0x3E => (AddressingMode::AbsoluteX, 7, "ROL"),
            0x6A => (AddressingMode::Accumulator, 2, "ROR"),
            0x66 => (AddressingMode::ZeroPage, 5, "ROR"),
            0x76 => (AddressingMode::ZeroPageX, 6, "ROR"),
            0x6E => (AddressingMode::Absolute, 6, "ROR"),
            0x7E => (AddressingMode::AbsoluteX, 7, "ROR"),
            0xE6 => (AddressingMode::ZeroPage, 5, "INC"),
            0xF6 => (AddressingMode::ZeroPageX, 6, "INC"),
            0xEE => (AddressingMode::Absolute, 6, "INC"),
            0xFE => (AddressingMode::AbsoluteX, 7, "INC"),
            0xC6 => (AddressingMode::ZeroPage, 5, "DEC"),
            0xD6 => (AddressingMode::ZeroPageX, 6, "DEC"),
            0xCE => (AddressingMode::Absolute, 6, "DEC"),
            0xDE => (AddressingMode::AbsoluteX, 7, "DEC"),
            0x65 => (AddressingMode::ZeroPage, 3, "ADC"),
            0x75 => (AddressingMode::ZeroPageX, 4, "ADC"),
            0x6D => (AddressingMode::Absolute, 4, "ADC"),
            0x7D => (AddressingMode::AbsoluteX, 4, "ADC"),
            0x79 => (AddressingMode::AbsoluteY, 4, "ADC"),
            0x61 => (AddressingMode::IndexedIndirect, 6, "ADC"),
            0x71 => (AddressingMode::IndirectIndexed, 5, "ADC"),
            0xE5 => (AddressingMode::ZeroPage, 3, "SBC"),
            0xF5 => (AddressingMode::ZeroPageX, 4, "SBC"),
            0xED => (AddressingMode::Absolute, 4, "SBC"),
            0xFD => (AddressingMode::AbsoluteX, 4, "SBC"),
            0xF9 => (AddressingMode::AbsoluteY, 4, "SBC"),
            0xE1 => (AddressingMode::IndexedIndirect, 6, "SBC"),
            0xF1 => (AddressingMode::IndirectIndexed, 5, "SBC"),
            0xC5 => (AddressingMode::ZeroPage, 3, "CMP"),
            0xD5 => (AddressingMode::ZeroPageX, 4, "CMP"),
            0xCD => (AddressingMode::Absolute, 4, "CMP"),
            0xDD => (AddressingMode::AbsoluteX, 4, "CMP"),
            0xD9 => (AddressingMode::AbsoluteY, 4, "CMP"),
            0xC1 => (AddressingMode::IndexedIndirect, 6, "CMP"),
            0xD1 => (AddressingMode::IndirectIndexed, 5, "CMP"),
            0xE4 => (AddressingMode::ZeroPage, 3, "CPX"),
            0xEC => (AddressingMode::Absolute, 4, "CPX"),
            0xC4 => (AddressingMode::ZeroPage, 3, "CPY"),
            0xCC => (AddressingMode::Absolute, 4, "CPY"),
            0x25 => (AddressingMode::ZeroPage, 3, "AND"),
            0x35 => (AddressingMode::ZeroPageX, 4, "AND"),
            0x2D => (AddressingMode::Absolute, 4, "AND"),
            0x3D => (AddressingMode::AbsoluteX, 4, "AND"),
            0x39 => (AddressingMode::AbsoluteY, 4, "AND"),
            0x21 => (AddressingMode::IndexedIndirect, 6, "AND"),
            0x31 => (AddressingMode::IndirectIndexed, 5, "AND"),
            0x05 => (AddressingMode::ZeroPage, 3, "ORA"),
            0x15 => (AddressingMode::ZeroPageX, 4, "ORA"),
            0x0D => (AddressingMode::Absolute, 4, "ORA"),
            0x1D => (AddressingMode::AbsoluteX, 4, "ORA"),
            0x19 => (AddressingMode::AbsoluteY, 4, "ORA"),
            0x01 => (AddressingMode::IndexedIndirect, 6, "ORA"),
            0x11 => (AddressingMode::IndirectIndexed, 5, "ORA"),
            0x45 => (AddressingMode::ZeroPage, 3, "EOR"),
            0x55 => (AddressingMode::ZeroPageX, 4, "EOR"),
            0x4D => (AddressingMode::Absolute, 4, "EOR"),
            0x5D => (AddressingMode::AbsoluteX, 4, "EOR"),
            0x59 => (AddressingMode::AbsoluteY, 4, "EOR"),
            0x41 => (AddressingMode::IndexedIndirect, 6, "EOR"),
            0x51 => (AddressingMode::IndirectIndexed, 5, "EOR"),
            0x02 | 0x12 | 0x22 | 0x32 | 0x42 | 0x52 | 0x62 | 0x72 | 0x92 | 0xB2 | 0xD2 | 0xF2 => (
                AddressingMode::Implied,
                2,
                "KIL*",
            ),
            0x07 => (AddressingMode::ZeroPage, 5, "SLO*"),
            0x17 => (AddressingMode::ZeroPageX, 6, "SLO*"),
            0x0F => (AddressingMode::Absolute, 6, "SLO*"),
            0x1F => (AddressingMode::AbsoluteX, 7, "SLO*"),
            0x1B => (AddressingMode::AbsoluteY, 7, "SLO*"),
            0x03 => (AddressingMode::IndexedIndirect, 8, "SLO*"),
            0x13 => (AddressingMode::IndirectIndexed, 8, "SLO*"),
            0x27 => (AddressingMode::ZeroPage, 5, "RLA*"),
            0x37 => (AddressingMode::ZeroPageX, 6, "RLA*"),
            0x2F => (AddressingMode::Absolute, 6, "RLA*"),
            0x3F => (AddressingMode::AbsoluteX, 7, "RLA*"),
            0x3B => (AddressingMode::AbsoluteY, 7, "RLA*"),
            0x23 => (AddressingMode::IndexedIndirect, 8, "RLA*"),
            0x33 => (AddressingMode::IndirectIndexed, 8, "RLA*"),
            0x47 => (AddressingMode::ZeroPage, 5, "SRE*"),
            0x57 => (AddressingMode::ZeroPageX, 6, "SRE*"),
            0x4F => (AddressingMode::Absolute, 6, "SRE*"),
            0x5F => (AddressingMode::AbsoluteX, 7, "SRE*"),
            0x5B => (AddressingMode::AbsoluteY, 7, "SRE*"),
            0x43 => (AddressingMode::IndexedIndirect, 8, "SRE*"),
            0x53 => (AddressingMode::IndirectIndexed, 8, "SRE*"),
            0x67 => (AddressingMode::ZeroPage, 5, "RRA*"),
            0x77 => (AddressingMode::ZeroPageX, 6, "RRA*"),
            0x6F => (AddressingMode::Absolute, 6, "RRA*"),
            0x7F => (AddressingMode::AbsoluteX, 7, "RRA*"),
            0x7B => (AddressingMode::AbsoluteY, 7, "RRA*"),
            0x63 => (AddressingMode::IndexedIndirect, 8, "RRA*"),
            0x73 => (AddressingMode::IndirectIndexed, 8, "RRA*"),
            0x87 => (AddressingMode::ZeroPage, 3, "SAX*"),
            0x97 => (AddressingMode::ZeroPageY, 4, "SAX*"),
            0x8F => (AddressingMode::Absolute, 4, "SAX*"),
            0x83 => (AddressingMode::IndexedIndirect, 6, "SAX*"),
            0xA7 => (AddressingMode::ZeroPage, 3, "LAX*"),
            0xB7 => (AddressingMode::ZeroPageY, 4, "LAX*"),
            0xAF => (AddressingMode::Absolute, 4, "LAX*"),
            0xBF => (AddressingMode::AbsoluteY, 4, "LAX*"),
            0xA3 => (AddressingMode::IndexedIndirect, 6, "LAX*"),
            0xB3 => (AddressingMode::IndirectIndexed, 5, "LAX*"),
            0xC7 => (AddressingMode::ZeroPage, 5, "DCP*"),
            0xD7 => (AddressingMode::ZeroPageX, 6, "DCP*"),
            0xCF => (AddressingMode::Absolute, 6, "DCP*"),
            0xDF => (AddressingMode::AbsoluteX, 7, "DCP*"),
            0xDB => (AddressingMode::AbsoluteY, 7, "DCP*"),
            0xC3 => (AddressingMode::IndexedIndirect, 8, "DCP*"),
            0xD3 => (AddressingMode::IndirectIndexed, 8, "DCP*"),
            0xE7 => (AddressingMode::ZeroPage, 5, "ISC*"),
            0xF7 => (AddressingMode::ZeroPageX, 6, "ISC*"),
            0xEF => (AddressingMode::Absolute, 6, "ISC*"),
            0xFF => (AddressingMode::AbsoluteX, 7, "ISC*"),
            0xFB => (AddressingMode::AbsoluteY, 7, "ISC*"),
            0xE3 => (AddressingMode::IndexedIndirect, 8, "ISC*"),
            0xF3 => (AddressingMode::IndirectIndexed, 8, "ISC*"),
            0x1A | 0x3A | 0x5A | 0x7A | 0xDA | 0xFA => (AddressingMode::Implied, 2, "NOP*"),
            0x80 | 0x82 | 0x89 | 0xC2 | 0xE2 => (AddressingMode::Immediate, 2, "NOP*"),
            0x04 | 0x44 | 0x64 => (AddressingMode::ZeroPage, 3, "NOP*"),
            0x14 | 0x34 | 0x54 | 0x74 | 0xD4 | 0xF4 => (AddressingMode::ZeroPageX, 4, "NOP*"),
            0x0C => (AddressingMode::Absolute, 4, "NOP*"),
            0x1C | 0x3C | 0x5C | 0x7C | 0xDC | 0xFC => (AddressingMode::AbsoluteX, 4, "NOP*"),
            _ => (AddressingMode::Implied, 2, "???"),
        }
    }

    /// The operation an opcode performs.
    fn operation(opcode: u8) -> (r: Operation)
        ensures
            r == operation_of(opcode),
    {
        match opcode {
            0xA9 | 0xA5 | 0xB5 | 0xAD | 0xBD | 0xB9 | 0xA1 | 0xB1 => Operation::Lda,
            0xA2 | 0xA6 | 0xB6 | 0xAE | 0xBE => Operation::Ldx,
            0xA0 | 0xA4 | 0xB4 | 0xAC | 0xBC => Operation::Ldy,
            0x85 | 0x95 | 0x8D | 0x9D | 0x99 | 0x81 | 0x91 => Operation::Sta,
            0x86 | 0x96 | 0x8E => Operation::Stx,
            0x84 | 0x94 | 0x8C => Operation::Sty,
            0xAA => Operation::Tax,
            0xA8 => Operation::Tay,
            0xBA => Operation::Tsx,
            0x8A => Operation::Txa,
            0x9A => Operation::Txs,
            0x98 => Operation::Tya,
            0x48 => Operation::Pha,
            0x08 => Operation::Php,
            0x68 => Operation::Pla,
            0x28 => Operation::Plp,
            0xE8 => Operation::Inx,
            0xC8 => Operation::Iny,
            0xCA => Operation::Dex,
            0x88 => Operation::Dey,
            0xE6 | 0xF6 | 0xEE | 0xFE => Operation::Inc,
            0xC6 | 0xD6 | 0xCE | 0xDE => Operation::Dec,
            0x69 | 0x65 | 0x75 | 0x6D | 0x7D | 0x79 | 0x61 | 0x71 => Operation::Adc,
            0xE9 | 0xE5 | 0xF5 | 0xED | 0xFD | 0xF9 | 0xE1 | 0xF1 => Operation::Sbc,
            0xC9 | 0xC5 | 0xD5 | 0xCD | 0xDD | 0xD9 | 0xC1 | 0xD1 => Operation::Cmp,
            0xE0 | 0xE4 | 0xEC => Operation::Cpx,
            0xC0 | 0xC4 | 0xCC => Operation::Cpy,
            0x29 | 0x25 | 0x35 | 0x2D | 0x3D | 0x39 | 0x21 | 0x31 => Operation::And,
            0x09 | 0x05 | 0x15 | 0x0D | 0x1D | 0x19 | 0x01 | 0x11 => Operation::Ora,
            0x49 | 0x45 | 0x55 | 0x4D | 0x5D | 0x59 | 0x41 | 0x51 => Operation::Eor,
            0x24 | 0x2C => Operation::Bit,
            0x18 => Operation::Clc,
            0x38 => Operation::Sec,
            0x58 => Operation::Cli,
            0x78 => Operation::Sei,
            0xB8 => Operation::Clv,
            0xD8 => Operation::Cld,
            0xF8 => Operation::Sed,
            0x0A | 0x06 | 0x16 | 0x0E | 0x1E => Operation::Asl,
            0x4A | 0x46 | 0x56 | 0x4E | 0x5E => Operation::Lsr,
            0x2A | 0x26 | 0x36 | 0x2E | 0x3E => Operation::Rol,
            0x6A | 0x66 | 0x76 | 0x6E | 0x7E => Operation::Ror,
            0x4C | 0x6C => Operation::Jmp,
            0x20 => Operation::Jsr,
            0x60 => Operation::Rts,
            0x40 => Operation::Rti,
            0x10 | 0x30 | 0x50 | 0x70 | 0x90 | 0xB0 | 0xD0 | 0xF0 => Operation::Branch,
            0x00 => Operation::Brk,
            0xA7 | 0xB7 | 0xAF | 0xBF | 0xA3 | 0xB3 => Operation::Lax,
            0x87 | 0x97 | 0x8F | 0x83 => Operation::Sax,
            0x07 | 0x17 | 0x0F | 0x1F | 0x1B | 0x03 | 0x13 => Operation::Slo,
            0x27 | 0x37 | 0x2F | 0x3F | 0x3B | 0x23 | 0x33 => Operation::Rla,
            0xC7 | 0xD7 | 0xCF | 0xDF | 0xDB | 0xC3 | 0xD3 => Operation::Dcp,
            0xE7 | 0xF7 | 0xEF | 0xFF | 0xFB | 0xE3 | 0xF3 => Operation::Isc,
            _ => Operation::Nop,
        }
    }
}

impl Cpu6502 {
    /// Computes the operand address of `mode`, consuming the operand bytes;
    /// returns it with the extra cycle of a page crossing.
    fn calculate_effective_address<B: BusAccess>(&mut self, bus: &mut B, mode: AddressingMode) -> (r: (
        u16,
        u8,
    ))
        requires
            B::inv(old(bus)@),
        ensures
            B::inv(final(bus)@),
            (*final(self), final(bus)@, r.0, r.1) == old(self).spec_effective_address::<B>(
                old(bus)@,
                mode,
            ),
    {
        let mut addr: u16 = 0;
        let mut extra_cycles: u8 = 0;
        match mode {
            AddressingMode::Implied | AddressingMode::Accumulator => {},
            AddressingMode::Immediate => {
                addr = self.registers.program_counter;
                self.registers.program_counter = self.registers.program_counter.wrapping_add(1);
            },
            AddressingMode::ZeroPage => {
                addr = bus.read(self.registers.program_counter) as u16;
                self.registers.program_counter = self.registers.program_counter.wrapping_add(1);
            },
            AddressingMode::ZeroPageX => {
                let base = bus.read(self.registers.program_counter);
                self.registers.program_counter = self.registers.program_counter.wrapping_add(1);
                addr = base.wrapping_add(self.registers.x_register) as u16;
            },
            AddressingMode::ZeroPageY => {
                let base = bus.read(self.registers.program_counter);
                self.registers.program_counter = self.registers.program_counter.wrapping_add(1);
                addr = base.wrapping_add(self.registers.y_register) as u16;
            },
            AddressingMode::Absolute => {
                addr = bus.read_u16(self.registers.program_counter);
                self.registers.program_counter = self.registers.program_counter.wrapping_add(2);
            },
            AddressingMode::AbsoluteX => {
                let base = bus.read_u16(self.registers.program_counter);
                self.registers.program_counter = self.registers.program_counter.wrapping_add(2);
                addr = base.wrapping_add(self.registers.x_register as u16);
                if (base & 0xFF00) != (addr & 0xFF00) {
                    extra_cycles = 1;
                }
            },
            AddressingMode::AbsoluteY => {
                let base = bus.read_u16(self.registers.program_counter);
                self.registers.program_counter = self.registers.program_counter.wrapping_add(2);
                addr = base.wrapping_add(self.registers.y_register as u16);
                if (base & 0xFF00) != (addr & 0xFF00) {
                    extra_cycles = 1;
                }
            },
            AddressingMode::Indirect => {
                let ptr_addr = bus.read_u16(self.registers.program_counter);
                self.registers.program_counter = self.registers.program_counter.wrapping_add(2);
                addr = if ptr_addr & 0x00FF == 0x00FF {
                    let lo = bus.read(ptr_addr) as u16;
                    let hi = bus.read(ptr_addr & 0xFF00) as u16;
                    proof {
                        lemma_u16_from_bytes(hi, lo);
                    }
                    (hi << 8u16) | lo
                } else {
                    bus.read_u16(ptr_addr)
                };
            },
            AddressingMode::IndexedIndirect => {
                let base_ptr_addr = bus.read(self.registers.program_counter);
                self.registers.program_counter = self.registers.program_counter.wrapping_add(1);
                let ptr_addr = base_ptr_addr.wrapping_add(self.registers.x_register) as u16;
                addr = bus.read_u16_zp(ptr_addr);
            },
            AddressingMode::IndirectIndexed => {
                let base_ptr_addr = bus.read(self.registers.program_counter) as u16;
                self.registers.program_counter = self.registers.program_counter.wrapping_add(1);
                let base_addr = bus.read_u16_zp(base_ptr_addr);
                addr = base_addr.wrapping_add(self.registers.y_register as u16);
                if (base_addr & 0xFF00) != (addr & 0xFF00) {
                    extra_cycles = 1;
                }
            },
            AddressingMode::Relative => {
                let offset = bus.read(self.registers.program_counter) as i8;
                self.registers.program_counter = self.registers.program_counter.wrapping_add(1);
                addr = self.registers.program_counter.wrapping_add(offset as u16);
            },
        }
        (addr, extra_cycles)
    }

    /// Loads, stores, transfers, stack operations, increments and decrements.
    fn execute_data_movement<B: BusAccess>(
        &mut self,
        bus: &mut B,
        op: Operation,
        addr: u16,
        operand_value: u8,
    )
        requires
            B::inv(old(bus)@),
            op == Operation::Lda || op == Operation::Ldx || op == Operation::Ldy || op
                == Operation::Sta || op == Operation::Stx || op == Operation::Sty || op
                == Operation::Tax || op == Operation::Tay || op == Operation::Tsx || op
                == Operation::Txa || op == Operation::Txs || op == Operation::Tya || op
                == Operation::Pha || op == Operation::Php || op == Operation::Pla || op
                == Operation::Plp || op == Operation::Inx || op == Operation::Iny || op
                == Operation::Dex || op == Operation::Dey || op == Operation::Inc || op
                == Operation::Dec || op == Operation::Lax || op == Operation::Sax,
        ensures
            B::inv(final(bus)@),
            (*final(self), final(bus)@) == old(self).spec_exec_op::<B>(
                old(bus)@,
                op,
                addr,
                AddressingMode::Implied,
                operand_value,
            ),
    {
        match op {
            Operation::Lda => {
                self.registers.accumulator = operand_value;
                self.update_nz_flags(operand_value);
            },
            Operation::Ldx => {
                self.registers.x_register = operand_value;
                self.update_nz_flags(operand_value);
            },
            Operation::Ldy => {
                self.registers.y_register = operand_value;
                self.update_nz_flags(operand_value);
            },
            Operation::Sta => {
                bus.write(addr, self.registers.accumulator);
            },
            Operation::Stx => {
                bus.write(addr, self.registers.x_register);
            },
            Operation::Sty => {
                bus.write(addr, self.registers.y_register);
            },
            Operation::Tax => {
                self.registers.x_register = self.registers.accumulator;
                self.update_nz_flags(self.registers.x_register);
            },
            Operation::Tay => {
                self.registers.y_register = self.registers.accumulator;
                self.update_nz_flags(self.registers.y_register);
            },
            Operation::Tsx => {
                self.registers.x_register = self.registers.stack_pointer;
                self.update_nz_flags(self.registers.x_register);
            },
            Operation::Txa => {
                self.registers.accumulator = self.registers.x_register;
                self.update_nz_flags(self.registers.accumulator);
            },
            Operation::Txs => {
                self.registers.stack_pointer = self.registers.x_register;
            },
            Operation::Tya => {
                self.registers.accumulator = self.registers.y_register;
                self.update_nz_flags(self.registers.accumulator);
            },
            Operation::Pha => {
                let a = self.registers.accumulator;
                self.push(bus, a);
            },
            Operation::Php => {
                let st = self.registers.status | FLAG_BREAK | FLAG_UNUSED;
                self.push(bus, st);
            },
            Operation::Pla => {
                self.registers.accumulator = self.pull(bus);
                self.update_nz_flags(self.registers.accumulator);
            },
            Operation::Plp => {
                let v = self.pull(bus);
                self.registers.status = (v & !FLAG_BREAK) | FLAG_UNUSED;
            },
            Operation::Inx => {
                self.registers.x_register = self.registers.x_register.wrapping_add(1);
                self.update_nz_flags(self.registers.x_register);
            },
            Operation::Iny => {
                self.registers.y_register = self.registers.y_register.wrapping_add(1);
                self.update_nz_flags(self.registers.y_register);
            },
            Operation::Dex => {
                self.registers.x_register = self.registers.x_register.wrapping_sub(1);
                self.update_nz_flags(self.registers.x_register);
            },
            Operation::Dey => {
                self.registers.y_register = self.registers.y_register.wrapping_sub(1);
                self.update_nz_flags(self.registers.y_register);
            },
            Operation::Inc => {
                let result = operand_value.wrapping_add(1);
                bus.write(addr, result);
                self.update_nz_flags(result);
            },
            Operation::Dec => {
                let result = operand_value.wrapping_sub(1);
                bus.write(addr, result);
                self.update_nz_flags(result);
            },
            Operation::Lax => {
                self.registers.accumulator = operand_value;
                self.registers.x_register = operand_value;
                self.update_nz_flags(operand_value);
            },
            _ => {
                let value = self.registers.accumulator & self.registers.x_register;
                bus.write(addr, value);
            },
        }
    }

    /// Arithmetic, comparisons, logic and flag instructions.
    fn execute_alu(&mut self, bus: &impl BusAccess, op: Operation, operand_value: u8)
        requires
            op == Operation::Adc || op == Operation::Sbc || op == Operation::Cmp || op
                == Operation::Cpx || op == Operation::Cpy || op == Operation::And || op
                == Operation::Ora || op == Operation::Eor || op == Operation::Bit || op
                == Operation::Clc || op == Operation::Sec || op == Operation::Cli || op
                == Operation::Sei || op == Operation::Clv || op == Operation::Cld || op
                == Operation::Sed,
        ensures
            *final(self) == old(self).spec_alu(op, operand_value),
    {
        match op {
            Operation::Adc => {
                self.add(bus, operand_value);
            },
            Operation::Sbc => {
                self.add(bus, !operand_value);
            },
            Operation::Cmp => {
                self.compare(self.registers.accumulator, operand_value);
            },
            Operation::Cpx => {
                self.compare(self.registers.x_register, operand_value);
            },
            Operation::Cpy => {
                self.compare(self.registers.y_register, operand_value);
            },
            Operation::And => {
                self.registers.accumulator = self.registers.accumulator & operand_value;
                self.update_nz_flags(self.registers.accumulator);
            },
            Operation::Ora => {
                self.registers.accumulator = self.registers.accumulator | operand_value;
                self.update_nz_flags(self.registers.accumulator);
            },
            Operation::Eor => {
                self.registers.accumulator = self.registers.accumulator ^ operand_value;
                self.update_nz_flags(self.registers.accumulator);
            },
            Operation::Bit => {
                let result = self.registers.accumulator & operand_value;
                if result == 0 {
                    self.registers.status = self.registers.status | FLAG_ZERO;
                } else {
                    self.registers.status = self.registers.status & !FLAG_ZERO;
                }
                self.registers.status = (self.registers.status & 0x3F) | (operand_value & 0xC0);
            },
            Operation::Clc => {
                self.registers.status = self.registers.status & !FLAG_CARRY;
            },
            Operation::Sec => {
                self.registers.status = self.registers.status | FLAG_CARRY;
            },
            Operation::Cli => {
                self.registers.status = self.registers.status & !FLAG_INTERRUPT_DISABLE;
            },
            Operation::Sei => {
                self.registers.status = self.registers.status | FLAG_INTERRUPT_DISABLE;
            },
            Operation::Clv => {
                self.registers.status = self.registers.status & !FLAG_OVERFLOW;
            },
            Operation::Cld => {
                self.registers.status = self.registers.status & !FLAG_DECIMAL;
            },
            _ => {
                self.registers.status = self.registers.status | FLAG_DECIMAL;
            },
        }
    }
}

impl Cpu6502 {
    /// Shifts and rotates, of the accumulator or of memory.
    fn execute_shift<B: BusAccess>(&mut self, bus: &mut B, op: Operation, addr: u16, mode: AddressingMode)
        requires
            B::inv(old(bus)@),
            op == Operation::Asl || op == Operation::Lsr || op == Operation::Rol || op
                == Operation::Ror,
        ensures
            B::inv(final(bus)@),
            (*final(self), final(bus)@) == old(self).spec_shift::<B>(old(bus)@, addr, mode, op),
    {
        let value = if mode == AddressingMode::Accumulator {
            self.registers.accumulator
        } else {
            bus.read(addr)
        };
        let result = match op {
            Operation::Asl => {
                if (value & 0x80) != 0 {
                    self.registers.status = self.registers.status | FLAG_CARRY;
                } else {
                    self.registers.status = self.registers.status & !FLAG_CARRY;
                }
                value << 1u8
            },
            Operation::Lsr => {
                if (value & 0x01) != 0 {
                    self.registers.status = self.registers.status | FLAG_CARRY;
                } else {
                    self.registers.status = self.registers.status & !FLAG_CARRY;
                }
                value >> 1u8
            },
            Operation::Rol => {
                let old_carry: u8 = if (self.registers.status & FLAG_CARRY) != 0 {
                    1
                } else {
                    0
                };
                if (value & 0x80) != 0 {
                    self.registers.status = self.registers.status | FLAG_CARRY;
                } else {
                    self.registers.status = self.registers.status & !FLAG_CARRY;
                }
                (value << 1u8) | old_carry
            },
            _ => {
                let old_carry: u8 = if (self.registers.status & FLAG_CARRY) != 0 {
                    0x80
                } else {
                    0
                };
                if (value & 0x01) != 0 {
                    self.registers.status = self.registers.status | FLAG_CARRY;
                } else {
                    self.registers.status = self.registers.status & !FLAG_CARRY;
                }
                (value >> 1u8) | old_carry
            },
        };
        self.update_nz_flags(result);
        if mode == AddressingMode::Accumulator {
            self.registers.accumulator = result;
        } else {
            bus.write(addr, result);
        }
    }

    /// Jumps, subroutine calls and returns, and BRK.
    fn execute_control<B: BusAccess>(&mut self, bus: &mut B, op: Operation, addr: u16)
        requires
            B::inv(old(bus)@),
            op == Operation::Jmp || op == Operation::Jsr || op == Operation::Rts || op
                == Operation::Rti || op == Operation::Brk,
        ensures
            B::inv(final(bus)@),
            (*final(self), final(bus)@) == old(self).spec_exec_op::<B>(
                old(bus)@,
                op,
                addr,
                AddressingMode::Implied,
                0,
            ),
    {
        match op {
            Operation::Jmp => {
                self.registers.program_counter = addr;
            },
            Operation::Jsr => {
                let return_addr = self.registers.program_counter.wrapping_sub(1);
                self.push(bus, (return_addr >> 8u16) as u8);
                self.push(bus, return_addr as u8);
                self.registers.program_counter = addr;
            },
            Operation::Rts => {
                let lo = self.pull(bus) as u16;
                let hi = self.pull(bus) as u16;
                proof {
                    lemma_u16_from_bytes(hi, lo);
                }
                self.registers.program_counter = ((hi << 8u16) | lo).wrapping_add(1);
            },
            Operation::Rti => {
                self.registers.status = self.pull(bus);
                self.registers.status = self.registers.status & !FLAG_BREAK;
                self.registers.status = self.registers.status | FLAG_UNUSED;
                let lo = self.pull(bus) as u16;
                let hi = self.pull(bus) as u16;
                proof {
                    lemma_u16_from_bytes(hi, lo);
                }
                self.registers.program_counter = (hi << 8u16) | lo;
            },
            _ => {
                self.registers.program_counter = self.registers.program_counter.wrapping_add(1);
                let pc = self.registers.program_counter;
                self.push(bus, (pc >> 8u16) as u8);
                self.push(bus, (pc & 0xFF) as u8);
                let st = self.registers.status | FLAG_BREAK | FLAG_UNUSED;
                self.push(bus, st);
                self.registers.status = self.registers.status | FLAG_INTERRUPT_DISABLE;
                self.registers.program_counter = bus.read_u16(IRQ_BRK_VECTOR_ADDR);
                self.brk_executed = true;
            },
        }
    }

    /// The unofficial read-modify-write opcodes SLO, RLA, DCP and ISC.
    fn execute_unofficial<B: BusAccess>(&mut self, bus: &mut B, op: Operation, addr: u16)
        requires
            B::inv(old(bus)@),
            op == Operation::Slo || op == Operation::Rla || op == Operation::Dcp || op
                == Operation::Isc,
        ensures
            B::inv(final(bus)@),
            (*final(self), final(bus)@) == old(self).spec_exec_op::<B>(
                old(bus)@,
                op,
                addr,
                AddressingMode::Implied,
                0,
            ),
    {
        match op {
            Operation::Slo => {
                let operand_val = bus.read(addr);
                if (operand_val & 0x80) != 0 {
                    self.registers.status = self.registers.status | FLAG_CARRY;
                } else {
                    self.registers.status = self.registers.status & !FLAG_CARRY;
                }
                let shifted = operand_val << 1u8;
                bus.write(addr, shifted);
                self.registers.accumulator = self.registers.accumulator | shifted;
                self.update_nz_flags(self.registers.accumulator);
            },
            Operation::Rla => {
                let operand_val = bus.read(addr);
                let old_carry = self.registers.status & FLAG_CARRY;
                if (operand_val & 0x80) != 0 {
                    self.registers.status = self.registers.status | FLAG_CARRY;
                } else {
                    self.registers.status = self.registers.status & !FLAG_CARRY;
                }
                let rotated = (operand_val << 1u8) | old_carry;
                bus.write(addr, rotated);
                self.registers.accumulator = self.registers.accumulator & rotated;
                self.update_nz_flags(self.registers.accumulator);
            },
            Operation::Dcp => {
                let operand_val = bus.read(addr).wrapping_sub(1);
                bus.write(addr, operand_val);
                self.compare(self.registers.accumulator, operand_val);
            },
            _ => {
                let operand_val = bus.read(addr).wrapping_add(1);
                bus.write(addr, operand_val);
                let sbc_operand = !operand_val;
                self.add(bus, sbc_operand);
            },
        }
    }

    /// Executes the operation of an opcode other than a taken branch.
    fn execute_operation<B: BusAccess>(
        &mut self,
        bus: &mut B,
        op: Operation,
        addr: u16,
        mode: AddressingMode,
        operand_value: u8,
    )
        requires
            B::inv(old(bus)@),
        ensures
            B::inv(final(bus)@),
            (*final(self), final(bus)@) == old(self).spec_exec_op::<B>(
                old(bus)@,
                op,
                addr,
                mode,
                operand_value,
            ),
    {
        match op {
            Operation::Lda | Operation::Ldx | Operation::Ldy | Operation::Sta | Operation::Stx
            | Operation::Sty | Operation::Tax | Operation::Tay | Operation::Tsx | Operation::Txa
            | Operation::Txs | Operation::Tya | Operation::Pha | Operation::Php | Operation::Pla
            | Operation::Plp | Operation::Inx | Operation::Iny | Operation::Dex | Operation::Dey
            | Operation::Inc | Operation::Dec | Operation::Lax | Operation::Sax => {
                self.execute_data_movement(bus, op, addr, operand_value);
            },
            Operation::Adc | Operation::Sbc | Operation::Cmp | Operation::Cpx | Operation::Cpy
            | Operation::And | Operation::Ora | Operation::Eor | Operation::Bit | Operation::Clc
            | Operation::Sec | Operation::Cli | Operation::Sei | Operation::Clv | Operation::Cld
            | Operation::Sed => {
                self.execute_alu(bus, op, operand_value);
            },
            Operation::Asl | Operation::Lsr | Operation::Rol | Operation::Ror => {
                self.execute_shift(bus, op, addr, mode);
            },
            Operation::Jmp | Operation::Jsr | Operation::Rts | Operation::Rti | Operation::Brk => {
                self.execute_control(bus, op, addr);
            },
            Operation::Slo | Operation::Rla | Operation::Dcp | Operation::Isc => {
                self.execute_unofficial(bus, op, addr);
            },
            Operation::Branch | Operation::Nop => {},
        }
    }

    /// Executes one decoded instruction; returns the extra cycles of a taken branch.
    pub fn execute_instruction<B: BusAccess>(
        &mut self,
        bus: &mut B,
        opcode: u8,
        addr: u16,
        mode: AddressingMode,
        current_pc: u16,
    ) -> (r: u8)
        requires
            B::inv(old(bus)@),
        ensures
            B::inv(final(bus)@),
            (*final(self), final(bus)@, r) == old(self).spec_execute::<B>(
                old(bus)@,
                opcode,
                addr,
                mode,
                current_pc,
            ),
    {
        let operand_value = if mode == AddressingMode::Immediate {
            bus.read(addr)
        } else if mode == AddressingMode::Accumulator {
            self.registers.accumulator
        } else if mode != AddressingMode::Implied && mode != AddressingMode::Relative {
            bus.read(addr)
        } else {
            0
        };
        let op = Self::operation(opcode);
        if op == Operation::Branch {
            if self.check_branch_condition(opcode) {
                let pc_after_instruction = current_pc.wrapping_add(2);
                let page_crossed = self.check_page_cross(pc_after_instruction, addr);
                self.registers.program_counter = addr;
                return 1 + if page_crossed {
                    1
                } else {
                    0
                };
            }
        }
        self.execute_operation(bus, op, addr, mode, operand_value);
        if mode != AddressingMode::Immediate && mode != AddressingMode::Accumulator && mode
            != AddressingMode::Implied && mode != AddressingMode::Relative {
            let effective_addr = addr;
            if (effective_addr & 0xE007) == 0x2002 {
                bus.ppu_status_read_side_effects();
            } else if (effective_addr & 0xE007) == 0x2007 {
                bus.ppu_data_read_side_effects(operand_value);
            }
        }
        0
    }

    fn check_branch_condition(&self, opcode: u8) -> (r: bool)
        ensures
            r == branch_condition(self.registers.status, opcode),
    {
        match opcode {
            0x10 => (self.registers.status & FLAG_NEGATIVE) == 0,
            0x30 => (self.registers.status & FLAG_NEGATIVE) != 0,
            0x50 => (self.registers.status & FLAG_OVERFLOW) == 0,
            0x70 => (self.registers.status & FLAG_OVERFLOW) != 0,
            0x90 => (self.registers.status & FLAG_CARRY) == 0,
            0xB0 => (self.registers.status & FLAG_CARRY) != 0,
            0xD0 => (self.registers.status & FLAG_ZERO) == 0,
            0xF0 => (self.registers.status & FLAG_ZERO) != 0,
            _ => false,
        }
    }

    fn check_page_cross(&self, addr1: u16, addr2: u16) -> (r: bool)
        ensures
            r == page_crossed(addr1, addr2),
    {
        (addr1 & 0xFF00) != (addr2 & 0xFF00)
    }

    /// Hardware IRQ line (no IRQ source is emulated).
    fn check_irq(&self, _bus: &impl BusAccess) -> (r: bool)
        ensures
            !r,
    {
        false
    }

    fn handle_irq<B: BusAccess>(&mut self, bus: &mut B)
        requires
            B::inv(old(bus)@),
        ensures
            B::inv(final(bus)@),
            (*final(self), final(bus)@) == old(self).spec_interrupt::<B>(
                old(bus)@,
                (old(self).registers.status & !FLAG_BREAK) | FLAG_UNUSED,
                IRQ_BRK_VECTOR_ADDR,
            ),
    {
        let pc = self.registers.program_counter;
        self.push(bus, (pc >> 8u16) as u8);
        self.push(bus, pc as u8);
        proof {
            lemma_u16_fields(pc);
        }
        let mut status_copy = self.registers.status;
        status_copy = status_copy & !FLAG_BREAK;
        status_copy = status_copy | FLAG_UNUSED;
        self.push(bus, status_copy);
        self.registers.status = self.registers.status | FLAG_INTERRUPT_DISABLE;
        self.registers.program_counter = bus.read_u16(IRQ_BRK_VECTOR_ADDR);
        self.cycles = 7;
    }

    fn handle_nmi<B: BusAccess>(&mut self, bus: &mut B) -> (r: u8)
        requires
            B::inv(old(bus)@),
        ensures
            B::inv(final(bus)@),
            (*final(self), final(bus)@) == old(self).spec_interrupt::<B>(
                old(bus)@,
                (old(self).registers.status & !FLAG_BREAK) | FLAG_UNUSED,
                NMI_VECTOR_ADDR,
            ),
            r == 7,
    {
        let pc = self.registers.program_counter;
        self.push(bus, (pc >> 8u16) as u8);
        self.push(bus, (pc & 0xFF) as u8);
        let st = (self.registers.status & !FLAG_BREAK) | FLAG_UNUSED;
        self.push(bus, st);
        self.registers.status = self.registers.status | FLAG_INTERRUPT_DISABLE;
        self.registers.program_counter = bus.read_u16(NMI_VECTOR_ADDR);
        self.cycles = 7;
        7
    }

    /// Executes one instruction (or enters a pending NMI); returns the cycles taken.
    #[verifier::rlimit(40)]
    pub fn step<B: BusAccess>(&mut self, bus: &mut B) -> (r: u8)
        requires
            B::inv(old(bus)@),
        ensures
            B::inv(final(bus)@),
            (*final(self), final(bus)@, r) == old(self).spec_step::<B>(old(bus)@),
            2 <= r <= 11,
    {
        if self.nmi_pending {
            self.handle_nmi(bus);
            self.nmi_pending = false;
            return self.cycles;
        }
        let irq_disabled = self.registers.status & FLAG_INTERRUPT_DISABLE != 0;
        if !irq_disabled && self.check_irq(bus) {
            self.handle_irq(bus);
            return self.cycles;
        }
        self.cycles = 0;
        let current_pc = self.registers.program_counter;
        let opcode = bus.read(current_pc);
        self.registers.program_counter = self.registers.program_counter.wrapping_add(1);
        let (mode, base_cycles, _instr_name) = self.decode_opcode(opcode);
        let (addr, addr_cycles) = self.calculate_effective_address(bus, mode);
        let execution_extra_cycles = self.execute_instruction(bus, opcode, addr, mode, current_pc);
        assert(addr_cycles <= 1 && execution_extra_cycles <= 2);
        self.cycles = self.cycles + base_cycles + addr_cycles + execution_extra_cycles;
        if opcode == 0x00 {
            self.brk_executed = true;
        }
        self.cycles
    }

    /// A snapshot of the registers.
    pub fn inspect(&self) -> (r: InspectState)
        ensures
            r.registers == self.registers,
            r.total_cycles == 0,
    {
        InspectState { registers: self.registers, total_cycles: 0 }
    }

    /// The stack pointer and the address it points to, in hexadecimal.
    pub fn debug_stack_pointer(&self) -> (r: String)
        ensures
            r@ == stack_pointer_text(self.registers.stack_pointer),
    {
        let sp = self.registers.stack_pointer;
        let mut s = "SP=$".to_owned();
        push_hex(&mut s, sp as u16, 2);
        s.append(" (Points to $");
        push_hex(&mut s, 0x0100 + sp as u16, 4);
        s.append(")");
        s
    }

    /// Whether a BRK instruction has been executed since the last reset.
    pub fn is_brk_executed(&self) -> (r: bool)
        ensures
            r == self.brk_executed,
    {
        self.brk_executed
    }

    /// Requests an NMI, taken at the start of the next step.
    pub fn trigger_nmi(&mut self)
        ensures
            *final(self) == (Cpu6502 { nmi_pending: true, ..*old(self) }),
    {
        self.nmi_pending = true;
    }

    /// ADC: A := A + operand + C, with C, V, N and Z updated (no decimal mode).
    pub fn add(&mut self, bus: &impl BusAccess, operand: u8)
        ensures
            *final(self) == old(self).with_registers(adc_registers(old(self).registers, operand)),
    {
        let acc = self.registers.accumulator;
        let st0 = self.registers.status;
        let carry = st0 & FLAG_CARRY;
        proof {
            lemma_u8_fields(st0);
        }
        let sum16: u16 = acc as u16 + operand as u16 + carry as u16;
        let result = sum16 as u8;
        proof {
            lemma_u16_fields(sum16);
        }
        if sum16 > 0xFF {
            self.registers.status = self.registers.status | FLAG_CARRY;
        } else {
            self.registers.status = self.registers.status & !FLAG_CARRY;
        }
        if ((acc ^ operand) & 0x80 == 0) && ((acc ^ result) & 0x80 != 0) {
            self.registers.status = self.registers.status | FLAG_OVERFLOW;
        } else {
            self.registers.status = self.registers.status & !FLAG_OVERFLOW;
        }
        self.registers.accumulator = result;
        self.update_nz_flags(result);
    }

    /// Moves PC by a signed offset; returns 2 when that crosses a page, else 1.
    pub fn branch(&mut self, offset: i8) -> (r: u8)
        ensures
            final(self).registers.program_counter == (old(self).registers.program_counter + offset)
                % 0x10000,
            *final(self) == old(self).with_pc(final(self).registers.program_counter),
            r == (if page_crossed(
                old(self).registers.program_counter,
                final(self).registers.program_counter,
            ) {
                2u8
            } else {
                1u8
            }),
    {
        let old_pc = self.registers.program_counter;
        let pc = self.registers.program_counter as i32;
        let sum: i32 = pc + offset as i32;
        let new_pc = sum & 0xFFFF;
        assert(new_pc == sum % 0x10000 && 0 <= new_pc <= 0xFFFF) by (bit_vector)
            requires
                new_pc == sum & 0xFFFF,
                -128 <= sum <= 0xFFFF + 127,
        ;
        self.registers.program_counter = new_pc as u16;
        let page_crossed = (old_pc & 0xFF00) != (self.registers.program_counter & 0xFF00);
        if page_crossed {
            2
        } else {
            1
        }
    }

    /// Mnemonic, operand byte count and addressing mode name of an opcode.
    pub fn decode_for_disassembly(&self, opcode: u8) -> (r: (&'static str, u8, &'static str))
        ensures
            r.0 == decode_table(opcode).2,
            r.1 == operand_bytes(decode_table(opcode).0),
            r.2 == mode_name(decode_table(opcode).0),
    {
        let (mode, _, name) = self.decode_opcode(opcode);
        let operand_bytes: u8 = match mode {
            AddressingMode::Implied | AddressingMode::Accumulator => 0,
            AddressingMode::Immediate | AddressingMode::ZeroPage | AddressingMode::ZeroPageX
            | AddressingMode::ZeroPageY | AddressingMode::Relative
            | AddressingMode::IndexedIndirect | AddressingMode::IndirectIndexed => 1,
            AddressingMode::Absolute | AddressingMode::AbsoluteX | AddressingMode::AbsoluteY
            | AddressingMode::Indirect => 2,
        };
        let mode_str = match mode {
            AddressingMode::Implied => "Implied",
            AddressingMode::Accumulator => "Accumulator",
            AddressingMode::Immediate => "Immediate",
            AddressingMode::ZeroPage => "Zero Page",
            AddressingMode::ZeroPageX => "Zero Page, X",
            AddressingMode::ZeroPageY => "Zero Page, Y",
            AddressingMode::Relative => "Relative",
            AddressingMode::Absolute => "Absolute",
            AddressingMode::AbsoluteX => "Absolute, X",
            AddressingMode::AbsoluteY => "Absolute, Y",
            AddressingMode::Indirect => "Indirect",
            AddressingMode::IndexedIndirect => "(Indirect, X)",
            AddressingMode::IndirectIndexed => "(Indirect), Y",
        };
        (name, operand_bytes, mode_str)
    }
}

impl Default for Cpu6502 {
    fn default() -> (r: Self)
        ensures
            r == Cpu6502::new_state(),
    {
        Self::new()
    }
}

} // verus!

verus! {

/// The value of a byte read as a two's-complement number.
pub open spec fn signed_value(b: u8) -> int {
    if b >= 128 {
        b - 256
    } else {
        b as int
    }
}

/// ADC adds with carry: the new accumulator and carry together hold
/// A + M + C; V is set exactly when the signed sum leaves -128..127; Z and
/// N describe the new accumulator; I, D and the other bits are unchanged.
#[verifier::rlimit(40)]
pub proof fn lemma_adc_arithmetic(r: Registers, m: u8)
    ensures
        ({
            let a = r.accumulator;
            let c = r.status & FLAG_CARRY;
            let r2 = adc_registers(r, m);
            let st = r2.status;
            &&& r2.accumulator + 256 * (st & FLAG_CARRY) == a + m + c
            &&& (st & FLAG_OVERFLOW != 0) == !(-128 <= signed_value(a) + signed_value(m) + c <= 127)
            &&& (st & FLAG_ZERO != 0) == (r2.accumulator == 0)
            &&& (st & FLAG_NEGATIVE != 0) == (r2.accumulator >= 128)
            &&& st & 0x3C == r.status & 0x3C
            &&& r2.x_register == r.x_register
            &&& r2.y_register == r.y_register
            &&& r2.stack_pointer == r.stack_pointer
            &&& r2.program_counter == r.program_counter
        }),
{
    let a = r.accumulator;
    let st0 = r.status;
    let c = st0 & FLAG_CARRY;
    let sum16 = a + m + c;
    let result = (sum16 % 256) as u8;
    lemma_adc_status(st0, a, m, result, sum16 > 0xFF);
    lemma_u8_fields(result);
}

/// SBC subtracts with borrow: the new accumulator is A - M - (1 - C)
/// modulo 256, and the carry is set exactly when no borrow was needed.
pub proof fn lemma_sbc_arithmetic(r: Registers, m: u8)
    ensures
        ({
            let a = r.accumulator;
            let c = r.status & FLAG_CARRY;
            let r2 = adc_registers(r, !m);
            &&& r2.accumulator == (a - m - (1 - c)) % 256
            &&& (r2.status & FLAG_CARRY != 0) == (a - m - (1 - c) >= 0)
        }),
{
    lemma_adc_arithmetic(r, !m);
    lemma_u8_fields(m);
    let st0 = r.status;
    lemma_u8_fields(st0);
    let st = adc_registers(r, !m).status;
    lemma_u8_fields(st);
}

} // verus!
