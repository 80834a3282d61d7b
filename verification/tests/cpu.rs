use tauri_nes::bus::{Bus, BusAccess};
use tauri_nes::cartridge::Cartridge;
use tauri_nes::cpu::{AddressingMode, Cpu6502};

/// A bus with a 16 KiB PRG cartridge holding `program` at $8000, the
/// reset vector at $8000 and the NMI vector at $9000.
fn bus_with_program(program: &[u8]) -> Bus {
    let mut prg = vec![0xEAu8; 16384];
    prg[..program.len()].copy_from_slice(program);
    prg[0x1000] = 0x40; // RTI at $9000
    prg[0x3FFA] = 0x00;
    prg[0x3FFB] = 0x90;
    prg[0x3FFC] = 0x00;
    prg[0x3FFD] = 0x80;
    prg[0x3FFE] = 0x00;
    prg[0x3FFF] = 0xA0;
    let cart = Cartridge::new(prg, vec![], 0, 0).unwrap();
    let mut bus = Bus::new();
    bus.insert_cartridge(cart);
    bus
}

#[test]
fn reset_loads_the_reset_vector() {
    let bus = bus_with_program(&[]);
    let r = bus.get_cpu_state().registers;
    assert_eq!(r.program_counter, 0x8000);
    assert_eq!(r.stack_pointer, 0xFD);
    assert_eq!(r.status, 0x24);
    assert_eq!(r.accumulator, 0);
    assert_eq!(bus.total_cycles, 0);
}

#[test]
fn new_cpu_state() {
    let cpu = Cpu6502::new();
    assert_eq!(cpu.registers.stack_pointer, 0xFD);
    assert_eq!(cpu.registers.status, 0x24);
    assert_eq!(cpu.registers.program_counter, 0);
    assert!(!cpu.is_brk_executed());
    let d = Cpu6502::default();
    assert_eq!(d.registers.status, 0x24);
}

#[test]
fn lda_immediate_sets_a_and_flags() {
    let mut bus = bus_with_program(&[0xA9, 0x42, 0xA9, 0x00, 0xA9, 0x80]);
    assert_eq!(bus.clock(), 2);
    let r = bus.get_cpu_state().registers;
    assert_eq!(r.accumulator, 0x42);
    assert_eq!(r.program_counter, 0x8002);
    assert_eq!(r.status & 0x82, 0);
    bus.clock();
    assert_eq!(bus.get_cpu_state().registers.status & 0x02, 0x02);
    bus.clock();
    let r = bus.get_cpu_state().registers;
    assert_eq!(r.status & 0x82, 0x80);
    assert_eq!(bus.total_cycles, 6);
}

#[test]
fn adc_sets_overflow_on_signed_overflow() {
    let bus = Bus::new();
    let mut cpu = Cpu6502::new();
    cpu.registers.accumulator = 0x50;
    cpu.add(&bus, 0x50);
    assert_eq!(cpu.registers.accumulator, 0xA0);
    assert_eq!(cpu.registers.status, 0x24 | 0x40 | 0x80);
}

#[test]
fn adc_carries_out_and_zeroes() {
    let bus = Bus::new();
    let mut cpu = Cpu6502::new();
    cpu.registers.accumulator = 0xFF;
    cpu.add(&bus, 0x01);
    assert_eq!(cpu.registers.accumulator, 0x00);
    assert_eq!(cpu.registers.status, 0x24 | 0x01 | 0x02);
    cpu.add(&bus, 0x10);
    assert_eq!(cpu.registers.accumulator, 0x11);
    assert_eq!(cpu.registers.status, 0x24);
}

#[test]
fn adc_law_on_all_small_sums() {
    let bus = Bus::new();
    for a in [0u8, 1, 0x7F, 0x80, 0xFE, 0xFF] {
        for m in [0u8, 1, 0x7F, 0x80, 0xFF] {
            for c in [0u8, 1] {
                let mut cpu = Cpu6502::new();
                cpu.registers.accumulator = a;
                cpu.registers.status = 0x24 | c;
                cpu.add(&bus, m);
                let carry = (cpu.registers.status & 1) as u32;
                assert_eq!(cpu.registers.accumulator as u32 + 256 * carry, a as u32 + m as u32 + c as u32);
                let signed = a as i8 as i32 + m as i8 as i32 + c as i32;
                assert_eq!(cpu.registers.status & 0x40 != 0, !(-128..=127).contains(&signed));
            }
        }
    }
}

#[test]
fn sbc_subtracts_with_borrow() {
    // SEC; LDA #5; SBC #3; SEC; LDA #3; SBC #5
    let mut bus = bus_with_program(&[0x38, 0xA9, 0x05, 0xE9, 0x03, 0x38, 0xA9, 0x03, 0xE9, 0x05]);
    for _ in 0..3 {
        bus.clock();
    }
    let r = bus.get_cpu_state().registers;
    assert_eq!(r.accumulator, 2);
    assert_eq!(r.status & 0x01, 0x01);
    for _ in 0..3 {
        bus.clock();
    }
    let r = bus.get_cpu_state().registers;
    assert_eq!(r.accumulator, 0xFE);
    assert_eq!(r.status & 0x01, 0x00);
    assert_eq!(r.status & 0x80, 0x80);
}

#[test]
fn push_then_pull_restores_the_byte_and_stack() {
    // LDA #$77; PHA; LDA #$00; PLA
    let mut bus = bus_with_program(&[0xA9, 0x77, 0x48, 0xA9, 0x00, 0x68]);
    bus.clock();
    bus.clock();
    assert_eq!(bus.get_cpu_state().registers.stack_pointer, 0xFC);
    assert_eq!(bus.debug_read(0x01FD), 0x77);
    bus.clock();
    assert_eq!(bus.get_cpu_state().registers.accumulator, 0);
    bus.clock();
    let r = bus.get_cpu_state().registers;
    assert_eq!(r.accumulator, 0x77);
    assert_eq!(r.stack_pointer, 0xFD);
}

#[test]
fn jsr_and_rts() {
    let mut program = vec![0x20, 0x10, 0x80];
    program.resize(0x10, 0xEA);
    program.push(0x60);
    let mut bus = bus_with_program(&program);
    assert_eq!(bus.clock(), 6);
    let r = bus.get_cpu_state().registers;
    assert_eq!(r.program_counter, 0x8010);
    assert_eq!(r.stack_pointer, 0xFB);
    assert_eq!(bus.debug_read(0x01FD), 0x80);
    assert_eq!(bus.debug_read(0x01FC), 0x02);
    assert_eq!(bus.clock(), 6);
    let r = bus.get_cpu_state().registers;
    assert_eq!(r.program_counter, 0x8003);
    assert_eq!(r.stack_pointer, 0xFD);
}

#[test]
fn taken_branch_costs_extra_cycles() {
    // LDA #0; BEQ +2; (skipped) ; NOP
    let mut bus = bus_with_program(&[0xA9, 0x00, 0xF0, 0x02, 0xEA, 0xEA, 0xEA]);
    bus.clock();
    assert_eq!(bus.clock(), 3);
    assert_eq!(bus.get_cpu_state().registers.program_counter, 0x8006);
}

#[test]
fn branch_reports_page_crossing() {
    let mut cpu = Cpu6502::new();
    cpu.registers.program_counter = 0x80F0;
    assert_eq!(cpu.branch(0x20), 2);
    assert_eq!(cpu.registers.program_counter, 0x8110);
    cpu.registers.program_counter = 0x8020;
    assert_eq!(cpu.branch(-0x10), 1);
    assert_eq!(cpu.registers.program_counter, 0x8010);
    cpu.registers.program_counter = 0x0005;
    assert_eq!(cpu.branch(-0x10), 2);
    assert_eq!(cpu.registers.program_counter, 0xFFF5);
}

#[test]
fn nmi_enters_the_nmi_vector() {
    let mut bus = bus_with_program(&[0xEA]);
    bus.get_cpu().trigger_nmi();
    assert_eq!(bus.clock(), 7);
    let r = bus.get_cpu_state().registers;
    assert_eq!(r.program_counter, 0x9000);
    assert_eq!(r.stack_pointer, 0xFA);
    assert_eq!(r.status & 0x04, 0x04);
    assert_eq!(bus.debug_read(0x01FD), 0x80);
    assert_eq!(bus.debug_read(0x01FC), 0x00);
    assert_eq!(bus.debug_read(0x01FB) & 0x30, 0x20);
}

#[test]
fn brk_is_detected() {
    let mut bus = bus_with_program(&[0x00]);
    assert!(!bus.is_brk_detected());
    assert_eq!(bus.clock(), 7);
    assert!(bus.is_brk_detected());
    assert_eq!(bus.get_cpu_state().registers.program_counter, 0xA000);
    assert_eq!(bus.debug_read(0x01FB) & 0x10, 0x10);
}

#[test]
fn disassembly_names() {
    let cpu = Cpu6502::new();
    assert_eq!(cpu.decode_for_disassembly(0xA9), ("LDA", 1, "Immediate"));
    assert_eq!(cpu.decode_for_disassembly(0x8D), ("STA", 2, "Absolute"));
    assert_eq!(cpu.decode_for_disassembly(0xEA), ("NOP", 0, "Implied"));
    assert_eq!(cpu.decode_for_disassembly(0xB1), ("LDA", 1, "(Indirect), Y"));
}

#[test]
fn stack_pointer_text() {
    let mut cpu = Cpu6502::new();
    assert_eq!(cpu.debug_stack_pointer(), "SP=$FD (Points to $01FD)");
    cpu.registers.stack_pointer = 0x0A;
    assert_eq!(cpu.debug_stack_pointer(), "SP=$0A (Points to $010A)");
}

#[test]
fn inspect_copies_registers() {
    let mut cpu = Cpu6502::new();
    cpu.registers.x_register = 9;
    let s = cpu.inspect();
    assert_eq!(s.registers.x_register, 9);
    assert_eq!(s.total_cycles, 0);
}

#[test]
fn set_cpu_pc_moves_execution() {
    let mut bus = bus_with_program(&[0xEA, 0xEA, 0xA9, 0x33]);
    bus.set_cpu_pc(0x8002);
    bus.clock();
    assert_eq!(bus.get_cpu_state().registers.accumulator, 0x33);
}

#[test]
fn bus_reads_16_bit_words_little_endian() {
    let mut bus = bus_with_program(&[]);
    assert_eq!(bus.read_u16(0xFFFC), 0x8000);
    bus.write_u16(0x0010, 0xBEEF);
    assert_eq!(bus.read(0x0010), 0xEF);
    assert_eq!(bus.read(0x0011), 0xBE);
    bus.write(0x00FF, 0x34);
    bus.write(0x0000, 0x12);
    assert_eq!(bus.read_u16_zp(0x00FF), 0x1234);
}

#[test]
fn store_to_ppudata_also_runs_the_read_side_effects() {
    // LDA #$5A; STA $2007
    let mut bus = bus_with_program(&[0xA9, 0x5A, 0x8D, 0x07, 0x20]);
    bus.write_ppu_mask(0x00);
    bus.write(0x2006, 0x20);
    bus.write(0x2006, 0x40);
    bus.ppu_write_vram(0x2040, 0x11);
    bus.ppu.data_buffer = 0x33;
    bus.clock();
    bus.clock();
    assert_eq!(bus.ppu_read_vram(0x2040), 0x5A);
    assert_eq!(bus.ppu.get_vram_address(), 0x2080);
    assert_eq!(bus.ppu.data_buffer, 0x11);
}

#[test]
fn load_from_ppudata_reads_vram_and_refills_the_buffer() {
    // LDA $2007
    let mut bus = bus_with_program(&[0xAD, 0x07, 0x20]);
    bus.write_ppu_mask(0x00);
    bus.ppu_write_vram(0x2040, 0x77);
    bus.write(0x2006, 0x20);
    bus.write(0x2006, 0x40);
    bus.ppu.data_buffer = 0x33;
    bus.clock();
    assert_eq!(bus.get_cpu_state().registers.accumulator, 0x77);
    assert_eq!(bus.ppu.data_buffer, 0x77);
    assert_eq!(bus.ppu.get_vram_address(), 0x2060);
}

#[test]
fn store_to_ppustatus_also_runs_the_read_side_effects() {
    // STA $2002
    let mut bus = bus_with_program(&[0x8D, 0x02, 0x20]);
    bus.ppu.scanline = 100;
    bus.ppu.status.set_vblank_started(true);
    bus.write(0x2006, 0x21);
    assert!(!bus.ppu.address_latch_low);
    bus.clock();
    assert!(!bus.ppu.status.vblank_started());
    assert!(bus.ppu.address_latch_low);
}

#[test]
fn jsr_then_rts_restores_the_registers() {
    let mut program = vec![0xA2, 0x05, 0x20, 0x20, 0x80];
    program.resize(0x20, 0xEA);
    program.push(0x60);
    let mut bus = bus_with_program(&program);
    bus.clock();
    let before = bus.get_cpu_state().registers;
    bus.clock();
    bus.clock();
    let after = bus.get_cpu_state().registers;
    assert_eq!(after.program_counter, before.program_counter + 3);
    assert_eq!(after.stack_pointer, before.stack_pointer);
    assert_eq!((after.accumulator, after.x_register, after.status), (before.accumulator, before.x_register, before.status));
    assert_eq!(bus.debug_read(0x01FD), 0x80);
    assert_eq!(bus.debug_read(0x01FC), 0x04);
}

#[test]
fn execute_instruction_jsr_then_rts_returns_past_the_call() {
    let mut bus = Bus::new();
    let mut cpu = Cpu6502::new();
    cpu.registers.program_counter = 0x0203;
    cpu.registers.stack_pointer = 0xFD;
    let extra = cpu.execute_instruction(&mut bus, 0x20, 0x0400, AddressingMode::Absolute, 0x0200);
    assert_eq!(extra, 0);
    assert_eq!(cpu.registers.program_counter, 0x0400);
    assert_eq!(cpu.registers.stack_pointer, 0xFB);
    assert_eq!(bus.read(0x01FD), 0x02);
    assert_eq!(bus.read(0x01FC), 0x02);
    let extra = cpu.execute_instruction(&mut bus, 0x60, 0, AddressingMode::Implied, 0x0400);
    assert_eq!(extra, 0);
    assert_eq!(cpu.registers.program_counter, 0x0203);
    assert_eq!(cpu.registers.stack_pointer, 0xFD);
}
