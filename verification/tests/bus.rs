use tauri_nes::bus::{Bus, BusAccess};
use tauri_nes::cartridge::Cartridge;
use tauri_nes::ppu::FrameData;

#[test]
fn ram_is_mirrored_every_2k() {
    let mut bus = Bus::new();
    bus.write(0x0001, 0x55);
    assert_eq!(bus.read(0x0801), 0x55);
    assert_eq!(bus.read(0x1001), 0x55);
    assert_eq!(bus.read(0x1801), 0x55);
    bus.write(0x1FFF, 0xAA);
    assert_eq!(bus.read(0x07FF), 0xAA);
    assert_eq!(bus.read(0x0002), 0x00);
    assert_eq!(bus.mem_read(0x0801), 0x55);
}

#[test]
fn unmapped_reads_give_zero_and_empty_slot_reads_give_ff() {
    let mut bus = Bus::new();
    assert_eq!(bus.read(0x4000), 0);
    assert_eq!(bus.read(0x4018), 0);
    assert_eq!(bus.read(0x8000), 0xFF);
    assert_eq!(bus.read(0x2000), 0);
}

#[test]
fn controller_port_shifts_out_buttons() {
    let mut bus = Bus::new();
    bus.controller1.set_button_state(tauri_nes::controller::Button::B, true);
    bus.write(0x4016, 1);
    bus.write(0x4016, 0);
    let bits: Vec<u8> = (0..10).map(|_| bus.read(0x4016)).collect();
    assert_eq!(bits, vec![0, 1, 0, 0, 0, 0, 0, 0, 1, 1]);
    assert_eq!(bus.read(0x4017), 0);
}

#[test]
fn ppustatus_read_through_the_cpu_is_a_peek() {
    let mut bus = Bus::new();
    bus.ppu.status.set_vblank_started(true);
    assert_eq!(bus.read(0x2002), 0x80);
    assert_eq!(bus.read(0x200A), 0x80);
    bus.ppu_status_read_side_effects();
    assert_eq!(bus.read(0x2002), 0x00);
}

#[test]
fn oam_dma_copies_a_page_when_started_on_an_odd_cycle() {
    let mut bus = Bus::new();
    for i in 0..256u16 {
        bus.write(0x0200 + i, (i as u8) ^ 0x5A);
    }
    bus.total_cycles = 1;
    bus.write(0x4014, 0x02);
    assert_eq!(bus.oam_dma_cycles_remaining, 514);
    for _ in 0..512 {
        assert_eq!(bus.clock(), 0);
    }
    assert_eq!(bus.oam_dma_cycles_remaining, 0);
    for i in 0..256usize {
        assert_eq!(bus.ppu.oam_data[i], (i as u8) ^ 0x5A);
    }
    assert_eq!(bus.total_cycles, 1);
}

#[test]
fn oam_dma_on_an_even_cycle_stores_the_latch_first() {
    let mut bus = Bus::new();
    for i in 0..256u16 {
        bus.write(0x0300 + i, 0x80 | (i as u8 & 0x7F));
    }
    bus.write(0x4014, 0x03);
    assert_eq!(bus.oam_dma_cycles_remaining, 513);
    for _ in 0..511 {
        assert_eq!(bus.clock(), 0);
    }
    assert_eq!(bus.oam_dma_cycles_remaining, 0);
    assert_eq!(bus.ppu.oam_data[0], 0);
    for i in 1..256usize {
        assert_eq!(bus.ppu.oam_data[i], 0x80 | (i as u8 & 0x7F));
    }
    assert_eq!(bus.total_cycles, 0);
}

#[test]
fn oam_dma_copies_a_cartridge_page() {
    let prg: Vec<u8> = (0..16384u32).map(|i| (i % 253) as u8).collect();
    let mut bus = Bus::new();
    bus.insert_cartridge(Cartridge::new(prg, vec![], 0, 0).unwrap());
    let pc = bus.get_cpu_state().registers.program_counter;
    bus.total_cycles = 1;
    bus.write(0x4014, 0x85);
    for _ in 0..512 {
        assert_eq!(bus.clock(), 0);
    }
    assert_eq!(bus.oam_dma_cycles_remaining, 0);
    for i in 0..256usize {
        assert_eq!(bus.ppu.oam_data[i], ((0x0500 + i) % 253) as u8);
    }
    assert_eq!(bus.get_cpu_state().registers.program_counter, pc);
}

#[test]
fn debug_read_has_no_side_effects() {
    let mut bus = Bus::new();
    bus.write(0x0003, 9);
    assert_eq!(bus.debug_read(0x0803), 9);
    assert_eq!(bus.debug_read(0x4016), 0);
    assert_eq!(bus.debug_read(0x2002), 0);
    assert_eq!(bus.debug_read(0x9000), 0xFF);
    bus.write(0x2003, 0x10);
    bus.write(0x2004, 0x77);
    bus.write(0x2003, 0x10);
    assert_eq!(bus.debug_read(0x2004), 0x77);
    let cart = Cartridge::new(vec![0x42; 16384], vec![], 0, 0).unwrap();
    bus.insert_cartridge(cart);
    assert_eq!(bus.debug_read(0x9000), 0x42);
    assert_eq!(bus.debug_read(0x6000), 0);
}

#[test]
fn test_frame_without_cartridge_is_the_backdrop_colour() {
    let mut bus = Bus::new();
    let frame = bus.get_ppu_test_frame().unwrap();
    assert!(bus.test_pattern_rendered);
    assert_eq!(frame.width, 256);
    assert_eq!(frame.height, 240);
    assert_eq!(frame.pixels.len(), 256 * 240 * 4);
    assert!(frame.pixels[..256 * 240 * 3].iter().all(|&p| p == 0x0D));
    assert!(frame.pixels[256 * 240 * 3..].iter().all(|&p| p == 0));
}

#[test]
fn test_pattern_fills_nametable_attributes_and_palette() {
    let mut bus = Bus::new();
    bus.init_test_pattern();
    assert_eq!(bus.ppu.vram[0], 0);
    assert_eq!(bus.ppu.vram[33], 1);
    assert_eq!(bus.ppu.vram[959], 31);
    assert_eq!(bus.ppu.vram[0x3C0], 0x00);
    assert_eq!(bus.ppu.vram[0x3C8], 0x55);
    assert_eq!(bus.ppu.vram[0x3D0], 0xAA);
    assert_eq!(bus.ppu.vram[0x3D8], 0xFF);
    assert_eq!(bus.ppu.vram[0x3E0], 0x00);
    assert_eq!(bus.ppu.palette_ram[0], 0x0D);
    assert_eq!(bus.ppu.palette_ram[1], 0x11);
    assert_eq!(bus.ppu.palette_ram[12], 0x29);
    assert!(bus.test_pattern_rendered);
}

#[test]
fn test_frame_draws_chr_ram_tiles() {
    let mut bus = Bus::new();
    let mut cart = Cartridge::new(vec![0; 16384], vec![], 0, 0).unwrap();
    // tile 1, row 0: leftmost pixel uses colour 3
    cart.write_chr(16, 0x80);
    cart.write_chr(24, 0x80);
    bus.insert_cartridge(cart);
    let frame = bus.get_ppu_test_frame().unwrap();
    // pixel (8, 0) is tile 1's top-left: palette 0 entry 3 -> $3F03 = 0x31
    assert_eq!(frame.pixels[8 * 3], 0x31);
    assert_eq!(frame.pixels[9 * 3], 0x0D);
}

#[test]
fn toggling_test_mode_twice_resets() {
    let mut bus = Bus::new();
    bus.write(0x0000, 1);
    bus.toggle_test_mode();
    assert!(bus.test_mode);
    assert!(!bus.test_pattern_rendered);
    assert_eq!(bus.debug_read(0x0000), 1);
    bus.toggle_test_mode();
    assert!(!bus.test_mode);
    assert_eq!(bus.debug_read(0x0000), 0);
}

#[test]
fn reset_clears_ram_and_counts() {
    let mut bus = Bus::new();
    bus.write(0x0100, 5);
    bus.total_cycles = 77;
    bus.reset();
    assert_eq!(bus.debug_read(0x0100), 0);
    assert_eq!(bus.total_cycles, 0);
    assert!(bus.is_rom_loaded() == false);
}

#[test]
fn frame_accessors() {
    let mut bus = Bus::new();
    bus.set_ppu_frame(FrameData::new(2, 1));
    assert_eq!(bus.get_ppu_frame().pixels, vec![0; 8]);
    assert_eq!(bus.get_ppu_frame_direct().width, 2);
    bus.ppu.frame_complete = true;
    assert!(bus.is_frame_complete());
    bus.reset_frame_complete();
    assert!(!bus.is_frame_complete());
    bus.write_ppu_mask(0x18);
    assert!(bus.ppu.mask.show_background());
    assert_eq!(bus.get_ppu().mask.bits(), 0x18);
    bus.get_cpu_state_mut().registers.accumulator = 3;
    assert_eq!(bus.get_cpu_state().registers.accumulator, 3);
    bus.handle_key_event("KeyZ", true);
}

#[test]
fn tick_reports_frame_completion() {
    let mut prg = vec![0xEAu8; 16384];
    prg[0] = 0x4C;
    prg[1] = 0x00;
    prg[2] = 0x80;
    prg[0x3FFA] = 0x00;
    prg[0x3FFB] = 0x80;
    prg[0x3FFC] = 0x00;
    prg[0x3FFD] = 0x80;
    let mut bus = Bus::new();
    bus.insert_cartridge(Cartridge::new(prg, vec![], 0, 0).unwrap());
    let mut ticks = 0;
    while bus.tick() != Some(true) {
        ticks += 1;
        assert!(ticks < 20000);
    }
    assert_eq!(bus.ppu.frame_counter, 1);
    assert!(bus.total_cycles * 3 >= 262 * 341);
}

#[test]
fn step_ppu_takes_one_dot() {
    let mut bus = Bus::new();
    bus.step_ppu();
    assert_eq!(bus.ppu.cycle, 1);
}

#[test]
fn debug_memory_reads_a_range() {
    let mut bus = Bus::new();
    bus.write(0x0010, 1);
    bus.write(0x0011, 2);
    bus.write(0x0012, 3);
    assert_eq!(bus.debug_memory(0x0810, 4), vec![1, 2, 3, 0]);
    assert_eq!(bus.debug_memory(0x8000, 2), vec![0xFF, 0xFF]);
    assert!(bus.debug_memory(0x0000, 0).is_empty());
}

#[test]
fn invariant_check() {
    let mut bus = Bus::new();
    assert!(bus.invariant_holds());
    bus.ppu.cycle = 341;
    assert!(!bus.invariant_holds());
    bus.ppu.cycle = 340;
    assert!(bus.invariant_holds());
    bus.cpu_ram.ram.pop();
    assert!(!bus.invariant_holds());
}
