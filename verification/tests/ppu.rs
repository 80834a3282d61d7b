use tauri_nes::bus::{Bus, BusAccess};
use tauri_nes::ppu::{FrameData, Ppu, SCREEN_HEIGHT, SCREEN_WIDTH};
use tauri_nes::Mirroring;

#[test]
fn new_ppu_is_reset() {
    let ppu = Ppu::new();
    assert_eq!(ppu.scanline, -1);
    assert_eq!(ppu.cycle, 0);
    assert_eq!(ppu.ctrl.bits(), 0xA0);
    assert_eq!(ppu.mask.bits(), 0x1E);
    assert_eq!(ppu.palette_ram[0], 0x0F);
    assert_eq!(ppu.palette_ram[0x10], 0x0F);
    assert_eq!(ppu.chr_ram[3], 0b00011000);
    assert_eq!(ppu.vram[4], 1);
    assert_eq!(ppu.vram[0x3C0], 0x55);
    assert_eq!(ppu.frame.pixels.len(), SCREEN_WIDTH * SCREEN_HEIGHT * 4);
}

#[test]
fn two_addr_writes_set_the_vram_address() {
    let mut ppu = Ppu::new();
    ppu.write_addr(0x21);
    assert_eq!(ppu.get_vram_address(), 0);
    ppu.write_addr(0x08);
    assert_eq!(ppu.get_vram_address(), 0x2108);
    ppu.write_addr(0xFF);
    ppu.write_addr(0x10);
    assert_eq!(ppu.get_vram_address(), 0x3F10);
    assert!(ppu.address_latch_low);
}

#[test]
fn two_scroll_writes_set_coarse_and_fine_scroll() {
    let mut ppu = Ppu::new();
    ppu.write_scroll(0x7D);
    assert_eq!(ppu.fine_x_scroll, 5);
    assert_eq!(ppu.temp_vram_addr.coarse_x(), 15);
    ppu.write_scroll(0x5E);
    assert_eq!(ppu.temp_vram_addr.coarse_y(), 11);
    assert_eq!(ppu.temp_vram_addr.fine_y(), 6);
    assert!(ppu.address_latch_low);
}

#[test]
fn status_read_clears_vblank_and_the_latch() {
    let mut ppu = Ppu::new();
    ppu.status.set_vblank_started(true);
    ppu.status.set_sprite_zero_hit(true);
    ppu.write_addr(0x21);
    assert!(!ppu.address_latch_low);
    assert_eq!(ppu.read_status_peek() & 0xC0, 0xC0);
    ppu.handle_status_read_side_effects();
    assert_eq!(ppu.read_status_peek(), 0x40);
    assert!(ppu.address_latch_low);
}

#[test]
fn ctrl_write_selects_the_nametable_in_t() {
    let mut ppu = Ppu::new();
    ppu.write_ctrl(0x03);
    assert_eq!(ppu.temp_vram_addr.nametable_x(), 1);
    assert_eq!(ppu.temp_vram_addr.nametable_y(), 1);
    assert_eq!(ppu.ctrl.nametable_addr(), 0x2C00);
}

#[test]
fn data_reads_are_buffered_below_the_palette() {
    let mut ppu = Ppu::new();
    ppu.data_buffer = 0x11;
    assert_eq!(ppu.handle_data_read_side_effects(0x22), 0x11);
    assert_eq!(ppu.data_buffer, 0x22);
    assert_eq!(ppu.get_vram_address(), 32);
}

#[test]
fn oam_data_write_advances_oam_addr() {
    let mut ppu = Ppu::new();
    ppu.write_oam_addr(0xFF);
    ppu.write_oam_data(0x12);
    assert_eq!(ppu.oam_data[0xFF], 0x12);
    assert_eq!(ppu.oam_addr, 0);
    assert_eq!(ppu.read_oam_data(), ppu.oam_data[0]);
}

#[test]
fn ppu_palette_write_mirrors_and_masks() {
    let mut ppu = Ppu::new();
    ppu.write_palette(0x10, 0xFF);
    assert_eq!(ppu.palette_ram[0x00], 0x3F);
    ppu.write_palette(0x25, 0x21);
    assert_eq!(ppu.palette_ram[0x05], 0x21);
}

#[test]
fn nametable_mirroring() {
    let ppu = Ppu::new();
    assert_eq!(ppu.mirror_vram_addr(0x2005, Mirroring::Horizontal), 0x005);
    assert_eq!(ppu.mirror_vram_addr(0x2405, Mirroring::Horizontal), 0x005);
    assert_eq!(ppu.mirror_vram_addr(0x2805, Mirroring::Horizontal), 0x405);
    assert_eq!(ppu.mirror_vram_addr(0x2405, Mirroring::Vertical), 0x405);
    assert_eq!(ppu.mirror_vram_addr(0x2805, Mirroring::Vertical), 0x005);
    assert_eq!(ppu.mirror_vram_addr(0x2C05, Mirroring::FourScreen), 0xC05);
    assert_eq!(ppu.mirror_vram_addr(0x2C05, Mirroring::SingleScreenLower), 0x005);
    assert_eq!(ppu.mirror_vram_addr(0x2005, Mirroring::SingleScreenUpper), 0x405);
    assert_eq!(ppu.mirror_vram_addr(0x3005, Mirroring::Horizontal), 0x005);
}

#[test]
fn dots_walk_scanlines_and_frames() {
    let mut ppu = Ppu::new();
    ppu.mask.set_bits(0);
    for _ in 0..341 {
        ppu.step_cycle(&None);
    }
    assert_eq!((ppu.scanline, ppu.cycle), (0, 0));
    for _ in 341..(262 * 341 - 1) {
        ppu.step_cycle(&None);
    }
    assert_eq!((ppu.scanline, ppu.cycle), (260, 340));
    assert!(!ppu.frame_complete);
    ppu.step_cycle(&None);
    assert_eq!((ppu.scanline, ppu.cycle), (-1, 0));
    assert!(ppu.frame_complete);
    assert_eq!(ppu.frame_counter, 1);
}

#[test]
fn vblank_starts_at_scanline_241_dot_1() {
    let mut ppu = Ppu::new();
    let mut nmi = false;
    while !(ppu.scanline == 241 && ppu.cycle == 1) {
        nmi = ppu.step_cycle(&None) || nmi;
    }
    assert!(!nmi);
    assert!(!ppu.status.vblank_started());
    assert!(ppu.step_cycle(&None));
    assert!(ppu.status.vblank_started());
    assert!(!ppu.nmi_line_low);
}

#[test]
fn vblank_without_nmi_enable_keeps_the_line_high() {
    let mut ppu = Ppu::new();
    ppu.write_ctrl(0x00);
    while !(ppu.scanline == 241 && ppu.cycle == 1) {
        ppu.step_cycle(&None);
    }
    assert!(!ppu.step_cycle(&None));
    assert!(ppu.status.vblank_started());
}

#[test]
fn debug_pattern_draws_seven_bars() {
    let mut ppu = Ppu::new();
    ppu.draw_debug_pattern();
    let px = |x: usize, y: usize| {
        let i = (y * SCREEN_WIDTH + x) * 4;
        (ppu.frame.pixels[i], ppu.frame.pixels[i + 1], ppu.frame.pixels[i + 2], ppu.frame.pixels[i + 3])
    };
    assert_eq!(px(0, 0), (255, 0, 0, 255));
    assert_eq!(px(35, 100), (255, 0, 0, 255));
    assert_eq!(px(36, 100), (0, 255, 0, 255));
    assert_eq!(px(3 * 36, 239), (255, 255, 0, 255));
    assert_eq!(px(251, 5), (255, 255, 255, 255));
    assert_eq!(px(252, 5), (0, 0, 0, 0));
}

#[test]
fn test_frame_is_the_debug_pattern() {
    let mut ppu = Ppu::new();
    let frame = ppu.get_test_frame();
    assert_eq!(frame.width, 256);
    assert_eq!(frame.height, 240);
    assert_eq!(frame.pixels, ppu.frame.pixels);
    assert_eq!(frame.pixels[36 * 4 + 1], 255);
}

#[test]
fn render_frame_copies_the_buffer() {
    let mut ppu = Ppu::new();
    ppu.frame.pixels[7] = 9;
    let f = ppu.render_frame();
    assert_eq!(f.pixels[7], 9);
    assert_eq!((f.width, f.height), (256, 240));
}

#[test]
fn frame_data_new_and_default() {
    let f = FrameData::new(4, 2);
    assert_eq!(f.pixels, vec![0u8; 32]);
    let d = FrameData::default();
    assert_eq!(d.pixels.len(), 256 * 240 * 4);
}

#[test]
fn bus_palette_mirrors() {
    let mut bus = Bus::new();
    bus.write_palette(0x3F10, 0x2A);
    assert_eq!(bus.read_palette(0x3F00), 0x2A);
    assert_eq!(bus.read_palette(0x3F10), 0x2A);
    bus.write_palette(0x3F05, 0x15);
    assert_eq!(bus.read_palette(0x3F25), 0x15);
    assert_eq!(bus.ppu_read(0x3F05), 0x15);
}

#[test]
fn cpu_writes_to_ppudata_reach_vram_through_mirroring() {
    let mut bus = Bus::new();
    bus.write(0x2006, 0x20);
    bus.write(0x2006, 0x05);
    bus.write(0x2007, 0x66);
    assert_eq!(bus.ppu_read_vram(0x2005), 0x66);
    assert_eq!(bus.ppu_read_vram(0x2405), 0x66);
    assert_eq!(bus.ppu.get_vram_address(), 0x2025);
    bus.ppu_write_vram(0x3F01, 0x31);
    assert_eq!(bus.ppu_read_vram(0x3F01), 0x31);
    bus.ppu_write(0x2810, 0x44);
    assert_eq!(bus.ppu_read(0x2C10), 0x44);
}

#[test]
fn default_ppu_is_a_new_ppu() {
    let d = Ppu::default();
    let n = Ppu::new();
    assert_eq!((d.scanline, d.cycle), (n.scanline, n.cycle));
    assert_eq!(d.palette_ram, n.palette_ram);
    assert_eq!(d.vram, n.vram);
}

#[test]
fn vram_increment_is_32_whatever_ppuctrl_bit_2_holds() {
    let mut ppu = Ppu::new();
    ppu.write_ctrl(0x00);
    ppu.write_addr(0x20);
    ppu.write_addr(0x00);
    ppu.increment_vram_addr();
    assert_eq!(ppu.get_vram_address(), 0x2020);
    ppu.write_ctrl(0x04);
    ppu.increment_vram_addr();
    assert_eq!(ppu.get_vram_address(), 0x2040);
    ppu.write_addr(0x7F);
    ppu.write_addr(0xF0);
    ppu.increment_vram_addr();
    assert_eq!(ppu.get_vram_address(), 0x0010);
}

#[test]
fn scanline_261_is_never_reached() {
    let mut ppu = Ppu::new();
    let mut max_line = -1;
    for _ in 0..(2 * 262 * 341) {
        ppu.step_cycle(&None);
        max_line = max_line.max(ppu.scanline);
    }
    assert_eq!(max_line, 260);
    assert_eq!(ppu.frame_counter, 2);
    assert_eq!((ppu.scanline, ppu.cycle), (-1, 0));
}
