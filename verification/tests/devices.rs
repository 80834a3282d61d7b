use tauri_nes::apu::Apu;
use tauri_nes::controller::{Button, Controller};
use tauri_nes::debugger::Debugger;
use tauri_nes::ram::{Memory, RAM_SIZE};
use tauri_nes::registers::{AddrRegister, ControlRegister, MaskRegister, StatusRegister};

#[test]
fn controller_reads_buttons_in_order_after_strobe() {
    let mut c = Controller::new();
    c.set_button_state(Button::A, true);
    c.set_button_state(Button::Start, true);
    c.set_button_state(Button::Right, true);
    c.write(1);
    c.write(0);
    let bits: Vec<u8> = (0..9).map(|_| c.read()).collect();
    assert_eq!(bits, vec![1, 0, 0, 1, 0, 0, 0, 1, 1]);
    c.set_button_state(Button::Start, false);
    c.write(1);
    c.write(0);
    let bits: Vec<u8> = (0..8).map(|_| c.read()).collect();
    assert_eq!(bits, vec![1, 0, 0, 0, 0, 0, 0, 1]);
}

#[test]
fn controller_strobe_high_keeps_reading_a() {
    let mut c = Controller::default();
    c.set_button_state(Button::A, true);
    c.write(1);
    assert_eq!(c.read(), 1);
    assert_eq!(c.read(), 1);
    c.set_button_state(Button::A, false);
    assert_eq!(c.read(), 0);
}

#[test]
fn breakpoints() {
    let mut d = Debugger::new();
    assert!(!d.check_breakpoint(0x8000));
    d.add_breakpoint(0x8000);
    d.add_breakpoint(0x8003);
    assert!(d.check_breakpoint(0x8000));
    d.remove_breakpoint(0x8000);
    assert!(!d.check_breakpoint(0x8000));
    assert!(d.check_breakpoint(0x8003));
}

#[test]
fn apu_channels_do_nothing_yet() {
    let mut apu = Apu::new();
    apu.update_pulse_channel();
    apu.update_triangle_channel();
}

#[test]
fn memory_size() {
    let m = Memory { ram: vec![0; RAM_SIZE] };
    assert_eq!(m.ram.len(), 2048);
}

#[test]
fn control_register_fields() {
    let mut c = ControlRegister::new();
    assert_eq!(c.bits(), 0);
    assert_eq!(c.nametable_addr(), 0x2000);
    assert_eq!(c.vram_addr_increment(), 1);
    c.set_bits(0x9E);
    assert_eq!(c.nametable_addr(), 0x2800);
    assert_eq!(c.vram_addr_increment(), 32);
    assert_eq!(c.sprite_pattern_addr(), 0x1000);
    assert_eq!(c.background_pattern_addr(), 0x1000);
    assert!(!c.sprite_size_large());
    assert!(!c.master_slave_select());
    assert!(c.generate_nmi());
    assert_eq!(ControlRegister::default().bits(), 0);
}

#[test]
fn mask_register_fields() {
    let mut m = MaskRegister::new();
    m.set_bits(0b1010_1011);
    assert!(m.grayscale());
    assert!(m.show_background_leftmost());
    assert!(!m.show_sprites_leftmost());
    assert!(m.show_background());
    assert!(!m.show_sprites());
    assert!(m.emphasize_red());
    assert!(!m.emphasize_green());
    assert!(m.emphasize_blue());
    assert_eq!(MaskRegister::default().bits(), 0);
}

#[test]
fn status_register_flags_roundtrip() {
    let mut s = StatusRegister::new();
    s.set_vblank_started(true);
    s.set_sprite_overflow(true);
    assert_eq!(s.bits(), 0xA0);
    assert!(s.vblank_started() && s.sprite_overflow() && !s.sprite_zero_hit());
    s.set_sprite_zero_hit(true);
    s.set_vblank_started(false);
    assert_eq!(s.bits(), 0x60);
    assert_eq!(StatusRegister::default().bits(), 0);
}

#[test]
fn addr_register_scroll_fields() {
    let mut a = AddrRegister::new();
    a.set_coarse_x(31);
    a.set_coarse_y(29);
    a.set_fine_y(7);
    a.set_nametable_select(0);
    assert_eq!((a.coarse_x(), a.coarse_y(), a.fine_y()), (31, 29, 7));
    assert!(a.inc_coarse_x());
    assert_eq!(a.coarse_x(), 0);
    assert_eq!(a.nametable_x(), 1);
    assert!(a.inc_fine_y());
    assert_eq!((a.fine_y(), a.coarse_y(), a.nametable_y()), (0, 0, 1));
    assert!(!a.inc_fine_y());
    assert_eq!(a.fine_y(), 1);
    a.set(0x7FFF);
    a.increment(1);
    assert_eq!(a.get(), 0x0000);
    assert_eq!(a.addr(), 0x0000);
}

#[test]
fn addr_register_copies_scroll_halves() {
    let mut v = AddrRegister::new();
    let mut t = AddrRegister::new();
    t.set(0x7FFF);
    v.copy_horizontal_bits(&t);
    assert_eq!(v.get(), 0x041F);
    v.set(0);
    v.copy_vertical_bits(&t);
    assert_eq!(v.get(), 0x7BE0);
    let mut latch = true;
    let mut fine_x = 0u8;
    v.write_scroll(0x7D, &mut latch, &mut fine_x, &mut t);
    assert!(!latch);
    assert_eq!(fine_x, 5);
    assert_eq!(t.coarse_x(), 15);
    let mut latch = true;
    v.write_addr(0x21, &mut latch, &mut t);
    v.write_addr(0x08, &mut latch, &mut t);
    assert_eq!(v.get(), 0x2108);
    assert!(latch);
}
