use tauri_nes::bus::BusAccess;
use tauri_nes::controller::Button;
use tauri_nes::emulator::Emulator;

/// An iNES image whose program loops on JMP $8000, with the reset and NMI
/// vectors at $8000.
fn looping_image(mapper: u8) -> Vec<u8> {
    let mut image = vec![0x4E, 0x45, 0x53, 0x1A, 1, 0, (mapper & 0x0F) << 4, mapper & 0xF0];
    image.resize(16, 0);
    let mut prg = vec![0xEAu8; 16384];
    prg[0] = 0x4C;
    prg[1] = 0x00;
    prg[2] = 0x80;
    prg[0x3FFA] = 0x00;
    prg[0x3FFB] = 0x80;
    prg[0x3FFC] = 0x00;
    prg[0x3FFD] = 0x80;
    image.extend_from_slice(&prg);
    image
}

#[test]
fn new_emulator_has_no_rom() {
    let emu = Emulator::new();
    assert!(!emu.rom_loaded);
    assert!(!emu.is_running);
    assert!(emu.rom_path.is_none());
    assert!(!emu.is_rom_loaded());
    let d = Emulator::default();
    assert!(!d.rom_loaded);
}

#[test]
fn without_a_rom_frames_are_blank() {
    let mut emu = Emulator::new();
    let f = emu.run_frame().unwrap();
    assert_eq!((f.width, f.height), (256, 240));
    assert!(f.pixels.iter().all(|&p| p == 0));
    let f = emu.get_frame().unwrap();
    assert_eq!(f.pixels.len(), 256 * 240 * 4);
    assert!(f.pixels.iter().all(|&p| p == 0));
    assert_eq!(emu.frame_count, 0);
}

#[test]
fn loads_a_rom_image() {
    let mut emu = Emulator::new();
    assert_eq!(emu.load_rom("game.nes", &looping_image(0)), Ok(()));
    assert!(emu.rom_loaded);
    assert!(emu.is_running);
    assert!(emu.is_rom_loaded());
    assert_eq!(emu.rom_path.as_deref(), Some("game.nes"));
    let r = emu.bus.get_cpu_state().registers;
    assert_eq!(r.program_counter, 0x8000);
    assert_eq!(r.stack_pointer, 0xFD);
}

#[test]
fn refuses_bad_images_and_other_mappers() {
    let mut emu = Emulator::new();
    assert_eq!(
        emu.load_rom("x.nes", &[1, 2, 3]),
        Err("ROM read error: Invalid NES ROM header".to_string())
    );
    let mut short = looping_image(0);
    short.truncate(100);
    assert_eq!(
        emu.load_rom("x.nes", &short),
        Err("ROM read error: ROM file size mismatch with header info".to_string())
    );
    assert_eq!(emu.load_rom("x.nes", &looping_image(1)), Err("Unsupported mapper ID: 1".to_string()));
    assert_eq!(emu.load_rom("x.nes", &looping_image(0x42)), Err("Unsupported mapper ID: 66".to_string()));
    assert!(!emu.rom_loaded);
    assert!(emu.rom_path.is_none());
}

#[test]
fn keys_press_controller_one_buttons() {
    let mut emu = Emulator::new();
    emu.handle_key_event("KeyZ", true);
    emu.handle_key_event("Enter", true);
    emu.handle_key_event("ArrowLeft", true);
    emu.handle_key_event("KeyQ", true);
    emu.bus.write(0x4016, 1);
    emu.bus.write(0x4016, 0);
    let bits: Vec<u8> = (0..8).map(|_| emu.bus.read(0x4016)).collect();
    assert_eq!(bits, vec![1, 0, 0, 1, 0, 0, 1, 0]);
    emu.handle_key_event("KeyZ", false);
    emu.handle_key_event("ArrowLeft", false);
    emu.handle_key_event("KeyX", true);
    emu.handle_key_event("ShiftRight", true);
    emu.handle_key_event("ArrowUp", true);
    emu.handle_key_event("ArrowDown", true);
    emu.handle_key_event("ArrowRight", true);
    emu.bus.write(0x4016, 1);
    emu.bus.write(0x4016, 0);
    let bits: Vec<u8> = (0..8).map(|_| emu.bus.read(0x4016)).collect();
    assert_eq!(bits, vec![0, 1, 1, 1, 1, 1, 0, 1]);
}

#[test]
fn run_frame_stops_at_the_end_of_a_frame() {
    let mut emu = Emulator::new();
    emu.load_rom("game.nes", &looping_image(0)).unwrap();
    let f = emu.run_frame().unwrap();
    assert_eq!(f.pixels.len(), 256 * 240 * 4);
    assert_eq!(emu.bus.ppu.frame_counter, 1);
    assert!(!emu.bus.is_frame_complete());
    assert_eq!(f.pixels, emu.bus.ppu.frame.pixels);
    assert_eq!(emu.bus.total_cycles, 0);
}

#[test]
fn get_frame_runs_a_frame_budget_at_a_time() {
    let mut emu = Emulator::new();
    emu.load_rom("game.nes", &looping_image(0)).unwrap();
    let f = emu.get_frame().unwrap();
    assert_eq!(f.pixels.len(), 256 * 240 * 4);
    assert_eq!(emu.frame_count, 1);
    assert!(emu.bus.total_cycles >= 29780 && emu.bus.total_cycles < 29780 + 8);
    assert_eq!(emu.frame_complete, emu.bus.ppu.frame_counter == 1);
    if !emu.frame_complete {
        emu.get_frame().unwrap();
        assert_eq!(emu.frame_count, 2);
        assert!(emu.frame_complete);
    }
    assert_eq!(emu.bus.ppu.frame_counter, 1);
    assert!(!emu.bus.is_frame_complete());
}

#[test]
fn test_mode_serves_the_test_frame() {
    let mut emu = Emulator::new();
    emu.load_rom("game.nes", &looping_image(0)).unwrap();
    assert_eq!(emu.toggle_test_mode(), Ok(()));
    assert!(emu.bus.test_mode);
    let f = emu.get_frame().unwrap();
    assert!(f.pixels[..256 * 240 * 3].iter().all(|&p| p == 0x0D));
    assert_eq!(emu.frame_count, 0);
    let g = emu.get_ppu_test_frame().unwrap();
    assert_eq!(f.pixels, g.pixels);
    emu.toggle_test_mode().unwrap();
    assert!(!emu.bus.test_mode);
}

#[test]
fn reset_returns_to_the_reset_vector() {
    let mut emu = Emulator::new();
    emu.load_rom("game.nes", &looping_image(0)).unwrap();
    emu.bus.set_cpu_pc(0x8123);
    emu.reset();
    assert_eq!(emu.bus.get_cpu_state().registers.program_counter, 0x8000);
}

#[test]
fn button_key_codes_map_back_to_their_buttons() {
    let buttons = [
        Button::A,
        Button::B,
        Button::Select,
        Button::Start,
        Button::Up,
        Button::Down,
        Button::Left,
        Button::Right,
    ];
    let codes: Vec<&str> = buttons.iter().map(|&b| tauri_nes::emulator::button_key_code(b)).collect();
    assert_eq!(codes, vec!["KeyZ", "KeyX", "ShiftRight", "Enter", "ArrowUp", "ArrowDown", "ArrowLeft", "ArrowRight"]);
    for (i, code) in codes.iter().enumerate() {
        let mut emu = Emulator::new();
        emu.handle_key_event(code, true);
        emu.bus.write(0x4016, 1);
        emu.bus.write(0x4016, 0);
        let bits: Vec<u8> = (0..8).map(|_| emu.bus.read(0x4016)).collect();
        let mut expected = vec![0u8; 8];
        expected[i] = 1;
        assert_eq!(bits, expected);
    }
}

#[test]
fn space_toggles_test_mode() {
    let mut emu = Emulator::new();
    assert_eq!(emu.handle_keyboard_event("Space", false), Ok(()));
    assert!(!emu.bus.test_mode);
    assert_eq!(emu.handle_keyboard_event("KeyZ", true), Ok(()));
    assert!(!emu.bus.test_mode);
    assert_eq!(emu.handle_keyboard_event("Space", true), Ok(()));
    assert!(emu.bus.test_mode);
    assert_eq!(emu.handle_keyboard_event("Space", true), Ok(()));
    assert!(!emu.bus.test_mode);
}
