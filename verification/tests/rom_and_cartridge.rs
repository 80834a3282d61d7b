use tauri_nes::cartridge::Cartridge;
use tauri_nes::{Mirroring, NesRom, RomError};

fn ines_image(prg_pages: u8, chr_pages: u8, flags6: u8, flags7: u8) -> Vec<u8> {
    let mut image = vec![0x4E, 0x45, 0x53, 0x1A, prg_pages, chr_pages, flags6, flags7];
    image.resize(16, 0);
    if flags6 & 0x04 != 0 {
        image.resize(16 + 512, 0xEE);
    }
    for i in 0..(prg_pages as usize * 16384) {
        image.push((i % 251) as u8);
    }
    for i in 0..(chr_pages as usize * 8192) {
        image.push((i % 13) as u8 + 100);
    }
    image
}

#[test]
fn parses_a_plain_image() {
    let image = ines_image(1, 1, 0x01, 0x00);
    let rom = NesRom::from_bytes(&image).unwrap();
    assert_eq!(rom.prg_rom.len(), 16384);
    assert_eq!(rom.chr_rom.len(), 8192);
    assert_eq!(rom.prg_rom[0], 0);
    assert_eq!(rom.prg_rom[300], (300 % 251) as u8);
    assert_eq!(rom.chr_rom[14], 101);
    assert_eq!(rom.mapper_id, 0);
    assert_eq!(rom.mirroring, Mirroring::Vertical);
    assert!(!rom.has_battery_backed_ram);
}

#[test]
fn skips_the_trainer() {
    let image = ines_image(1, 0, 0x04, 0x00);
    let rom = NesRom::from_bytes(&image).unwrap();
    assert_eq!(rom.prg_rom.len(), 16384);
    assert_eq!(rom.prg_rom[0], 0);
    assert_eq!(rom.prg_rom[1], 1);
    assert!(rom.chr_rom.is_empty());
    assert_eq!(rom.mirroring, Mirroring::Horizontal);
}

#[test]
fn reads_mapper_number_and_flags() {
    let image = ines_image(1, 1, 0x1B, 0x20);
    let rom = NesRom::from_bytes(&image).unwrap();
    assert_eq!(rom.mapper_id, 0x21);
    assert_eq!(rom.mirroring, Mirroring::FourScreen);
    assert!(rom.has_battery_backed_ram);
}

#[test]
fn rejects_a_short_or_unmarked_image() {
    assert!(matches!(NesRom::from_bytes(&[0x4E, 0x45, 0x53, 0x1A, 1]), Err(RomError::InvalidHeader)));
    let mut image = ines_image(1, 0, 0, 0);
    image[3] = 0x1B;
    assert!(matches!(NesRom::from_bytes(&image), Err(RomError::InvalidHeader)));
}

#[test]
fn rejects_a_truncated_image() {
    let mut image = ines_image(1, 1, 0, 0);
    image.pop();
    assert!(matches!(NesRom::from_bytes(&image), Err(RomError::SizeMismatch)));
    let mut image = ines_image(2, 0, 0, 0);
    image[4] = 3;
    assert!(matches!(NesRom::from_bytes(&image), Err(RomError::SizeMismatch)));
}

#[test]
fn mirroring_flags() {
    assert_eq!(Mirroring::Vertical.into_flags(), 0x01);
    assert_eq!(Mirroring::Horizontal.into_flags(), 0x00);
    assert_eq!(Mirroring::FourScreen.into_flags(), 0x08);
    assert_eq!(Mirroring::SingleScreenLower.into_flags(), 0x00);
    assert_eq!(Mirroring::SingleScreenUpper.into_flags(), 0x01);
}

#[test]
fn one_bank_of_prg_is_mirrored() {
    let prg: Vec<u8> = (0..16384u32).map(|i| (i % 256) as u8).collect();
    let cart = Cartridge::new(prg, vec![0; 8192], 0, 0x01).unwrap();
    assert_eq!(cart.read_prg(0x8005), 5);
    assert_eq!(cart.read_prg(0xC005), 5);
    assert_eq!(cart.read_prg(0xFFFF), 0xFF);
    assert_eq!(cart.read_prg(0x6000), 0);
    assert_eq!(cart.get_mirroring(), Mirroring::Vertical);
    assert_eq!(cart.mirror_mode(), Mirroring::Vertical);
    assert_eq!(cart.get_mapper_id(), 0);
}

#[test]
fn two_banks_of_prg_are_not_mirrored() {
    let mut prg = vec![1u8; 32768];
    prg[0x4000] = 2;
    let cart = Cartridge::new(prg, vec![], 0, 0x08).unwrap();
    assert_eq!(cart.read_prg(0x8000), 1);
    assert_eq!(cart.read_prg(0xC000), 2);
    assert_eq!(cart.get_mirroring(), Mirroring::FourScreen);
}

#[test]
fn chr_ram_keeps_what_is_written() {
    let mut cart = Cartridge::new(vec![0; 16384], vec![], 0, 0).unwrap();
    assert_eq!(cart.read_chr(0x0123), 0);
    cart.write_chr(0x0123, 0x5A);
    assert_eq!(cart.read_chr(0x0123), 0x5A);
    assert_eq!(cart.read_chr(0x2123), 0x5A);
    assert_eq!(cart.read_chr(0x0124), 0);
}

#[test]
fn chr_rom_ignores_writes() {
    let mut cart = Cartridge::new(vec![0; 16384], vec![7; 8192], 0, 0).unwrap();
    cart.write_chr(0x0010, 0x99);
    assert_eq!(cart.read_chr(0x0010), 7);
}

#[test]
fn prg_writes_are_ignored_by_mapper_0() {
    let mut cart = Cartridge::new(vec![3; 16384], vec![], 0, 0).unwrap();
    cart.write_prg(0x8000, 9);
    assert_eq!(cart.read_prg(0x8000), 3);
}

#[test]
fn unsupported_mappers_are_refused_with_their_number() {
    let e = Cartridge::new(vec![0; 16384], vec![], 1, 0).err().unwrap();
    assert_eq!(e, "Unsupported mapper ID: 1");
    let e = Cartridge::new(vec![0; 16384], vec![], 4, 0).err().unwrap();
    assert_eq!(e, "Unsupported mapper ID: 4");
    let e = Cartridge::new(vec![0; 16384], vec![], 66, 0).err().unwrap();
    assert_eq!(e, "Unsupported mapper ID: 66");
    let e = Cartridge::new(vec![0; 16384], vec![], 255, 0).err().unwrap();
    assert_eq!(e, "Unsupported mapper ID: 255");
}
