use rusty_boy::cpu::cartridge::{Cartridge, CartridgeError, LoadError, RomKind};

fn image(len: usize, kind: u8) -> Vec<u8> {
    let mut rom = vec![0u8; len];
    if len > 0x147 {
        rom[0x147] = kind;
    }
    rom
}

#[test]
fn load_mbc1_image() {
    let mut rom = image(0x8000, 0x01);
    rom[0x143] = 0x80;
    rom[0x146] = 0x03;
    rom[0x150] = 0x42;
    let cart = Cartridge::load_image(rom).unwrap();
    assert!(cart.gbc_flag());
    assert!(cart.sgb_flag());
    assert_eq!(cart.index(0x150), 0x42);
}

#[test]
fn load_rom_only_image() {
    let cart = Cartridge::load_image(image(0x8000, 0x00)).unwrap();
    assert!(!cart.gbc_flag());
    assert!(!cart.sgb_flag());
}

#[test]
fn load_unsupported_types() {
    match Cartridge::load_image(image(0x8000, 0x05)) {
        Err(LoadError::Cartridge(CartridgeError::Unsupported { rom_type })) => {
            assert_eq!(rom_type, RomKind::Mbc2)
        }
        _ => panic!("MBC2 is not supported"),
    }
    match Cartridge::load_image(image(0x8000, 0x20)) {
        Err(LoadError::Cartridge(CartridgeError::Unsupported { rom_type })) => {
            assert_eq!(rom_type, RomKind::Other(0x20))
        }
        _ => panic!("type 0x20 is not known"),
    }
}

#[test]
fn load_short_images() {
    match Cartridge::load_image(image(0x200, 0x00)) {
        Err(LoadError::Cartridge(CartridgeError::TooSmall { len })) => assert_eq!(len, 0x200),
        _ => panic!("an image under one bank is refused"),
    }
    assert!(matches!(Cartridge::load_image(image(0x10, 0x00)), Err(LoadError::Header(_))));
}

#[test]
fn ram_save_restore_roundtrip() {
    // MBC1 with RAM and battery, four 8 KiB banks
    let mut rom = image(0x8000, 0x03);
    rom[0x149] = 0x03;
    let mut cart = Cartridge::load_image(rom).unwrap();
    assert_eq!(cart.saved_ram(), vec![0u8; 0x8000]);
    let data: Vec<u8> = (0..0x8000u32).map(|i| (i % 251) as u8).collect();
    cart.restore_ram(&data);
    assert_eq!(cart.saved_ram(), data);
}

#[test]
fn ram_not_saved_without_mbc1() {
    let mut cart = Cartridge::load_image(image(0x8000, 0x00)).unwrap();
    assert_eq!(cart.saved_ram(), Vec::<u8>::new());
    cart.restore_ram(&[1, 2, 3]);
    assert_eq!(cart.saved_ram(), Vec::<u8>::new());
}

#[test]
fn unknown_size_bytes_are_header_errors() {
    let mut rom = image(0x8000, 0x00);
    rom[0x149] = 0x07;
    assert!(matches!(Cartridge::load_image(rom), Err(LoadError::Header(_))));
    let mut rom = image(0x8000, 0x00);
    rom[0x148] = 0x20;
    assert!(matches!(Cartridge::load_image(rom), Err(LoadError::Header(_))));
}

#[test]
fn cartridge_ram_reads_back_writes() {
    let mut cart = Cartridge::load_image(image(0x8000, 0x00)).unwrap();
    let next = cart.index(0xA011);
    *cart.index_mut(0xA010) = 0x5A;
    assert_eq!(cart.index(0xA010), 0x5A);
    assert_eq!(cart.index(0xA011), next);
    assert_eq!(cart.index(0x0150), 0);
}
