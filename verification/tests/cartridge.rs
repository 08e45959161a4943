use dancy::cartridge::mbc::mbc0::Mbc0;
use dancy::cartridge::mbc::mbc1::Mbc1;
use dancy::cartridge::mbc::Mbc;
use dancy::cartridge::{Cartridge, RomError};

/// An image of `banks` 16 KiB banks whose every byte is its bank number,
/// with the three header bytes set.
fn banked_rom(banks: usize, kind: u8, rom_code: u8, ram_code: u8) -> Vec<u8> {
    let mut rom = vec![0u8; banks * 0x4000];
    for bank in 0..banks {
        for i in 0..0x4000 {
            rom[bank * 0x4000 + i] = bank as u8;
        }
    }
    rom[0x0147] = kind;
    rom[0x0148] = rom_code;
    rom[0x0149] = ram_code;
    rom
}

#[test]
fn flat_rom_reads_through_and_ignores_writes() {
    let mut rom = banked_rom(2, 0x00, 0x00, 0x00);
    rom[0x1234] = 0x56;
    rom[0x7FFF] = 0x9A;
    let mut cart = Cartridge::new(rom).unwrap();
    assert_eq!(cart.read(0x1234), 0x56);
    assert_eq!(cart.read(0x7FFF), 0x9A);
    cart.write(0x1234, 0xFF);
    cart.write(0x2000, 0x05);
    assert_eq!(cart.read(0x1234), 0x56);
    assert_eq!(cart.read(0x4000), 0x01);
    assert_eq!(cart.read(0xA000), 0xFF);
    cart.write(0xA000, 0x12);
    assert_eq!(cart.read(0xA000), 0xFF);
    assert_eq!(cart.read(0xBFFF), 0xFF);
}

#[test]
fn short_image_has_no_header() {
    assert!(matches!(Cartridge::new(vec![0u8; 0x0149]), Err(RomError::HeaderMissing)));
    assert!(matches!(Cartridge::new(Vec::new()), Err(RomError::HeaderMissing)));
}

#[test]
fn unknown_controller_is_refused() {
    let rom = banked_rom(2, 0x08, 0x00, 0x00);
    assert!(matches!(Cartridge::new(rom), Err(RomError::UnsupportedController(0x08))));
    let rom = banked_rom(2, 0x13, 0x00, 0x00);
    assert!(matches!(Cartridge::new(rom), Err(RomError::UnsupportedController(0x13))));
}

#[test]
fn unknown_ram_size_is_refused() {
    let rom = banked_rom(2, 0x01, 0x00, 0x01);
    assert!(matches!(Cartridge::new(rom), Err(RomError::UnsupportedRamSize(0x01))));
    let rom = banked_rom(2, 0x00, 0x00, 0x06);
    assert!(matches!(Cartridge::new(rom), Err(RomError::UnsupportedRamSize(0x06))));
}

#[test]
fn unknown_rom_size_is_refused() {
    let rom = banked_rom(2, 0x01, 0x09, 0x00);
    assert!(matches!(Cartridge::new(rom), Err(RomError::UnsupportedRomSize(0x09))));
}

#[test]
fn truncated_image_is_refused() {
    let rom = banked_rom(2, 0x01, 0x01, 0x00);
    assert!(matches!(Cartridge::new(rom), Err(RomError::Truncated)));
    let mut rom = vec![0u8; 0x4000];
    rom[0x0147] = 0;
    assert!(matches!(Cartridge::new(rom), Err(RomError::Truncated)));
    assert!(matches!(Mbc0::new(vec![0u8; 0x7FFF]), Err(RomError::Truncated)));
    assert!(Mbc0::new(vec![0u8; 0x8000]).is_ok());
}

#[test]
fn mbc1_starts_on_bank_one() {
    let cart = Cartridge::new(banked_rom(4, 0x01, 0x01, 0x00)).unwrap();
    assert_eq!(cart.read(0x0000), 0);
    assert_eq!(cart.read(0x4000), 1);
    assert_eq!(cart.read(0x7FFF), 1);
}

#[test]
fn mbc1_selects_rom_banks_modulo_the_count() {
    let mut cart = Cartridge::new(banked_rom(8, 0x01, 0x02, 0x00)).unwrap();
    cart.write(0x2000, 0x03);
    assert_eq!(cart.read(0x4000), 3);
    cart.write(0x3FFF, 0x07);
    assert_eq!(cart.read(0x5000), 7);
    cart.write(0x2000, 0x0B);
    assert_eq!(cart.read(0x4000), 3);
    cart.write(0x2000, 0xE5);
    assert_eq!(cart.read(0x4000), 5);
}

#[test]
fn mbc1_bank_zero_reads_as_bank_one() {
    let mut cart = Cartridge::new(banked_rom(8, 0x01, 0x02, 0x00)).unwrap();
    cart.write(0x2000, 0x05);
    assert_eq!(cart.read(0x4000), 5);
    cart.write(0x2000, 0x00);
    assert_eq!(cart.read(0x4000), 1);
}

#[test]
fn mbc1_bank_0x20_reads_as_0x21_in_advanced_mode() {
    let mut cart = Cartridge::new(banked_rom(64, 0x01, 0x05, 0x00)).unwrap();
    cart.write(0x6000, 0x01);
    cart.write(0x4000, 0x01);
    cart.write(0x2000, 0x20);
    assert_eq!(cart.read(0x4000), 0x21);
    assert_eq!(cart.read(0x0000), 0x20);
    cart.write(0x6000, 0x00);
    assert_eq!(cart.read(0x0000), 0x00);
    assert_eq!(cart.read(0x4000), 0x21);
}

#[test]
fn mbc1_upper_bits_wrap_on_small_roms() {
    let mut cart = Cartridge::new(banked_rom(4, 0x01, 0x01, 0x00)).unwrap();
    cart.write(0x4000, 0x03);
    cart.write(0x2000, 0x02);
    assert_eq!(cart.read(0x4000), 2);
    cart.write(0x6000, 0x01);
    assert_eq!(cart.read(0x0000), 0);
}

#[test]
fn mbc1_ram_needs_enabling() {
    let mut cart = Cartridge::new(banked_rom(2, 0x03, 0x00, 0x03)).unwrap();
    assert_eq!(cart.read(0xA000), 0xFF);
    cart.write(0xA000, 0x42);
    assert_eq!(cart.read(0xA000), 0xFF);
    cart.write(0x0000, 0x0A);
    assert_eq!(cart.read(0xA000), 0x00);
    cart.write(0xA000, 0x42);
    cart.write(0xBFFF, 0x43);
    assert_eq!(cart.read(0xA000), 0x42);
    assert_eq!(cart.read(0xBFFF), 0x43);
    cart.write(0x1FFF, 0x1A);
    assert_eq!(cart.read(0xA000), 0x42);
    cart.write(0x0000, 0x0B);
    assert_eq!(cart.read(0xA000), 0xFF);
    cart.write(0x0000, 0x0A);
    assert_eq!(cart.read(0xA000), 0x42);
}

#[test]
fn mbc1_ram_banks_switch_in_advanced_mode() {
    let mut cart = Cartridge::new(banked_rom(2, 0x02, 0x00, 0x03)).unwrap();
    cart.write(0x0000, 0x0A);
    cart.write(0xA010, 0x11);
    cart.write(0x6000, 0x01);
    cart.write(0x4000, 0x02);
    assert_eq!(cart.read(0xA010), 0x00);
    cart.write(0xA010, 0x22);
    cart.write(0x4000, 0x00);
    assert_eq!(cart.read(0xA010), 0x11);
    cart.write(0x4000, 0x02);
    assert_eq!(cart.read(0xA010), 0x22);
    cart.write(0x6000, 0x00);
    assert_eq!(cart.read(0xA010), 0x11);
}

#[test]
fn mbc1_without_ram_reads_open_bus() {
    let mut cart = Cartridge::new(banked_rom(2, 0x01, 0x00, 0x00)).unwrap();
    cart.write(0x0000, 0x0A);
    cart.write(0xA000, 0x42);
    assert_eq!(cart.read(0xA000), 0xFF);
}

#[test]
fn mbc1_ram_sizes_follow_the_header() {
    for (code, banks) in [(0x00u8, 0usize), (0x02, 1), (0x03, 4), (0x04, 16), (0x05, 8)] {
        let m = Mbc1::new(banked_rom(2, 0x01, 0x00, code), false).unwrap();
        assert_eq!(m.num_of_ram_banks, banks);
        assert_eq!(m.ram.len(), banks * 0x2000);
        assert_eq!(m.num_of_rom_banks, 2);
    }
    let m = Mbc1::new(banked_rom(16, 0x01, 0x03, 0x00), true).unwrap();
    assert_eq!(m.num_of_rom_banks, 16);
    assert!(m.ram_persistent);
}

#[test]
fn mbc_trait_serves_both_controllers() {
    let mut flat = Mbc0::new(banked_rom(2, 0x00, 0x00, 0x00)).unwrap();
    assert_eq!(flat.read_rom(0x4001), 1);
    assert_eq!(flat.read_ram(0xA000), 0xFF);
    flat.write_rom(0x2000, 3);
    flat.write_ram(0xA000, 3);
    assert_eq!(flat.read_rom(0x4001), 1);
    let mut banked = Mbc1::new(banked_rom(4, 0x01, 0x01, 0x02), false).unwrap();
    banked.write_rom(0x2000, 3);
    assert_eq!(banked.read_rom(0x4001), 3);
    banked.write_rom(0x0000, 0x0A);
    banked.write_ram(0xA123, 0x77);
    assert_eq!(banked.read_ram(0xA123), 0x77);
}
