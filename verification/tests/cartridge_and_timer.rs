//! Cartridge image validation and the timer's falling-edge counter.

use beni_boy_color::cartridge::{get_ext_ram_size, get_rom_size, Cartridge, CartridgeError};
use beni_boy_color::timer::Timer;

#[test]
fn rom_size_table() {
    assert_eq!(get_rom_size(0x00), Some(0x008000));
    assert_eq!(get_rom_size(0x04), Some(0x080000));
    assert_eq!(get_rom_size(0x08), Some(0x800000));
    assert_eq!(get_rom_size(0x09), None);
    assert_eq!(get_rom_size(0xFF), None);
}

#[test]
fn ext_ram_size_table() {
    assert_eq!(get_ext_ram_size(0x00), Some(0x00000));
    assert_eq!(get_ext_ram_size(0x02), Some(0x02000));
    assert_eq!(get_ext_ram_size(0x03), Some(0x08000));
    assert_eq!(get_ext_ram_size(0x04), Some(0x20000));
    assert_eq!(get_ext_ram_size(0x05), Some(0x10000));
    assert_eq!(get_ext_ram_size(0x01), None);
    assert_eq!(get_ext_ram_size(0x06), None);
}

#[test]
fn too_short_image_is_rejected() {
    let rom = vec![0u8; 0x14F];
    assert!(matches!(Cartridge::new(rom), Err(CartridgeError::InvalidRomError)));
}

#[test]
fn unknown_rom_size_code_is_rejected() {
    let mut rom = vec![0u8; 0x8000];
    rom[0x148] = 0x09;
    assert!(matches!(Cartridge::new(rom), Err(CartridgeError::InvalidRomError)));
}

#[test]
fn mismatched_rom_length_is_rejected() {
    // the header declares 64 KiB but the image holds 32 KiB
    let mut rom = vec![0u8; 0x8000];
    rom[0x148] = 0x01;
    assert!(matches!(Cartridge::new(rom), Err(CartridgeError::InvalidRomError)));
}

#[test]
fn unknown_ram_size_code_is_rejected() {
    let mut rom = vec![0u8; 0x8000];
    rom[0x149] = 0x01;
    assert!(matches!(Cartridge::new(rom), Err(CartridgeError::InvalidRomError)));
}

#[test]
fn valid_image_is_accepted() {
    let mut rom = vec![0u8; 0x10000];
    rom[0x148] = 0x01;
    rom[0x149] = 0x03;
    rom[0x4000] = 0x7E;
    let mut cart = Cartridge::new(rom).unwrap();
    assert_eq!(cart.read_rom(0x4000), 0x7E);
    assert_eq!(cart.ram_len(), 0x8000);
    cart.write_ram(0x1234, 0x55);
    assert_eq!(cart.read_ram(0x1234), 0x55);
    // ROM writes would drive a mapper; none is configured
    cart.write_rom(0x4000, 0x00);
    assert_eq!(cart.read_rom(0x4000), 0x7E);
}

#[test]
fn timer_counts_on_falling_edges() {
    let mut t = Timer::new();
    let mut iflag: u8 = 0;
    // enable the timer, clock select 1: divider bit 3, one count per
    // four machine-cycles
    t.tac = 0xFD;
    t.tick(4, &mut iflag);
    assert_eq!(t.tima, 1);
    t.tick(4, &mut iflag);
    assert_eq!(t.tima, 2);
    assert_eq!(iflag, 0);
}

#[test]
fn timer_disabled_does_not_count() {
    let mut t = Timer::new();
    let mut iflag: u8 = 0;
    t.tac = 0xF9;
    t.tick(64, &mut iflag);
    assert_eq!(t.tima, 0);
}

#[test]
fn timer_overflow_reloads_and_raises_interrupt() {
    let mut t = Timer::new();
    let mut iflag: u8 = 0;
    t.tac = 0xFD;
    t.tima = 0xFE;
    t.tma = 0x80;
    t.tick(8, &mut iflag);
    assert_eq!(t.tima, 0x80);
    assert_eq!(iflag, 0x04);
}

#[test]
fn divider_gains_four_per_cycle() {
    let mut t = Timer::new();
    let mut iflag: u8 = 0;
    t.tick(3, &mut iflag);
    assert_eq!(t.div, 12);
}
