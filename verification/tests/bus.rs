//! Address decoding and the trapped I/O side effects of the memory bus.

use beni_boy_color::cartridge::Cartridge;
use beni_boy_color::mmu::Mmu;

fn rom_image(rom_code: u8, ram_code: u8) -> Vec<u8> {
    let size: usize = 0x8000 << (rom_code as usize);
    let mut rom = vec![0u8; size];
    rom[0x148] = rom_code;
    rom[0x149] = ram_code;
    rom
}

fn bus_with_ram(ram_code: u8) -> Mmu {
    let cart = Cartridge::new(rom_image(0x00, ram_code)).unwrap();
    Mmu::new(cart)
}

fn bus() -> Mmu {
    bus_with_ram(0x00)
}

#[test]
fn rom_reads_forward_to_cartridge() {
    let mut rom = rom_image(0x00, 0x00);
    rom[0x0000] = 0x31;
    rom[0x7FFF] = 0x99;
    let mmu = Mmu::new(Cartridge::new(rom).unwrap());
    assert_eq!(mmu.read_byte(0x0000), 0x31);
    assert_eq!(mmu.read_byte(0x7FFF), 0x99);
}

#[test]
fn rom_writes_are_dropped() {
    let mut mmu = bus();
    mmu.write_byte(0x1234, 0xAB);
    assert_eq!(mmu.read_byte(0x1234), 0x00);
}

#[test]
fn wram_and_hram_round_trip() {
    let mut mmu = bus();
    mmu.write_byte(0xC000, 0x11);
    mmu.write_byte(0xDFFF, 0x22);
    mmu.write_byte(0xFF80, 0x33);
    mmu.write_byte(0xFFFE, 0x44);
    assert_eq!(mmu.read_byte(0xC000), 0x11);
    assert_eq!(mmu.read_byte(0xDFFF), 0x22);
    assert_eq!(mmu.read_byte(0xFF80), 0x33);
    assert_eq!(mmu.read_byte(0xFFFE), 0x44);
}

#[test]
fn vram_and_oam_round_trip() {
    let mut mmu = bus();
    mmu.write_byte(0x8000, 0x55);
    mmu.write_byte(0x9FFF, 0x66);
    mmu.write_byte(0xFE00, 0x77);
    mmu.write_byte(0xFE9F, 0x88);
    assert_eq!(mmu.read_byte(0x8000), 0x55);
    assert_eq!(mmu.read_byte(0x9FFF), 0x66);
    assert_eq!(mmu.read_byte(0xFE00), 0x77);
    assert_eq!(mmu.read_byte(0xFE9F), 0x88);
}

#[test]
fn echo_mirrors_work_ram_both_ways() {
    let mut mmu = bus();
    mmu.write_byte(0xC010, 0x5A);
    assert_eq!(mmu.read_byte(0xE010), 0x5A);
    mmu.write_byte(0xE020, 0xA5);
    assert_eq!(mmu.read_byte(0xC020), 0xA5);
}

#[test]
fn unusable_region_reads_ff_and_drops_writes() {
    let mut mmu = bus();
    mmu.write_byte(0xFEA0, 0x12);
    mmu.write_byte(0xFEFF, 0x34);
    assert_eq!(mmu.read_byte(0xFEA0), 0xFF);
    assert_eq!(mmu.read_byte(0xFEFF), 0xFF);
}

#[test]
fn external_ram_round_trip_when_present() {
    let mut mmu = bus_with_ram(0x02);
    mmu.write_byte(0xA000, 0x9C);
    mmu.write_byte(0xBFFF, 0x3D);
    assert_eq!(mmu.read_byte(0xA000), 0x9C);
    // the cartridge carries one 8 KiB bank, so 0xBFFF maps into it
    assert_eq!(mmu.read_byte(0xBFFF), 0x3D);
}

#[test]
fn absent_external_ram_is_open_bus() {
    let mut mmu = bus_with_ram(0x00);
    mmu.write_byte(0xA000, 0x9C);
    assert_eq!(mmu.read_byte(0xA000), 0xFF);
}

#[test]
fn interrupt_registers_and_masking() {
    let mut mmu = bus();
    mmu.write_byte(0xFFFF, 0xAB);
    assert_eq!(mmu.read_byte(0xFFFF), 0xAB);
    // IF writes are masked to the five interrupt sources
    mmu.write_byte(0xFF0F, 0xFF);
    assert_eq!(mmu.read_byte(0xFF0F), 0x1F);
    assert_eq!(mmu.interrupt_flag, 0x1F);
}

#[test]
fn ly_is_stubbed() {
    let mut mmu = bus();
    mmu.write_byte(0xFF44, 0x05);
    assert_eq!(mmu.read_byte(0xFF44), 0x90);
}

#[test]
fn div_write_resets_divider() {
    let mut mmu = bus();
    mmu.tick_components(0x200);
    assert_ne!(mmu.read_byte(0xFF04), 0x00);
    mmu.write_byte(0xFF04, 0x7F);
    assert_eq!(mmu.read_byte(0xFF04), 0x00);
    assert_eq!(mmu.timer.div, 0x0000);
}

#[test]
fn tac_reads_back_with_top_bits_set() {
    let mut mmu = bus();
    mmu.write_byte(0xFF07, 0x05);
    assert_eq!(mmu.read_byte(0xFF07), 0xFD);
}

#[test]
fn serial_hook_collects_bytes() {
    let mut mmu = bus();
    mmu.write_byte(0xFF01, 0x41);
    mmu.write_byte(0xFF02, 0x81);
    mmu.write_byte(0xFF01, 0x42);
    mmu.write_byte(0xFF02, 0x00);
    mmu.write_byte(0xFF02, 0x81);
    assert_eq!(mmu.serial_out, vec![0x41, 0x42]);
}

#[test]
fn oam_dma_copies_160_bytes() {
    let mut mmu = bus();
    for i in 0..0xA0u16 {
        mmu.write_byte(0xC000 + i, i as u8);
    }
    mmu.write_byte(0xFF46, 0xC0);
    for i in 0..0xA0u16 {
        assert_eq!(mmu.read_byte(0xFE00 + i), i as u8);
    }
    // the DMA source byte is plain storage too
    assert_eq!(mmu.read_byte(0xFF46), 0xC0);
}

#[test]
fn oam_dma_redirects_echo_sources_into_work_ram() {
    let mut mmu = bus();
    for i in 0..0xA0u16 {
        mmu.write_byte(0xC000 + i, (0xA0 - i) as u8);
    }
    // source page 0xE0 lands in the echo region and is redirected to 0xC000
    mmu.write_byte(0xFF46, 0xE0);
    for i in 0..0xA0u16 {
        assert_eq!(mmu.read_byte(0xFE00 + i), (0xA0 - i) as u8);
    }
}

#[test]
fn word_access_wraps_at_the_address_space_top() {
    let mut mmu = bus();
    mmu.write_byte(0xFFFF, 0x12);
    // low byte from the interrupt-enable register at 0xFFFF, high byte
    // wrapping around to the ROM byte at 0x0000
    assert_eq!(mmu.read_word(0xFFFF), 0x0012);
}

#[test]
fn word_access_is_little_endian() {
    let mut mmu = bus();
    mmu.write_word(0xC100, 0xBEEF);
    assert_eq!(mmu.read_byte(0xC100), 0xEF);
    assert_eq!(mmu.read_byte(0xC101), 0xBE);
    assert_eq!(mmu.read_word(0xC100), 0xBEEF);
}
