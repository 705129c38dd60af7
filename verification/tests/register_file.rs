//! The register file: boot values, pair packing, and flag bit isolation.

use beni_boy_color::registers::{FlagMask, Registers};

#[test]
fn boot_values() {
    let r = Registers::new();
    assert_eq!(r.a, 0x01);
    assert_eq!(r.f, 0xB0);
    assert_eq!(r.b, 0x00);
    assert_eq!(r.c, 0x13);
    assert_eq!(r.d, 0x00);
    assert_eq!(r.e, 0xD8);
    assert_eq!(r.h, 0x01);
    assert_eq!(r.l, 0x4D);
    assert_eq!(r.pc, 0x0100);
    assert_eq!(r.sp, 0xFFFE);
}

#[test]
fn pairs_pack_and_unpack() {
    let mut r = Registers::new();
    r.set_bc(0x1234);
    assert_eq!(r.b, 0x12);
    assert_eq!(r.c, 0x34);
    assert_eq!(r.get_bc(), 0x1234);
    r.set_de(0xABCD);
    assert_eq!((r.d, r.e), (0xAB, 0xCD));
    assert_eq!(r.get_de(), 0xABCD);
    r.set_hl(0xFFEE);
    assert_eq!((r.h, r.l), (0xFF, 0xEE));
    assert_eq!(r.get_hl(), 0xFFEE);
}

#[test]
fn af_masks_the_low_nibble() {
    let mut r = Registers::new();
    r.set_af(0x12FF);
    assert_eq!(r.a, 0x12);
    assert_eq!(r.f, 0xF0);
    assert_eq!(r.get_af(), 0x12F0);
}

#[test]
fn flag_operations_touch_only_their_bit() {
    let mut r = Registers::new();
    r.f = 0x00;
    r.set_flag(FlagMask::Z);
    assert_eq!(r.f, 0x80);
    r.set_flag(FlagMask::C);
    assert_eq!(r.f, 0x90);
    r.set_flag_val(FlagMask::H, true);
    assert_eq!(r.f, 0xB0);
    r.clear_flag(FlagMask::Z);
    assert_eq!(r.f, 0x30);
    assert!(!r.get_flag(FlagMask::Z));
    assert!(!r.get_flag(FlagMask::N));
    assert!(r.get_flag(FlagMask::H));
    assert!(r.get_flag(FlagMask::C));
    r.set_flag_val(FlagMask::C, false);
    assert_eq!(r.f, 0x20);
}
