//! Flag semantics of the accumulator operations and the decimal adjust.

use beni_boy_color::cpu::Cpu;
use beni_boy_color::registers::FlagMask;

fn flags(cpu: &Cpu) -> (bool, bool, bool, bool) {
    (
        cpu.regs.get_flag(FlagMask::Z),
        cpu.regs.get_flag(FlagMask::N),
        cpu.regs.get_flag(FlagMask::H),
        cpu.regs.get_flag(FlagMask::C),
    )
}

#[test]
fn add_half_carry_boundary() {
    let mut cpu = Cpu::new();
    cpu.regs.a = 0x0F;
    cpu.add_u8(0x01);
    assert_eq!(cpu.regs.a, 0x10);
    assert_eq!(flags(&cpu), (false, false, true, false));
}

#[test]
fn add_full_wrap() {
    let mut cpu = Cpu::new();
    cpu.regs.a = 0xFF;
    cpu.add_u8(0x01);
    assert_eq!(cpu.regs.a, 0x00);
    assert_eq!(flags(&cpu), (true, false, true, true));
}

#[test]
fn add_plain() {
    let mut cpu = Cpu::new();
    cpu.regs.a = 0x12;
    cpu.add_u8(0x34);
    assert_eq!(cpu.regs.a, 0x46);
    assert_eq!(flags(&cpu), (false, false, false, false));
}

#[test]
fn adc_uses_carry_in() {
    let mut cpu = Cpu::new();
    cpu.regs.a = 0x10;
    cpu.regs.set_flag_val(FlagMask::C, true);
    cpu.adc_u8(0x0F);
    assert_eq!(cpu.regs.a, 0x20);
    assert_eq!(flags(&cpu), (false, false, true, false));
}

#[test]
fn sub_sets_n_and_borrows() {
    let mut cpu = Cpu::new();
    cpu.regs.a = 0x10;
    cpu.sub_u8(0x01);
    assert_eq!(cpu.regs.a, 0x0F);
    // low nibble 0x0 borrows from 0x1, no full borrow
    assert_eq!(flags(&cpu), (false, true, true, false));

    cpu.regs.a = 0x00;
    cpu.sub_u8(0x01);
    assert_eq!(cpu.regs.a, 0xFF);
    assert_eq!(flags(&cpu), (false, true, true, true));
}

#[test]
fn sbc_uses_carry_in() {
    let mut cpu = Cpu::new();
    cpu.regs.a = 0x10;
    cpu.regs.set_flag_val(FlagMask::C, true);
    cpu.sbc_u8(0x0F);
    assert_eq!(cpu.regs.a, 0x00);
    assert_eq!(flags(&cpu), (true, true, true, false));
}

#[test]
fn cp_leaves_a_untouched() {
    let mut cpu = Cpu::new();
    cpu.regs.a = 0x3C;
    cpu.cp_u8(0x3C);
    assert_eq!(cpu.regs.a, 0x3C);
    assert_eq!(flags(&cpu), (true, true, false, false));
    cpu.cp_u8(0x40);
    assert_eq!(flags(&cpu), (false, true, false, true));
}

#[test]
fn and_or_xor_flags() {
    let mut cpu = Cpu::new();
    cpu.regs.a = 0xF0;
    cpu.and_u8(0x0F);
    assert_eq!(cpu.regs.a, 0x00);
    assert_eq!(flags(&cpu), (true, false, true, false));

    cpu.regs.a = 0xF0;
    cpu.or_u8(0x0F);
    assert_eq!(cpu.regs.a, 0xFF);
    assert_eq!(flags(&cpu), (false, false, false, false));

    cpu.xor_u8(0xFF);
    assert_eq!(cpu.regs.a, 0x00);
    assert_eq!(flags(&cpu), (true, false, false, false));
}

#[test]
fn daa_after_bcd_add() {
    // 0x45 + 0x2E leaves A = 0x73 with H set; DAA corrects it to 0x79,
    // the BCD sum of 45 and 2E's decimal reading, with Z and C clear.
    let mut cpu = Cpu::new();
    cpu.regs.a = 0x45;
    cpu.regs.b = 0x2E;
    cpu.add_u8(cpu.regs.b);
    assert_eq!(cpu.regs.a, 0x73);
    assert!(cpu.regs.get_flag(FlagMask::H));
    cpu.daa();
    assert_eq!(cpu.regs.a, 0x79);
    assert!(!cpu.regs.get_flag(FlagMask::Z));
    assert!(!cpu.regs.get_flag(FlagMask::C));
    assert!(!cpu.regs.get_flag(FlagMask::H));
}

#[test]
fn daa_sets_carry_past_99() {
    let mut cpu = Cpu::new();
    cpu.regs.a = 0x99;
    cpu.add_u8(0x01);
    assert_eq!(cpu.regs.a, 0x9A);
    cpu.daa();
    assert_eq!(cpu.regs.a, 0x00);
    assert!(cpu.regs.get_flag(FlagMask::Z));
    assert!(cpu.regs.get_flag(FlagMask::C));
}

#[test]
fn daa_after_subtraction() {
    let mut cpu = Cpu::new();
    cpu.regs.a = 0x42;
    cpu.sub_u8(0x09);
    assert_eq!(cpu.regs.a, 0x39);
    assert!(cpu.regs.get_flag(FlagMask::H));
    cpu.daa();
    assert_eq!(cpu.regs.a, 0x33);
    assert!(!cpu.regs.get_flag(FlagMask::C));
}

#[test]
fn rotates_through_and_around() {
    let mut cpu = Cpu::new();
    let mut x: u8 = 0x85;
    cpu.rlc_u8(&mut x);
    assert_eq!(x, 0x0B);
    assert!(cpu.regs.get_flag(FlagMask::C));

    let mut x: u8 = 0x01;
    cpu.rrc_u8(&mut x);
    assert_eq!(x, 0x80);
    assert!(cpu.regs.get_flag(FlagMask::C));

    cpu.regs.set_flag_val(FlagMask::C, true);
    let mut x: u8 = 0x00;
    cpu.rl_u8(&mut x);
    assert_eq!(x, 0x01);
    assert!(!cpu.regs.get_flag(FlagMask::C));

    cpu.regs.set_flag_val(FlagMask::C, true);
    let mut x: u8 = 0x00;
    cpu.rr_u8(&mut x);
    assert_eq!(x, 0x80);
    assert!(!cpu.regs.get_flag(FlagMask::C));
}

#[test]
fn shifts_and_swap() {
    let mut cpu = Cpu::new();
    let mut x: u8 = 0x81;
    cpu.sla_u8(&mut x);
    assert_eq!(x, 0x02);
    assert!(cpu.regs.get_flag(FlagMask::C));

    let mut x: u8 = 0x81;
    cpu.sra_u8(&mut x);
    assert_eq!(x, 0xC0);
    assert!(cpu.regs.get_flag(FlagMask::C));

    let mut x: u8 = 0x81;
    cpu.srl_u8(&mut x);
    assert_eq!(x, 0x40);
    assert!(cpu.regs.get_flag(FlagMask::C));

    let mut x: u8 = 0xA5;
    cpu.swap_u8(&mut x);
    assert_eq!(x, 0x5A);
    assert!(!cpu.regs.get_flag(FlagMask::C));
}

#[test]
fn bit_test_sets_z_from_tested_bit() {
    let mut cpu = Cpu::new();
    cpu.regs.set_flag_val(FlagMask::C, true);
    cpu.bit(0b0010_0000, 5);
    assert!(!cpu.regs.get_flag(FlagMask::Z));
    assert!(cpu.regs.get_flag(FlagMask::H));
    assert!(!cpu.regs.get_flag(FlagMask::N));
    // C is untouched by BIT
    assert!(cpu.regs.get_flag(FlagMask::C));
    cpu.bit(0b1101_1111, 5);
    assert!(cpu.regs.get_flag(FlagMask::Z));
}
