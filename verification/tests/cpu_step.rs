//! Whole-machine stepping: interrupt priority and latency, the stack
//! discipline, relative jumps, and the halt state.

use beni_boy_color::cartridge::Cartridge;
use beni_boy_color::cpu::{Cpu, CpuState};
use beni_boy_color::interrupts::InterruptMasterEnable;
use beni_boy_color::machine::BeniBoyColor;
use beni_boy_color::mmu::Mmu;

fn machine() -> BeniBoyColor {
    let mut rom = vec![0u8; 0x8000];
    rom[0x148] = 0x00;
    rom[0x149] = 0x00;
    BeniBoyColor::new(Cartridge::new(rom).unwrap())
}

fn machine_with_program(program: &[u8]) -> BeniBoyColor {
    // the program runs from work RAM so the test can write it byte by byte
    let mut gbc = machine();
    for (i, b) in program.iter().enumerate() {
        gbc.mmu.write_byte(0xC000 + i as u16, *b);
    }
    gbc.cpu.regs.pc = 0xC000;
    gbc
}

#[test]
fn stack_push_pop_round_trip() {
    let mut cpu = Cpu::new();
    let mut rom = vec![0u8; 0x8000];
    rom[0x148] = 0x00;
    let mut mmu = Mmu::new(Cartridge::new(rom).unwrap());
    cpu.regs.sp = 0xD000;
    cpu.stack_push(&mut mmu, 0xBEEF);
    assert_eq!(cpu.regs.sp, 0xCFFE);
    // high byte at SP+1, low byte at SP
    assert_eq!(mmu.read_byte(0xCFFE), 0xEF);
    assert_eq!(mmu.read_byte(0xCFFF), 0xBE);
    let v = cpu.stack_pop(&mmu);
    assert_eq!(v, 0xBEEF);
    assert_eq!(cpu.regs.sp, 0xD000);
}

#[test]
fn interrupt_priority_lowest_bit_first() {
    // IF = IE = 0b110: LCD/STAT (bit 1) outranks Timer (bit 2); the step
    // services vector 0x48, clears only bit 1, and costs 5 cycles.
    let mut gbc = machine();
    gbc.mmu.interrupt_flag = 0b0000_0110;
    gbc.mmu.interrupt_enable = 0b0000_0110;
    gbc.cpu.ime = InterruptMasterEnable::Enabled;
    let old_pc = gbc.cpu.regs.pc;
    let cycles = gbc.cpu.run_instruction(&mut gbc.mmu);
    assert_eq!(cycles, 5);
    assert_eq!(gbc.cpu.regs.pc, 0x0048);
    assert_eq!(gbc.mmu.interrupt_flag, 0b0000_0100);
    assert_eq!(gbc.cpu.ime, InterruptMasterEnable::Disabled);
    assert_eq!(gbc.cpu.regs.sp, 0xFFFC);
    assert_eq!(gbc.mmu.read_byte(0xFFFC), (old_pc & 0x00FF) as u8);
    assert_eq!(gbc.mmu.read_byte(0xFFFD), (old_pc >> 8) as u8);
}

#[test]
fn interrupts_wait_for_master_enable() {
    let mut gbc = machine_with_program(&[0x00]);
    gbc.mmu.interrupt_flag = 0b0000_0001;
    gbc.mmu.interrupt_enable = 0b0000_0001;
    gbc.cpu.ime = InterruptMasterEnable::Disabled;
    let cycles = gbc.cpu.run_instruction(&mut gbc.mmu);
    // the NOP executes; nothing is serviced
    assert_eq!(cycles, 1);
    assert_eq!(gbc.cpu.regs.pc, 0xC001);
    assert_eq!(gbc.mmu.interrupt_flag, 0b0000_0001);
}

#[test]
fn enable_interrupts_has_one_instruction_latency() {
    // EI; NOP; with an interrupt already pending: the EI step and the NOP
    // step both run, and only the third step services the interrupt.
    let mut gbc = machine_with_program(&[0xFB, 0x00, 0x00]);
    gbc.mmu.interrupt_flag = 0b0000_0001;
    gbc.mmu.interrupt_enable = 0b0000_0001;

    assert_eq!(gbc.cpu.run_instruction(&mut gbc.mmu), 1);
    assert_eq!(gbc.cpu.ime, InterruptMasterEnable::EnabledWithDelay);

    assert_eq!(gbc.cpu.run_instruction(&mut gbc.mmu), 1);
    assert_eq!(gbc.cpu.ime, InterruptMasterEnable::Enabled);
    assert_eq!(gbc.cpu.regs.pc, 0xC002);

    assert_eq!(gbc.cpu.run_instruction(&mut gbc.mmu), 5);
    assert_eq!(gbc.cpu.regs.pc, 0x0040);
}

#[test]
fn disable_interrupts_masks_service() {
    let mut gbc = machine_with_program(&[0xF3, 0x00]);
    gbc.cpu.ime = InterruptMasterEnable::Enabled;
    gbc.mmu.interrupt_flag = 0b0000_0000;
    gbc.mmu.interrupt_enable = 0b0000_0001;
    assert_eq!(gbc.cpu.run_instruction(&mut gbc.mmu), 1);
    assert_eq!(gbc.cpu.ime, InterruptMasterEnable::Disabled);
    gbc.mmu.interrupt_flag = 0b0000_0001;
    assert_eq!(gbc.cpu.run_instruction(&mut gbc.mmu), 1);
    assert_eq!(gbc.cpu.regs.pc, 0xC002);
}

#[test]
fn relative_jump_minus_two_re_executes_itself() {
    // JR with displacement 0xFE (-2): from the PC just past the two
    // instruction bytes, the jump lands back on the JR opcode itself.
    let mut gbc = machine_with_program(&[0x18, 0xFE]);
    let cycles = gbc.cpu.run_instruction(&mut gbc.mmu);
    assert_eq!(cycles, 3);
    assert_eq!(gbc.cpu.regs.pc, 0xC000);
}

#[test]
fn conditional_relative_jump_costs() {
    // JR NZ, +2 with Z set: not taken, 2 cycles.
    let mut gbc = machine_with_program(&[0x20, 0x02, 0x00, 0x00]);
    gbc.cpu.regs.set_flag(beni_boy_color::registers::FlagMask::Z);
    assert_eq!(gbc.cpu.run_instruction(&mut gbc.mmu), 2);
    assert_eq!(gbc.cpu.regs.pc, 0xC002);

    // JR NZ, +2 with Z clear: taken, 3 cycles.
    let mut gbc = machine_with_program(&[0x20, 0x02, 0x00, 0x00]);
    gbc.cpu.regs.clear_flag(beni_boy_color::registers::FlagMask::Z);
    assert_eq!(gbc.cpu.run_instruction(&mut gbc.mmu), 3);
    assert_eq!(gbc.cpu.regs.pc, 0xC004);
}

#[test]
fn halt_wakes_on_pending_interrupt() {
    let mut gbc = machine_with_program(&[0x76, 0x00]);
    assert_eq!(gbc.cpu.run_instruction(&mut gbc.mmu), 1);
    assert_eq!(gbc.cpu.state, CpuState::Halted);

    // nothing pending: one idle cycle per step
    assert_eq!(gbc.cpu.run_instruction(&mut gbc.mmu), 1);
    assert_eq!(gbc.cpu.state, CpuState::Halted);

    // a pending enabled source wakes the core even with the master enable
    // off; no service happens, execution merely resumes
    gbc.mmu.interrupt_flag = 0b0000_0100;
    gbc.mmu.interrupt_enable = 0b0000_0100;
    assert_eq!(gbc.cpu.run_instruction(&mut gbc.mmu), 0);
    assert_eq!(gbc.cpu.state, CpuState::Running);
    assert_eq!(gbc.cpu.run_instruction(&mut gbc.mmu), 1);
    assert_eq!(gbc.cpu.regs.pc, 0xC002);
    assert_eq!(gbc.mmu.interrupt_flag, 0b0000_0100);
}

#[test]
fn call_and_return() {
    // CALL 0xC010; at 0xC010: RET
    let mut gbc = machine_with_program(&[0xCD, 0x10, 0xC0]);
    gbc.mmu.write_byte(0xC010, 0xC9);
    gbc.cpu.regs.sp = 0xD000;
    assert_eq!(gbc.cpu.run_instruction(&mut gbc.mmu), 6);
    assert_eq!(gbc.cpu.regs.pc, 0xC010);
    assert_eq!(gbc.cpu.regs.sp, 0xCFFE);
    assert_eq!(gbc.cpu.run_instruction(&mut gbc.mmu), 4);
    assert_eq!(gbc.cpu.regs.pc, 0xC003);
    assert_eq!(gbc.cpu.regs.sp, 0xD000);
}

#[test]
fn push_pop_af_masks_flag_nibble() {
    // LD BC with 0x12FF via direct registers, PUSH BC, POP AF
    let mut gbc = machine_with_program(&[0xC5, 0xF1]);
    gbc.cpu.regs.sp = 0xD000;
    gbc.cpu.regs.b = 0x12;
    gbc.cpu.regs.c = 0xFF;
    assert_eq!(gbc.cpu.run_instruction(&mut gbc.mmu), 4);
    assert_eq!(gbc.cpu.run_instruction(&mut gbc.mmu), 3);
    assert_eq!(gbc.cpu.regs.a, 0x12);
    assert_eq!(gbc.cpu.regs.f, 0xF0);
    assert_eq!(gbc.cpu.regs.sp, 0xD000);
}

#[test]
fn sixteen_bit_add_to_hl() {
    // ADD HL, BC at bit-11 and bit-15 boundaries; Z is untouched
    let mut gbc = machine_with_program(&[0x09]);
    gbc.cpu.regs.set_flag(beni_boy_color::registers::FlagMask::Z);
    gbc.cpu.regs.set_hl(0x0FFF);
    gbc.cpu.regs.set_bc(0x0001);
    assert_eq!(gbc.cpu.run_instruction(&mut gbc.mmu), 2);
    assert_eq!(gbc.cpu.regs.get_hl(), 0x1000);
    assert!(gbc.cpu.regs.get_flag(beni_boy_color::registers::FlagMask::H));
    assert!(!gbc.cpu.regs.get_flag(beni_boy_color::registers::FlagMask::C));
    assert!(gbc.cpu.regs.get_flag(beni_boy_color::registers::FlagMask::Z));

    let mut gbc = machine_with_program(&[0x09]);
    gbc.cpu.regs.set_hl(0xFFFF);
    gbc.cpu.regs.set_bc(0x0001);
    gbc.cpu.run_instruction(&mut gbc.mmu);
    assert_eq!(gbc.cpu.regs.get_hl(), 0x0000);
    assert!(gbc.cpu.regs.get_flag(beni_boy_color::registers::FlagMask::C));
}

#[test]
fn memory_operand_costs_more() {
    // INC B: 1 cycle; INC (HL): 3 cycles
    let mut gbc = machine_with_program(&[0x04, 0x34]);
    gbc.cpu.regs.set_hl(0xC100);
    assert_eq!(gbc.cpu.run_instruction(&mut gbc.mmu), 1);
    assert_eq!(gbc.cpu.run_instruction(&mut gbc.mmu), 3);
    assert_eq!(gbc.mmu.read_byte(0xC100), 0x01);
}

#[test]
fn load_immediate_costs_more_through_memory() {
    // LD B, u8: 2 cycles; LD (HL), u8: 3 cycles
    let mut gbc = machine_with_program(&[0x06, 0x42, 0x36, 0x77]);
    gbc.cpu.regs.set_hl(0xC100);
    assert_eq!(gbc.cpu.run_instruction(&mut gbc.mmu), 2);
    assert_eq!(gbc.cpu.regs.b, 0x42);
    assert_eq!(gbc.cpu.run_instruction(&mut gbc.mmu), 3);
    assert_eq!(gbc.mmu.read_byte(0xC100), 0x77);
}

#[test]
fn reti_restores_the_master_enable() {
    // a handler at the LCD/STAT vector made of a single RETI: the service
    // step turns the master enable off, the RETI step turns it back on at
    // once and returns to the interrupted address
    let mut rom = vec![0u8; 0x8000];
    rom[0x0048] = 0xD9;
    let mut gbc = BeniBoyColor::new(Cartridge::new(rom).unwrap());
    gbc.mmu.write_byte(0xC000, 0x00);
    gbc.cpu.regs.pc = 0xC000;
    gbc.cpu.ime = InterruptMasterEnable::Enabled;
    gbc.mmu.interrupt_flag = 0b0000_0010;
    gbc.mmu.interrupt_enable = 0b0000_0010;

    assert_eq!(gbc.cpu.run_instruction(&mut gbc.mmu), 5);
    assert_eq!(gbc.cpu.regs.pc, 0x0048);
    assert_eq!(gbc.cpu.ime, InterruptMasterEnable::Disabled);

    assert_eq!(gbc.cpu.run_instruction(&mut gbc.mmu), 4);
    assert_eq!(gbc.cpu.regs.pc, 0xC000);
    assert_eq!(gbc.cpu.ime, InterruptMasterEnable::Enabled);
    assert_eq!(gbc.cpu.regs.sp, 0xFFFE);

    // the request bit was consumed, so the interrupted program resumes
    assert_eq!(gbc.cpu.run_instruction(&mut gbc.mmu), 1);
    assert_eq!(gbc.cpu.regs.pc, 0xC001);
}

#[test]
fn cb_space_executes_through_the_prefix() {
    // CB 0x37: SWAP A; CB 0xC6: SET 0, (HL); CB 0x46: BIT 0, (HL);
    // CB 0x86: RES 0, (HL). The read-modify-write forms through (HL) cost
    // 4 cycles, the read-only bit test 3.
    let mut gbc = machine_with_program(&[0xCB, 0x37, 0xCB, 0xC6, 0xCB, 0x46, 0xCB, 0x86]);
    gbc.cpu.regs.a = 0xA5;
    gbc.cpu.regs.set_hl(0xC100);
    assert_eq!(gbc.cpu.run_instruction(&mut gbc.mmu), 2);
    assert_eq!(gbc.cpu.regs.a, 0x5A);
    assert_eq!(gbc.cpu.run_instruction(&mut gbc.mmu), 4);
    assert_eq!(gbc.mmu.read_byte(0xC100), 0x01);
    assert_eq!(gbc.cpu.run_instruction(&mut gbc.mmu), 3);
    assert!(!gbc.cpu.regs.get_flag(beni_boy_color::registers::FlagMask::Z));
    assert_eq!(gbc.cpu.run_instruction(&mut gbc.mmu), 4);
    assert_eq!(gbc.mmu.read_byte(0xC100), 0x00);
}

#[test]
fn program_sums_a_countdown_and_reports_over_serial() {
    // LD B, 10; XOR A; then ADD A, B / DEC B / JR NZ back, summing
    // 10 + 9 + ... + 1 = 55; the result goes out through the serial hook
    // and the program halts.
    let mut gbc = machine_with_program(&[
        0x06, 0x0A, // LD B, 10
        0xAF, // XOR A
        0x80, // ADD A, B
        0x05, // DEC B
        0x20, 0xFC, // JR NZ, -4
        0xE0, 0x01, // LDH (0x01), A
        0x3E, 0x81, // LD A, 0x81
        0xE0, 0x02, // LDH (0x02), A
        0x76, // HALT
    ]);
    let mut steps = 0;
    while gbc.cpu.state != CpuState::Halted {
        gbc.tick();
        steps += 1;
        assert!(steps < 1000);
    }
    assert_eq!(gbc.mmu.serial_out, vec![55]);
}

#[test]
fn machine_tick_advances_the_timer() {
    // enable the timer on the fastest divider bit and let the counter
    // overflow: the timer interrupt bit rises
    let mut gbc = machine_with_program(&[0x00; 0x40].as_slice());
    gbc.mmu.write_byte(0xFF05, 0xFF);
    gbc.mmu.write_byte(0xFF06, 0xAB);
    gbc.mmu.write_byte(0xFF07, 0x05);
    gbc.mmu.interrupt_flag = 0x00;
    for _ in 0..4 {
        gbc.tick();
    }
    // the counter overflowed on the falling edge and reloaded from TMA
    assert_eq!(gbc.mmu.read_byte(0xFF05), 0xAB);
    assert_eq!(gbc.mmu.interrupt_flag & 0x04, 0x04);
}
