//! The opcode interpreter: decode helpers shared by the opcode groups, the
//! secondary (CB-prefixed) opcode space, and the full native opcode space.
//! The hardware's bit-field structure drives the decode: an opcode's low
//! three bits select a register operand, bits 3..5 select an operation or
//! destination, bits 3..4 a condition code, bits 4..5 a register pair.

use vstd::prelude::*;

use crate::alu::{spec_alu, spec_bit_test, spec_daa, spec_rot};
use crate::cpu::{spec_sp_dec, spec_sp_inc, Cpu, CpuState};
use crate::interrupts::InterruptMasterEnable;
use crate::mmu::{
    spec_read_byte, spec_read_word, spec_wrap_inc, spec_write_byte, spec_write_word, Mmu, MmuView,
};
use crate::registers::{spec_flag, spec_flags, FlagMask, Registers};

verus! {

/// The eleven opcodes of the primary space with no assigned behavior.
/// Reaching one is an implementation defect of the program under emulation,
/// not a runtime condition the core recovers from.
pub open spec fn spec_illegal(b: u8) -> bool {
    b == 0xD3 || b == 0xDB || b == 0xDD || b == 0xE3 || b == 0xE4 || b == 0xEB || b == 0xEC
        || b == 0xED || b == 0xF4 || b == 0xFC || b == 0xFD
}

pub fn is_illegal_opcode(b: u8) -> (r: bool)
    ensures
        r == spec_illegal(b),
{
    b == 0xD3 || b == 0xDB || b == 0xDD || b == 0xE3 || b == 0xE4 || b == 0xEB || b == 0xEC
        || b == 0xED || b == 0xF4 || b == 0xFC || b == 0xFD
}

/// A displacement byte sign-extended to 16 bits.
pub open spec fn spec_sign_ext(d: u8) -> u16 {
    if d < 0x80 {
        d as u16
    } else {
        (d + 0xFF00) as u16
    }
}

/// 16-bit wrapping addition.
pub open spec fn spec_wadd16(a: u16, b: u16) -> u16 {
    if a + b > 0xFFFF {
        (a + b - 0x10000) as u16
    } else {
        (a + b) as u16
    }
}

/// 16-bit wrapping subtraction.
pub open spec fn spec_wsub16(a: u16, b: u16) -> u16 {
    if a >= b {
        (a - b) as u16
    } else {
        (a - b + 0x10000) as u16
    }
}

/// 8-bit wrapping increment.
pub open spec fn spec_inc8(x: u8) -> u8 {
    if x + 1 > 255 {
        0
    } else {
        (x + 1) as u8
    }
}

/// 8-bit wrapping decrement.
pub open spec fn spec_dec8(x: u8) -> u8 {
    if x >= 1 {
        (x - 1) as u8
    } else {
        255
    }
}

/// The condition selected by an opcode's bits 3..4: NZ, Z, NC, C.
pub open spec fn spec_cond(regs: Registers, idx: int) -> bool {
    if idx == 0 {
        !spec_flag(regs.f, FlagMask::Z)
    } else if idx == 1 {
        spec_flag(regs.f, FlagMask::Z)
    } else if idx == 2 {
        !spec_flag(regs.f, FlagMask::C)
    } else {
        spec_flag(regs.f, FlagMask::C)
    }
}

/// The register pair selected by an opcode's bits 4..5: BC, DE, HL, SP.
pub open spec fn spec_r16(regs: Registers, idx: int) -> u16 {
    if idx == 0 {
        regs.spec_bc()
    } else if idx == 1 {
        regs.spec_de()
    } else if idx == 2 {
        regs.spec_hl()
    } else {
        regs.sp
    }
}

/// The register file with the selected pair replaced.
pub open spec fn spec_with_r16(regs: Registers, idx: int, val: u16) -> Registers {
    if idx == 0 {
        Registers { b: (val / 256) as u8, c: (val % 256) as u8, ..regs }
    } else if idx == 1 {
        Registers { d: (val / 256) as u8, e: (val % 256) as u8, ..regs }
    } else if idx == 2 {
        Registers { h: (val / 256) as u8, l: (val % 256) as u8, ..regs }
    } else {
        Registers { sp: val, ..regs }
    }
}

/// The 8-bit operand selected by a three-bit register index: B, C, D, E, H,
/// L, the byte at (HL), A.
pub open spec fn spec_r8(regs: Registers, m: MmuView, idx: int) -> u8 {
    if idx == 0 {
        regs.b
    } else if idx == 1 {
        regs.c
    } else if idx == 2 {
        regs.d
    } else if idx == 3 {
        regs.e
    } else if idx == 4 {
        regs.h
    } else if idx == 5 {
        regs.l
    } else if idx == 6 {
        spec_read_byte(m, regs.spec_hl())
    } else {
        regs.a
    }
}

/// Store into the 8-bit operand selected by a three-bit register index;
/// index 6 routes through the bus at (HL).
pub open spec fn spec_set_r8(regs: Registers, m: MmuView, idx: int, data: u8) -> (
    Registers,
    MmuView,
) {
    if idx == 0 {
        (Registers { b: data, ..regs }, m)
    } else if idx == 1 {
        (Registers { c: data, ..regs }, m)
    } else if idx == 2 {
        (Registers { d: data, ..regs }, m)
    } else if idx == 3 {
        (Registers { e: data, ..regs }, m)
    } else if idx == 4 {
        (Registers { h: data, ..regs }, m)
    } else if idx == 5 {
        (Registers { l: data, ..regs }, m)
    } else if idx == 6 {
        (regs, spec_write_byte(m, regs.spec_hl(), data))
    } else {
        (Registers { a: data, ..regs }, m)
    }
}

/// The single-bit mask selected by an opcode's bits 3..5.
pub open spec fn spec_cb_bit(sel: int) -> u8 {
    if sel == 0 {
        0x01
    } else if sel == 1 {
        0x02
    } else if sel == 2 {
        0x04
    } else if sel == 3 {
        0x08
    } else if sel == 4 {
        0x10
    } else if sel == 5 {
        0x20
    } else if sel == 6 {
        0x40
    } else {
        0x80
    }
}

/// One opcode of the secondary (CB-prefixed) space, with the prefix and the
/// opcode byte already consumed: rotates/shifts/swap below 0x40, then bit
/// test, bit reset and bit set, each over the eight register operands. An
/// operand routed through (HL) costs extra cycles: 4 for the
/// read-modify-write forms, 3 for the read-only bit test.
pub open spec fn spec_cb(pre: Cpu, m: MmuView, instr: u8, post: Cpu, pm: MmuView, cycles: u8) -> bool {
    let idx = (instr % 8) as int;
    let sel = ((instr / 8) % 8) as int;
    let x = spec_r8(pre.regs, m, idx);
    if instr < 0x40 {
        let cr = spec_rot(pre, sel, x);
        let rm = spec_set_r8(cr.0.regs, m, idx, cr.1);
        &&& post == (Cpu { regs: rm.0, ..cr.0 })
        &&& pm == rm.1
        &&& cycles == (if idx == 6 { 4u8 } else { 2u8 })
    } else if instr < 0x80 {
        &&& post == spec_bit_test(pre, x, ((instr / 8) % 8) as u8)
        &&& pm == m
        &&& cycles == (if idx == 6 { 3u8 } else { 2u8 })
    } else if instr < 0xC0 {
        let rm = spec_set_r8(pre.regs, m, idx, x & !spec_cb_bit(sel));
        &&& post == (Cpu { regs: rm.0, ..pre })
        &&& pm == rm.1
        &&& cycles == (if idx == 6 { 4u8 } else { 2u8 })
    } else {
        let rm = spec_set_r8(pre.regs, m, idx, x | spec_cb_bit(sel));
        &&& post == (Cpu { regs: rm.0, ..pre })
        &&& pm == rm.1
        &&& cycles == (if idx == 6 { 4u8 } else { 2u8 })
    }
}

/// One opcode of the primary space, with the opcode byte already consumed:
/// `pre.regs.pc` points at the first operand byte. Relates the machine
/// before and after to the cycle cost; the eleven unassigned opcodes have
/// no defined transition.
pub open spec fn spec_instr(pre: Cpu, m: MmuView, instr: u8, post: Cpu, pm: MmuView, cycles: u8) -> bool {
    let pc = pre.regs.pc;
    let sp = pre.regs.sp;
    let imm8 = spec_read_byte(m, pc);
    let imm16 = spec_read_word(m, pc);
    let pc1 = spec_wrap_inc(pc);
    let pc2 = spec_wrap_inc(pc1);
    match instr {
        // NOP; STOP is treated as an idle cycle too
        0x00 | 0x10 => post == pre && pm == m && cycles == 1,
        // LD (u16), SP
        0x08 => {
            &&& post == (Cpu { regs: Registers { pc: pc2, ..pre.regs }, ..pre })
            &&& pm == spec_write_word(m, imm16, sp)
            &&& cycles == 5
        },
        // JR: the signed displacement is added after the displacement byte
        // itself has been consumed
        0x18 => {
            &&& post == (Cpu {
                regs: Registers { pc: spec_wadd16(pc1, spec_sign_ext(imm8)), ..pre.regs },
                ..pre
            })
            &&& pm == m
            &&& cycles == 3
        },
        // JR cc
        0x20 | 0x28 | 0x30 | 0x38 => {
            let taken = spec_cond(pre.regs, ((instr / 8) % 4) as int);
            &&& post == (Cpu {
                regs: Registers {
                    pc: if taken { spec_wadd16(pc1, spec_sign_ext(imm8)) } else { pc1 },
                    ..pre.regs
                },
                ..pre
            })
            &&& pm == m
            &&& cycles == (if taken { 3u8 } else { 2u8 })
        },
        // LD r16, u16
        0x01 | 0x11 | 0x21 | 0x31 => {
            &&& post == (Cpu {
                regs: spec_with_r16(
                    Registers { pc: pc2, ..pre.regs },
                    ((instr / 16) % 4) as int,
                    imm16,
                ),
                ..pre
            })
            &&& pm == m
            &&& cycles == 3
        },
        // ADD HL, r16: half-carry at bit 11, carry at bit 15, Z untouched
        0x09 | 0x19 | 0x29 | 0x39 => {
            let hl = pre.regs.spec_hl();
            let r16 = spec_r16(pre.regs, ((instr / 16) % 4) as int);
            let res = spec_wadd16(hl, r16);
            &&& post == (Cpu {
                regs: Registers {
                    h: (res / 256) as u8,
                    l: (res % 256) as u8,
                    f: spec_flags(
                        spec_flag(pre.regs.f, FlagMask::Z),
                        false,
                        hl % 0x1000 + r16 % 0x1000 >= 0x1000,
                        hl + r16 > 0xFFFF,
                    ),
                    ..pre.regs
                },
                ..pre
            })
            &&& pm == m
            &&& cycles == 2
        },
        // LD (r16), A, with post-increment/decrement of HL for the two
        // HL-indirect forms
        0x02 | 0x12 | 0x22 | 0x32 => {
            let p = (instr / 16) % 4;
            let hl = pre.regs.spec_hl();
            let addr = if p == 0 {
                pre.regs.spec_bc()
            } else if p == 1 {
                pre.regs.spec_de()
            } else {
                hl
            };
            let regs2 = if p == 2 {
                Registers {
                    h: (spec_wadd16(hl, 1) / 256) as u8,
                    l: (spec_wadd16(hl, 1) % 256) as u8,
                    ..pre.regs
                }
            } else if p == 3 {
                Registers {
                    h: (spec_wsub16(hl, 1) / 256) as u8,
                    l: (spec_wsub16(hl, 1) % 256) as u8,
                    ..pre.regs
                }
            } else {
                pre.regs
            };
            &&& post == (Cpu { regs: regs2, ..pre })
            &&& pm == spec_write_byte(m, addr, pre.regs.a)
            &&& cycles == 2
        },
        // LD A, (r16), with post-increment/decrement of HL
        0x0A | 0x1A | 0x2A | 0x3A => {
            let p = (instr / 16) % 4;
            let hl = pre.regs.spec_hl();
            let addr = if p == 0 {
                pre.regs.spec_bc()
            } else if p == 1 {
                pre.regs.spec_de()
            } else {
                hl
            };
            let regs2 = if p == 2 {
                Registers {
                    h: (spec_wadd16(hl, 1) / 256) as u8,
                    l: (spec_wadd16(hl, 1) % 256) as u8,
                    ..pre.regs
                }
            } else if p == 3 {
                Registers {
                    h: (spec_wsub16(hl, 1) / 256) as u8,
                    l: (spec_wsub16(hl, 1) % 256) as u8,
                    ..pre.regs
                }
            } else {
                pre.regs
            };
            &&& post == (Cpu { regs: Registers { a: spec_read_byte(m, addr), ..regs2 }, ..pre })
            &&& pm == m
            &&& cycles == 2
        },
        // INC r16
        0x03 | 0x13 | 0x23 | 0x33 => {
            let p = ((instr / 16) % 4) as int;
            &&& post == (Cpu {
                regs: spec_with_r16(pre.regs, p, spec_wadd16(spec_r16(pre.regs, p), 1)),
                ..pre
            })
            &&& pm == m
            &&& cycles == 2
        },
        // DEC r16
        0x0B | 0x1B | 0x2B | 0x3B => {
            let p = ((instr / 16) % 4) as int;
            &&& post == (Cpu {
                regs: spec_with_r16(pre.regs, p, spec_wsub16(spec_r16(pre.regs, p), 1)),
                ..pre
            })
            &&& pm == m
            &&& cycles == 2
        },
        // INC r8: half-carry out of bit 3, C untouched
        0x04 | 0x0C | 0x14 | 0x1C | 0x24 | 0x2C | 0x34 | 0x3C => {
            let idx = ((instr / 8) % 8) as int;
            let x = spec_r8(pre.regs, m, idx);
            let r = spec_inc8(x);
            let rm = spec_set_r8(
                Registers {
                    f: spec_flags(r == 0, false, x % 16 == 15, spec_flag(pre.regs.f, FlagMask::C)),
                    ..pre.regs
                },
                m,
                idx,
                r,
            );
            &&& post == (Cpu { regs: rm.0, ..pre })
            &&& pm == rm.1
            &&& cycles == (if idx == 6 { 3u8 } else { 1u8 })
        },
        // DEC r8: nibble borrow sets H, C untouched
        0x05 | 0x0D | 0x15 | 0x1D | 0x25 | 0x2D | 0x35 | 0x3D => {
            let idx = ((instr / 8) % 8) as int;
            let x = spec_r8(pre.regs, m, idx);
            let r = spec_dec8(x);
            let rm = spec_set_r8(
                Registers {
                    f: spec_flags(r == 0, true, x % 16 == 0, spec_flag(pre.regs.f, FlagMask::C)),
                    ..pre.regs
                },
                m,
                idx,
                r,
            );
            &&& post == (Cpu { regs: rm.0, ..pre })
            &&& pm == rm.1
            &&& cycles == (if idx == 6 { 3u8 } else { 1u8 })
        },
        // LD r8, u8: the (HL)-routed form costs one more cycle than the
        // register forms
        0x06 | 0x0E | 0x16 | 0x1E | 0x26 | 0x2E | 0x36 | 0x3E => {
            let idx = ((instr / 8) % 8) as int;
            let rm = spec_set_r8(Registers { pc: pc1, ..pre.regs }, m, idx, imm8);
            &&& post == (Cpu { regs: rm.0, ..pre })
            &&& pm == rm.1
            &&& cycles == (if idx == 6 { 3u8 } else { 2u8 })
        },
        // RLCA: rotate A left circular, Z cleared
        0x07 => {
            let a = pre.regs.a;
            &&& post == (Cpu {
                regs: Registers {
                    a: (a << 1) | (a >> 7),
                    f: spec_flags(false, false, false, a & 0x80 == 0x80),
                    ..pre.regs
                },
                ..pre
            })
            &&& pm == m
            &&& cycles == 1
        },
        // RRCA
        0x0F => {
            let a = pre.regs.a;
            &&& post == (Cpu {
                regs: Registers {
                    a: (a >> 1) | ((a & 0x01) << 7),
                    f: spec_flags(false, false, false, a & 0x01 == 0x01),
                    ..pre.regs
                },
                ..pre
            })
            &&& pm == m
            &&& cycles == 1
        },
        // RLA: rotate A left through carry, Z cleared
        0x17 => {
            let a = pre.regs.a;
            let ci: u8 = if spec_flag(pre.regs.f, FlagMask::C) { 1 } else { 0 };
            &&& post == (Cpu {
                regs: Registers {
                    a: (a << 1) | ci,
                    f: spec_flags(false, false, false, a & 0x80 == 0x80),
                    ..pre.regs
                },
                ..pre
            })
            &&& pm == m
            &&& cycles == 1
        },
        // RRA
        0x1F => {
            let a = pre.regs.a;
            let ci: u8 = if spec_flag(pre.regs.f, FlagMask::C) { 1 } else { 0 };
            &&& post == (Cpu {
                regs: Registers {
                    a: (a >> 1) | (ci << 7),
                    f: spec_flags(false, false, false, a & 0x01 == 0x01),
                    ..pre.regs
                },
                ..pre
            })
            &&& pm == m
            &&& cycles == 1
        },
        // DAA
        0x27 => post == spec_daa(pre) && pm == m && cycles == 1,
        // CPL: complement A, N and H set, Z and C untouched
        0x2F => {
            &&& post == (Cpu {
                regs: Registers {
                    a: !pre.regs.a,
                    f: spec_flags(
                        spec_flag(pre.regs.f, FlagMask::Z),
                        true,
                        true,
                        spec_flag(pre.regs.f, FlagMask::C),
                    ),
                    ..pre.regs
                },
                ..pre
            })
            &&& pm == m
            &&& cycles == 1
        },
        // SCF
        0x37 => {
            &&& post == (Cpu {
                regs: Registers {
                    f: spec_flags(spec_flag(pre.regs.f, FlagMask::Z), false, false, true),
                    ..pre.regs
                },
                ..pre
            })
            &&& pm == m
            &&& cycles == 1
        },
        // CCF
        0x3F => {
            &&& post == (Cpu {
                regs: Registers {
                    f: spec_flags(
                        spec_flag(pre.regs.f, FlagMask::Z),
                        false,
                        false,
                        !spec_flag(pre.regs.f, FlagMask::C),
                    ),
                    ..pre.regs
                },
                ..pre
            })
            &&& pm == m
            &&& cycles == 1
        },
        // HALT: idle until an enabled interrupt is requested
        0x76 => post == (Cpu { state: CpuState::Halted, ..pre }) && pm == m && cycles == 1,
        // RET cc
        0xC0 | 0xC8 | 0xD0 | 0xD8 => {
            let taken = spec_cond(pre.regs, ((instr / 8) % 4) as int);
            &&& post == (if taken {
                Cpu {
                    regs: Registers {
                        pc: spec_read_word(m, sp),
                        sp: spec_sp_inc(sp),
                        ..pre.regs
                    },
                    ..pre
                }
            } else {
                pre
            })
            &&& pm == m
            &&& cycles == (if taken { 5u8 } else { 2u8 })
        },
        // LD (FF00 + u8), A
        0xE0 => {
            &&& post == (Cpu { regs: Registers { pc: pc1, ..pre.regs }, ..pre })
            &&& pm == spec_write_byte(m, (0xFF00 + imm8) as u16, pre.regs.a)
            &&& cycles == 3
        },
        // ADD SP, i8: flags from the low byte, Z cleared
        0xE8 => {
            &&& post == (Cpu {
                regs: Registers {
                    pc: pc1,
                    sp: spec_wadd16(sp, spec_sign_ext(imm8)),
                    f: spec_flags(
                        false,
                        false,
                        sp % 16 + imm8 % 16 > 15,
                        sp % 256 + imm8 > 255,
                    ),
                    ..pre.regs
                },
                ..pre
            })
            &&& pm == m
            &&& cycles == 4
        },
        // LD A, (FF00 + u8)
        0xF0 => {
            &&& post == (Cpu {
                regs: Registers {
                    a: spec_read_byte(m, (0xFF00 + imm8) as u16),
                    pc: pc1,
                    ..pre.regs
                },
                ..pre
            })
            &&& pm == m
            &&& cycles == 3
        },
        // LD HL, SP + i8: flags as ADD SP, i8
        0xF8 => {
            let res = spec_wadd16(sp, spec_sign_ext(imm8));
            &&& post == (Cpu {
                regs: Registers {
                    h: (res / 256) as u8,
                    l: (res % 256) as u8,
                    pc: pc1,
                    f: spec_flags(
                        false,
                        false,
                        sp % 16 + imm8 % 16 > 15,
                        sp % 256 + imm8 > 255,
                    ),
                    ..pre.regs
                },
                ..pre
            })
            &&& pm == m
            &&& cycles == 3
        },
        // POP r16 (the AF form masks the low nibble of F)
        0xC1 | 0xD1 | 0xE1 | 0xF1 => {
            let p = (instr / 16) % 4;
            let data = spec_read_word(m, sp);
            let base = Registers { sp: spec_sp_inc(sp), ..pre.regs };
            let regs2 = if p == 0 {
                Registers { b: (data / 256) as u8, c: (data % 256) as u8, ..base }
            } else if p == 1 {
                Registers { d: (data / 256) as u8, e: (data % 256) as u8, ..base }
            } else if p == 2 {
                Registers { h: (data / 256) as u8, l: (data % 256) as u8, ..base }
            } else {
                Registers { a: (data / 256) as u8, f: ((data % 256) / 16 * 16) as u8, ..base }
            };
            &&& post == (Cpu { regs: regs2, ..pre })
            &&& pm == m
            &&& cycles == 3
        },
        // RET
        0xC9 => {
            &&& post == (Cpu {
                regs: Registers { pc: spec_read_word(m, sp), sp: spec_sp_inc(sp), ..pre.regs },
                ..pre
            })
            &&& pm == m
            &&& cycles == 4
        },
        // RETI: return and switch the master enable back on at once, with
        // none of the one-instruction latency of the enable opcode
        0xD9 => {
            &&& post == (Cpu {
                regs: Registers { pc: spec_read_word(m, sp), sp: spec_sp_inc(sp), ..pre.regs },
                ime: InterruptMasterEnable::Enabled,
                ..pre
            })
            &&& pm == m
            &&& cycles == 4
        },
        // JP HL
        0xE9 => {
            &&& post == (Cpu { regs: Registers { pc: pre.regs.spec_hl(), ..pre.regs }, ..pre })
            &&& pm == m
            &&& cycles == 1
        },
        // LD SP, HL
        0xF9 => {
            &&& post == (Cpu { regs: Registers { sp: pre.regs.spec_hl(), ..pre.regs }, ..pre })
            &&& pm == m
            &&& cycles == 2
        },
        // JP cc, u16
        0xC2 | 0xCA | 0xD2 | 0xDA => {
            let taken = spec_cond(pre.regs, ((instr / 8) % 4) as int);
            &&& post == (Cpu {
                regs: Registers { pc: if taken { imm16 } else { pc2 }, ..pre.regs },
                ..pre
            })
            &&& pm == m
            &&& cycles == (if taken { 4u8 } else { 3u8 })
        },
        // LD (FF00 + C), A
        0xE2 => {
            &&& post == pre
            &&& pm == spec_write_byte(m, (0xFF00 + pre.regs.c) as u16, pre.regs.a)
            &&& cycles == 2
        },
        // LD (u16), A
        0xEA => {
            &&& post == (Cpu { regs: Registers { pc: pc2, ..pre.regs }, ..pre })
            &&& pm == spec_write_byte(m, imm16, pre.regs.a)
            &&& cycles == 4
        },
        // LD A, (FF00 + C)
        0xF2 => {
            &&& post == (Cpu {
                regs: Registers {
                    a: spec_read_byte(m, (0xFF00 + pre.regs.c) as u16),
                    ..pre.regs
                },
                ..pre
            })
            &&& pm == m
            &&& cycles == 2
        },
        // LD A, (u16)
        0xFA => {
            &&& post == (Cpu {
                regs: Registers { a: spec_read_byte(m, imm16), pc: pc2, ..pre.regs },
                ..pre
            })
            &&& pm == m
            &&& cycles == 4
        },
        // JP u16
        0xC3 => {
            &&& post == (Cpu { regs: Registers { pc: imm16, ..pre.regs }, ..pre })
            &&& pm == m
            &&& cycles == 4
        },
        // CB prefix: one opcode of the secondary space
        0xCB => spec_cb(
            Cpu { regs: Registers { pc: pc1, ..pre.regs }, ..pre },
            m,
            imm8,
            post,
            pm,
            cycles,
        ),
        // DI
        0xF3 => {
            &&& post == (Cpu { ime: InterruptMasterEnable::Disabled, ..pre })
            &&& pm == m
            &&& cycles == 1
        },
        // EI: takes effect one full instruction later; a no-op when the
        // master enable is already on
        0xFB => {
            &&& post == (Cpu {
                ime: if (pre.ime matches InterruptMasterEnable::Enabled) {
                    InterruptMasterEnable::Enabled
                } else {
                    InterruptMasterEnable::EnabledWithDelay
                },
                ..pre
            })
            &&& pm == m
            &&& cycles == 1
        },
        // CALL cc, u16
        0xC4 | 0xCC | 0xD4 | 0xDC => {
            let taken = spec_cond(pre.regs, ((instr / 8) % 4) as int);
            if taken {
                &&& post == (Cpu {
                    regs: Registers { pc: imm16, sp: spec_sp_dec(sp), ..pre.regs },
                    ..pre
                })
                &&& pm == spec_write_word(m, spec_sp_dec(sp), pc2)
                &&& cycles == 6
            } else {
                &&& post == (Cpu { regs: Registers { pc: pc2, ..pre.regs }, ..pre })
                &&& pm == m
                &&& cycles == 3
            }
        },
        // PUSH r16
        0xC5 | 0xD5 | 0xE5 | 0xF5 => {
            let p = (instr / 16) % 4;
            let val = if p == 0 {
                pre.regs.spec_bc()
            } else if p == 1 {
                pre.regs.spec_de()
            } else if p == 2 {
                pre.regs.spec_hl()
            } else {
                pre.regs.spec_af()
            };
            &&& post == (Cpu { regs: Registers { sp: spec_sp_dec(sp), ..pre.regs }, ..pre })
            &&& pm == spec_write_word(m, spec_sp_dec(sp), val)
            &&& cycles == 4
        },
        // CALL u16
        0xCD => {
            &&& post == (Cpu {
                regs: Registers { pc: imm16, sp: spec_sp_dec(sp), ..pre.regs },
                ..pre
            })
            &&& pm == spec_write_word(m, spec_sp_dec(sp), pc2)
            &&& cycles == 6
        },
        // ALU A, u8
        0xC6 | 0xCE | 0xD6 | 0xDE | 0xE6 | 0xEE | 0xF6 | 0xFE => {
            &&& post == spec_alu(
                Cpu { regs: Registers { pc: pc1, ..pre.regs }, ..pre },
                ((instr / 8) % 8) as int,
                imm8,
            )
            &&& pm == m
            &&& cycles == 2
        },
        // RST: call one of the eight fixed low-memory targets
        0xC7 | 0xCF | 0xD7 | 0xDF | 0xE7 | 0xEF | 0xF7 | 0xFF => {
            &&& post == (Cpu {
                regs: Registers {
                    pc: (((instr / 8) % 8) * 8) as u16,
                    sp: spec_sp_dec(sp),
                    ..pre.regs
                },
                ..pre
            })
            &&& pm == spec_write_word(m, spec_sp_dec(sp), pc)
            &&& cycles == 4
        },
        // LD r8, r8 (0x76 is HALT, matched above) and ALU A, r8; the
        // unassigned opcodes have no defined transition
        _ => {
            if 0x40 <= instr <= 0x7F {
                let src = (instr % 8) as int;
                let dst = ((instr / 8) % 8) as int;
                let rm = spec_set_r8(pre.regs, m, dst, spec_r8(pre.regs, m, src));
                &&& post == (Cpu { regs: rm.0, ..pre })
                &&& pm == rm.1
                &&& cycles == (if src == 6 || dst == 6 { 2u8 } else { 1u8 })
            } else if 0x80 <= instr <= 0xBF {
                &&& post == spec_alu(
                    pre,
                    ((instr / 8) % 8) as int,
                    spec_r8(pre.regs, m, (instr % 8) as int),
                )
                &&& pm == m
                &&& cycles == (if instr % 8 == 6 { 2u8 } else { 1u8 })
            } else {
                false
            }
        },
    }
}

impl Cpu {
    /// Read the next instruction byte and advance PC past it.
    fn fetch_imm8(&mut self, mmu: &Mmu) -> (r: u8)
        requires
            mmu.wf(),
        ensures
            r == spec_read_byte(mmu@, old(self).regs.pc),
            *final(self) == (Cpu {
                regs: Registers { pc: spec_wrap_inc(old(self).regs.pc), ..old(self).regs },
                ..*old(self)
            }),
    {
        let r = mmu.read_byte(self.regs.pc);
        self.regs.pc = self.regs.pc.wrapping_add(1);
        r
    }

    /// Read the next two instruction bytes as a little-endian word and
    /// advance PC past them.
    fn fetch_imm16(&mut self, mmu: &Mmu) -> (r: u16)
        requires
            mmu.wf(),
        ensures
            r == spec_read_word(mmu@, old(self).regs.pc),
            *final(self) == (Cpu {
                regs: Registers {
                    pc: spec_wrap_inc(spec_wrap_inc(old(self).regs.pc)),
                    ..old(self).regs
                },
                ..*old(self)
            }),
    {
        let r = mmu.read_word(self.regs.pc);
        self.regs.pc = self.regs.pc.wrapping_add(2);
        r
    }

    fn check_cond(&self, idx: u8) -> (r: bool)
        requires
            idx < 4,
        ensures
            r == spec_cond(self.regs, idx as int),
    {
        if idx == 0 {
            !self.regs.get_flag(FlagMask::Z)
        } else if idx == 1 {
            self.regs.get_flag(FlagMask::Z)
        } else if idx == 2 {
            !self.regs.get_flag(FlagMask::C)
        } else {
            self.regs.get_flag(FlagMask::C)
        }
    }

    fn get_r16(&self, idx: u8) -> (r: u16)
        requires
            idx < 4,
        ensures
            r == spec_r16(self.regs, idx as int),
    {
        if idx == 0 {
            self.regs.get_bc()
        } else if idx == 1 {
            self.regs.get_de()
        } else if idx == 2 {
            self.regs.get_hl()
        } else {
            self.regs.sp
        }
    }

    fn set_r16(&mut self, idx: u8, val: u16)
        requires
            idx < 4,
        ensures
            *final(self) == (Cpu {
                regs: spec_with_r16(old(self).regs, idx as int, val),
                ..*old(self)
            }),
    {
        if idx == 0 {
            self.regs.set_bc(val);
        } else if idx == 1 {
            self.regs.set_de(val);
        } else if idx == 2 {
            self.regs.set_hl(val);
        } else {
            self.regs.sp = val;
        }
    }

    fn get_r8(&self, mmu: &Mmu, idx: u8) -> (r: u8)
        requires
            idx < 8,
            mmu.wf(),
        ensures
            r == spec_r8(self.regs, mmu@, idx as int),
    {
        if idx == 0 {
            self.regs.b
        } else if idx == 1 {
            self.regs.c
        } else if idx == 2 {
            self.regs.d
        } else if idx == 3 {
            self.regs.e
        } else if idx == 4 {
            self.regs.h
        } else if idx == 5 {
            self.regs.l
        } else if idx == 6 {
            mmu.read_byte(self.regs.get_hl())
        } else {
            self.regs.a
        }
    }

    fn set_r8(&mut self, mmu: &mut Mmu, idx: u8, data: u8)
        requires
            idx < 8,
            old(mmu).wf(),
        ensures
            final(mmu).wf(),
            (final(self).regs, final(mmu)@) == spec_set_r8(
                old(self).regs,
                old(mmu)@,
                idx as int,
                data,
            ),
            *final(self) == (Cpu { regs: final(self).regs, ..*old(self) }),
    {
        if idx == 0 {
            self.regs.b = data;
        } else if idx == 1 {
            self.regs.c = data;
        } else if idx == 2 {
            self.regs.d = data;
        } else if idx == 3 {
            self.regs.e = data;
        } else if idx == 4 {
            self.regs.h = data;
        } else if idx == 5 {
            self.regs.l = data;
        } else if idx == 6 {
            let addr = self.regs.get_hl();
            mmu.write_byte(addr, data);
        } else {
            self.regs.a = data;
        }
    }

    fn alu_dispatch(&mut self, op: u8, val: u8)
        requires
            op < 8,
        ensures
            *final(self) == spec_alu(*old(self), op as int, val),
            final(self).regs.wf(),
    {
        if op == 0 {
            self.add_u8(val);
        } else if op == 1 {
            self.adc_u8(val);
        } else if op == 2 {
            self.sub_u8(val);
        } else if op == 3 {
            self.sbc_u8(val);
        } else if op == 4 {
            self.and_u8(val);
        } else if op == 5 {
            self.xor_u8(val);
        } else if op == 6 {
            self.or_u8(val);
        } else {
            self.cp_u8(val);
        }
    }

    fn cb_bit_mask(sel: u8) -> (r: u8)
        requires
            sel < 8,
        ensures
            r == spec_cb_bit(sel as int),
    {
        if sel == 0 {
            0x01
        } else if sel == 1 {
            0x02
        } else if sel == 2 {
            0x04
        } else if sel == 3 {
            0x08
        } else if sel == 4 {
            0x10
        } else if sel == 5 {
            0x20
        } else if sel == 6 {
            0x40
        } else {
            0x80
        }
    }

    /// Execute one opcode of the secondary (CB-prefixed) space; the opcode
    /// byte `instr` has already been fetched.
    pub fn cb_instructions(&mut self, mmu: &mut Mmu, instr: u8) -> (cycles: u8)
        requires
            old(self).regs.wf(),
            old(mmu).wf(),
        ensures
            final(self).regs.wf(),
            final(mmu).wf(),
            spec_cb(*old(self), old(mmu)@, instr, *final(self), final(mmu)@, cycles),
    {
        let idx = instr % 8;
        let sel = (instr / 8) % 8;
        if instr < 0x40 {
            let mut operand = self.get_r8(mmu, idx);
            if sel == 0 {
                self.rlc_u8(&mut operand);
            } else if sel == 1 {
                self.rrc_u8(&mut operand);
            } else if sel == 2 {
                self.rl_u8(&mut operand);
            } else if sel == 3 {
                self.rr_u8(&mut operand);
            } else if sel == 4 {
                self.sla_u8(&mut operand);
            } else if sel == 5 {
                self.sra_u8(&mut operand);
            } else if sel == 6 {
                self.swap_u8(&mut operand);
            } else {
                self.srl_u8(&mut operand);
            }
            self.set_r8(mmu, idx, operand);
            if idx == 6 { 4 } else { 2 }
        } else if instr < 0x80 {
            let x = self.get_r8(mmu, idx);
            self.bit(x, sel);
            if idx == 6 { 3 } else { 2 }
        } else if instr < 0xC0 {
            let x = self.get_r8(mmu, idx);
            let mask = Self::cb_bit_mask(sel);
            self.set_r8(mmu, idx, x & !mask);
            if idx == 6 { 4 } else { 2 }
        } else {
            let x = self.get_r8(mmu, idx);
            let mask = Self::cb_bit_mask(sel);
            self.set_r8(mmu, idx, x | mask);
            if idx == 6 { 4 } else { 2 }
        }
    }

    /// Execute one opcode of the primary space; the opcode byte `instr` has
    /// already been fetched and PC points at its first operand byte.
    pub fn instructions(&mut self, mmu: &mut Mmu, instr: u8) -> (cycles: u8)
        requires
            old(self).regs.wf(),
            old(mmu).wf(),
            !spec_illegal(instr),
        ensures
            final(self).regs.wf(),
            final(mmu).wf(),
            spec_instr(*old(self), old(mmu)@, instr, *final(self), final(mmu)@, cycles),
    {
        match instr {
            // NOP; STOP idles the same way
            0x00 | 0x10 => 1,
            // LD (u16), SP
            0x08 => {
                let addr = self.fetch_imm16(mmu);
                let sp = self.regs.sp;
                mmu.write_word(addr, sp);
                5
            },
            // JR (unconditional)
            0x18 => {
                let d = self.fetch_imm8(mmu);
                self.regs.pc = self.regs.pc.wrapping_add(sign_ext(d));
                3
            },
            // JR cc
            0x20 | 0x28 | 0x30 | 0x38 => {
                let d = self.fetch_imm8(mmu);
                if self.check_cond((instr / 8) % 4) {
                    self.regs.pc = self.regs.pc.wrapping_add(sign_ext(d));
                    3
                } else {
                    2
                }
            },
            // LD r16, u16
            0x01 | 0x11 | 0x21 | 0x31 => {
                let data = self.fetch_imm16(mmu);
                self.set_r16((instr / 16) % 4, data);
                3
            },
            // ADD HL, r16
            0x09 | 0x19 | 0x29 | 0x39 => {
                let hl = self.regs.get_hl();
                let r16 = self.get_r16((instr / 16) % 4);
                let h = hl % 0x1000 + r16 % 0x1000 >= 0x1000;
                let c = (hl as u32) + (r16 as u32) > 0xFFFF;
                self.regs.set_hl(hl.wrapping_add(r16));
                let z = self.regs.get_flag(FlagMask::Z);
                self.regs.set_flags(z, false, h, c);
                2
            },
            // LD (r16), A
            0x02 | 0x12 | 0x22 | 0x32 => {
                let p = (instr / 16) % 4;
                let addr = if p == 0 {
                    self.regs.get_bc()
                } else if p == 1 {
                    self.regs.get_de()
                } else {
                    self.regs.get_hl()
                };
                if p == 2 {
                    self.regs.set_hl(addr.wrapping_add(1));
                }
                if p == 3 {
                    self.regs.set_hl(addr.wrapping_sub(1));
                }
                let a = self.regs.a;
                mmu.write_byte(addr, a);
                2
            },
            // LD A, (r16)
            0x0A | 0x1A | 0x2A | 0x3A => {
                let p = (instr / 16) % 4;
                let addr = if p == 0 {
                    self.regs.get_bc()
                } else if p == 1 {
                    self.regs.get_de()
                } else {
                    self.regs.get_hl()
                };
                if p == 2 {
                    self.regs.set_hl(addr.wrapping_add(1));
                }
                if p == 3 {
                    self.regs.set_hl(addr.wrapping_sub(1));
                }
                self.regs.a = mmu.read_byte(addr);
                2
            },
            // INC r16
            0x03 | 0x13 | 0x23 | 0x33 => {
                let p = (instr / 16) % 4;
                let val = self.get_r16(p);
                self.set_r16(p, val.wrapping_add(1));
                2
            },
            // DEC r16
            0x0B | 0x1B | 0x2B | 0x3B => {
                let p = (instr / 16) % 4;
                let val = self.get_r16(p);
                self.set_r16(p, val.wrapping_sub(1));
                2
            },
            // INC r8
            0x04 | 0x0C | 0x14 | 0x1C | 0x24 | 0x2C | 0x34 | 0x3C => {
                let idx = (instr / 8) % 8;
                let x = self.get_r8(mmu, idx);
                let r = x.wrapping_add(1);
                let c = self.regs.get_flag(FlagMask::C);
                self.regs.set_flags(r == 0, false, x % 16 == 15, c);
                self.set_r8(mmu, idx, r);
                if idx == 6 { 3 } else { 1 }
            },
            // DEC r8
            0x05 | 0x0D | 0x15 | 0x1D | 0x25 | 0x2D | 0x35 | 0x3D => {
                let idx = (instr / 8) % 8;
                let x = self.get_r8(mmu, idx);
                let r = x.wrapping_sub(1);
                let c = self.regs.get_flag(FlagMask::C);
                self.regs.set_flags(r == 0, true, x % 16 == 0, c);
                self.set_r8(mmu, idx, r);
                if idx == 6 { 3 } else { 1 }
            },
            // LD r8, u8
            0x06 | 0x0E | 0x16 | 0x1E | 0x26 | 0x2E | 0x36 | 0x3E => {
                let idx = (instr / 8) % 8;
                let data = self.fetch_imm8(mmu);
                self.set_r8(mmu, idx, data);
                if idx == 6 { 3 } else { 2 }
            },
            // RLCA
            0x07 => {
                let a = self.regs.a;
                let carry = a & 0x80 == 0x80;
                self.regs.a = (a << 1) | (a >> 7);
                self.regs.set_flags(false, false, false, carry);
                1
            },
            // RRCA
            0x0F => {
                let a = self.regs.a;
                let carry = a & 0x01 == 0x01;
                self.regs.a = (a >> 1) | ((a & 0x01) << 7);
                self.regs.set_flags(false, false, false, carry);
                1
            },
            // RLA
            0x17 => {
                let ci: u8 = if self.regs.get_flag(FlagMask::C) { 1 } else { 0 };
                let a = self.regs.a;
                let carry = a & 0x80 == 0x80;
                self.regs.a = (a << 1) | ci;
                self.regs.set_flags(false, false, false, carry);
                1
            },
            // RRA
            0x1F => {
                let ci: u8 = if self.regs.get_flag(FlagMask::C) { 1 } else { 0 };
                let a = self.regs.a;
                let carry = a & 0x01 == 0x01;
                self.regs.a = (a >> 1) | (ci << 7);
                self.regs.set_flags(false, false, false, carry);
                1
            },
            // DAA
            0x27 => {
                self.daa();
                1
            },
            // CPL
            0x2F => {
                let z = self.regs.get_flag(FlagMask::Z);
                let c = self.regs.get_flag(FlagMask::C);
                self.regs.a = !self.regs.a;
                self.regs.set_flags(z, true, true, c);
                1
            },
            // SCF
            0x37 => {
                let z = self.regs.get_flag(FlagMask::Z);
                self.regs.set_flags(z, false, false, true);
                1
            },
            // CCF
            0x3F => {
                let z = self.regs.get_flag(FlagMask::Z);
                let c = self.regs.get_flag(FlagMask::C);
                self.regs.set_flags(z, false, false, !c);
                1
            },
            // HALT
            0x76 => {
                self.state = CpuState::Halted;
                1
            },
            // LD r8, r8
            0x40..=0x75 | 0x77..=0x7F => {
                let src = instr % 8;
                let dst = (instr / 8) % 8;
                let data = self.get_r8(mmu, src);
                self.set_r8(mmu, dst, data);
                if src == 6 || dst == 6 { 2 } else { 1 }
            },
            // ALU A, r8
            0x80..=0xBF => {
                let val = self.get_r8(mmu, instr % 8);
                self.alu_dispatch((instr / 8) % 8, val);
                if instr % 8 == 6 { 2 } else { 1 }
            },
            // RET cc
            0xC0 | 0xC8 | 0xD0 | 0xD8 => {
                if self.check_cond((instr / 8) % 4) {
                    let w = self.stack_pop(mmu);
                    self.regs.pc = w;
                    5
                } else {
                    2
                }
            },
            // LD (FF00 + u8), A
            0xE0 => {
                let d = self.fetch_imm8(mmu);
                let a = self.regs.a;
                mmu.write_byte(0xFF00 + d as u16, a);
                3
            },
            // ADD SP, i8
            0xE8 => {
                let d = self.fetch_imm8(mmu);
                let sp = self.regs.sp;
                let h = sp % 16 + (d % 16) as u16 > 15;
                let c = sp % 256 + d as u16 > 255;
                self.regs.sp = sp.wrapping_add(sign_ext(d));
                self.regs.set_flags(false, false, h, c);
                4
            },
            // LD A, (FF00 + u8)
            0xF0 => {
                let d = self.fetch_imm8(mmu);
                self.regs.a = mmu.read_byte(0xFF00 + d as u16);
                3
            },
            // LD HL, SP + i8
            0xF8 => {
                let d = self.fetch_imm8(mmu);
                let sp = self.regs.sp;
                let h = sp % 16 + (d % 16) as u16 > 15;
                let c = sp % 256 + d as u16 > 255;
                self.regs.set_hl(sp.wrapping_add(sign_ext(d)));
                self.regs.set_flags(false, false, h, c);
                3
            },
            // POP r16
            0xC1 | 0xD1 | 0xE1 | 0xF1 => {
                let data = self.stack_pop(mmu);
                let p = (instr / 16) % 4;
                if p == 0 {
                    self.regs.set_bc(data);
                } else if p == 1 {
                    self.regs.set_de(data);
                } else if p == 2 {
                    self.regs.set_hl(data);
                } else {
                    self.regs.set_af(data);
                }
                3
            },
            // RET
            0xC9 => {
                let w = self.stack_pop(mmu);
                self.regs.pc = w;
                4
            },
            // RETI: the master enable comes back on at once
            0xD9 => {
                let w = self.stack_pop(mmu);
                self.regs.pc = w;
                self.ime = InterruptMasterEnable::Enabled;
                4
            },
            // JP HL
            0xE9 => {
                self.regs.pc = self.regs.get_hl();
                1
            },
            // LD SP, HL
            0xF9 => {
                self.regs.sp = self.regs.get_hl();
                2
            },
            // JP cc, u16
            0xC2 | 0xCA | 0xD2 | 0xDA => {
                let addr = self.fetch_imm16(mmu);
                if self.check_cond((instr / 8) % 4) {
                    self.regs.pc = addr;
                    4
                } else {
                    3
                }
            },
            // LD (FF00 + C), A
            0xE2 => {
                let a = self.regs.a;
                mmu.write_byte(0xFF00 + self.regs.c as u16, a);
                2
            },
            // LD (u16), A
            0xEA => {
                let addr = self.fetch_imm16(mmu);
                let a = self.regs.a;
                mmu.write_byte(addr, a);
                4
            },
            // LD A, (FF00 + C)
            0xF2 => {
                self.regs.a = mmu.read_byte(0xFF00 + self.regs.c as u16);
                2
            },
            // LD A, (u16)
            0xFA => {
                let addr = self.fetch_imm16(mmu);
                self.regs.a = mmu.read_byte(addr);
                4
            },
            // JP u16
            0xC3 => {
                let addr = self.fetch_imm16(mmu);
                self.regs.pc = addr;
                4
            },
            // CB prefix
            0xCB => {
                let sub = self.fetch_imm8(mmu);
                self.cb_instructions(mmu, sub)
            },
            // DI
            0xF3 => {
                self.ime = InterruptMasterEnable::Disabled;
                1
            },
            // EI
            0xFB => {
                if !matches!(self.ime, InterruptMasterEnable::Enabled) {
                    self.ime = InterruptMasterEnable::EnabledWithDelay;
                }
                1
            },
            // CALL cc, u16
            0xC4 | 0xCC | 0xD4 | 0xDC => {
                let addr = self.fetch_imm16(mmu);
                if self.check_cond((instr / 8) % 4) {
                    let pc = self.regs.pc;
                    self.stack_push(mmu, pc);
                    self.regs.pc = addr;
                    6
                } else {
                    3
                }
            },
            // PUSH r16
            0xC5 | 0xD5 | 0xE5 | 0xF5 => {
                let p = (instr / 16) % 4;
                let val = if p == 0 {
                    self.regs.get_bc()
                } else if p == 1 {
                    self.regs.get_de()
                } else if p == 2 {
                    self.regs.get_hl()
                } else {
                    self.regs.get_af()
                };
                self.stack_push(mmu, val);
                4
            },
            // CALL u16
            0xCD => {
                let addr = self.fetch_imm16(mmu);
                let pc = self.regs.pc;
                self.stack_push(mmu, pc);
                self.regs.pc = addr;
                6
            },
            // ALU A, u8
            0xC6 | 0xCE | 0xD6 | 0xDE | 0xE6 | 0xEE | 0xF6 | 0xFE => {
                let d = self.fetch_imm8(mmu);
                self.alu_dispatch((instr / 8) % 8, d);
                2
            },
            // RST
            0xC7 | 0xCF | 0xD7 | 0xDF | 0xE7 | 0xEF | 0xF7 | 0xFF => {
                let pc = self.regs.pc;
                self.stack_push(mmu, pc);
                self.regs.pc = ((instr / 8) % 8) as u16 * 8;
                4
            },
            // the unassigned opcodes are excluded by the precondition
            _ => {
                proof {
                    assert(false);
                }
                0
            },
        }
    }
}

/// A displacement byte sign-extended to 16 bits.
fn sign_ext(d: u8) -> (r: u16)
    ensures
        r == spec_sign_ext(d),
{
    if d < 0x80 {
        d as u16
    } else {
        d as u16 + 0xFF00
    }
}

} // verus!
