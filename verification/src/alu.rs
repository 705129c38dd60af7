//! The arithmetic/logic unit: 8-bit operations against the accumulator,
//! the decimal-adjust algorithm, and the rotate/shift/swap/bit family of the
//! secondary opcode space. Each operation has a spec-level transition
//! function pinning down the result and all four flags.

use vstd::prelude::*;

use crate::cpu::Cpu;
use crate::registers::{spec_flag, spec_flags, FlagMask, Registers};

verus! {

/// 8-bit add: carry out of bit 7, half-carry out of bit 3, N cleared.
pub open spec fn spec_add(cpu: Cpu, val: u8) -> Cpu {
    let a = cpu.regs.a;
    let r = ((a + val) % 256) as u8;
    Cpu {
        regs: Registers {
            a: r,
            f: spec_flags(r == 0, false, a % 16 + val % 16 > 15, a + val > 255),
            ..cpu.regs
        },
        ..cpu
    }
}

/// 8-bit add flag law: for every accumulator value and every operand, the
/// add leaves the wrapped sum in A, sets C iff the unsigned sum exceeds
/// 255, sets H iff the low nibbles sum past 15, sets Z iff the wrapped sum
/// is zero, and always clears N.
pub proof fn lemma_add_flags(cpu: Cpu, val: u8)
    ensures
        ({
            let post = spec_add(cpu, val);
            &&& post.regs.a == (cpu.regs.a + val) % 256
            &&& spec_flag(post.regs.f, FlagMask::C) == (cpu.regs.a + val > 255)
            &&& spec_flag(post.regs.f, FlagMask::H) == (cpu.regs.a % 16 + val % 16 > 15)
            &&& spec_flag(post.regs.f, FlagMask::Z) == ((cpu.regs.a + val) % 256 == 0)
            &&& !spec_flag(post.regs.f, FlagMask::N)
        }),
{
    crate::registers::lemma_flags(
        (cpu.regs.a + val) % 256 == 0,
        false,
        cpu.regs.a % 16 + val % 16 > 15,
        cpu.regs.a + val > 255,
    );
}

/// 8-bit add with carry-in.
pub open spec fn spec_adc(cpu: Cpu, val: u8) -> Cpu {
    let a = cpu.regs.a;
    let ci: u8 = if spec_flag(cpu.regs.f, FlagMask::C) { 1 } else { 0 };
    let r = ((a + val + ci) % 256) as u8;
    Cpu {
        regs: Registers {
            a: r,
            f: spec_flags(r == 0, false, a % 16 + val % 16 + ci > 15, a + val + ci > 255),
            ..cpu.regs
        },
        ..cpu
    }
}

/// 8-bit subtract: borrow into bit 7 sets C, nibble-isolated borrow sets H,
/// N set.
pub open spec fn spec_sub(cpu: Cpu, val: u8) -> Cpu {
    let a = cpu.regs.a;
    let r = ((a + 256 - val) % 256) as u8;
    Cpu {
        regs: Registers {
            a: r,
            f: spec_flags(r == 0, true, a % 16 < val % 16, a < val),
            ..cpu.regs
        },
        ..cpu
    }
}

/// 8-bit subtract with carry-in.
pub open spec fn spec_sbc(cpu: Cpu, val: u8) -> Cpu {
    let a = cpu.regs.a;
    let ci: u8 = if spec_flag(cpu.regs.f, FlagMask::C) { 1 } else { 0 };
    let r = ((a + 512 - val - ci) % 256) as u8;
    Cpu {
        regs: Registers {
            a: r,
            f: spec_flags(r == 0, true, val % 16 + ci > a % 16, val + ci > a),
            ..cpu.regs
        },
        ..cpu
    }
}

/// Bitwise AND into A: H set, C cleared.
pub open spec fn spec_and(cpu: Cpu, val: u8) -> Cpu {
    let r = cpu.regs.a & val;
    Cpu {
        regs: Registers { a: r, f: spec_flags(r == 0, false, true, false), ..cpu.regs },
        ..cpu
    }
}

/// Bitwise XOR into A: N, H, C cleared.
pub open spec fn spec_xor(cpu: Cpu, val: u8) -> Cpu {
    let r = cpu.regs.a ^ val;
    Cpu {
        regs: Registers { a: r, f: spec_flags(r == 0, false, false, false), ..cpu.regs },
        ..cpu
    }
}

/// Bitwise OR into A: N, H, C cleared.
pub open spec fn spec_or(cpu: Cpu, val: u8) -> Cpu {
    let r = cpu.regs.a | val;
    Cpu {
        regs: Registers { a: r, f: spec_flags(r == 0, false, false, false), ..cpu.regs },
        ..cpu
    }
}

/// Compare: the flags of a subtract, with A untouched.
pub open spec fn spec_cp(cpu: Cpu, val: u8) -> Cpu {
    let a = cpu.regs.a;
    Cpu {
        regs: Registers {
            f: spec_flags(a == val, true, a % 16 < val % 16, a < val),
            ..cpu.regs
        },
        ..cpu
    }
}

/// Dispatch over the eight accumulator operations, in opcode order.
pub open spec fn spec_alu(cpu: Cpu, op: int, val: u8) -> Cpu {
    if op == 0 {
        spec_add(cpu, val)
    } else if op == 1 {
        spec_adc(cpu, val)
    } else if op == 2 {
        spec_sub(cpu, val)
    } else if op == 3 {
        spec_sbc(cpu, val)
    } else if op == 4 {
        spec_and(cpu, val)
    } else if op == 5 {
        spec_xor(cpu, val)
    } else if op == 6 {
        spec_or(cpu, val)
    } else {
        spec_cp(cpu, val)
    }
}

/// Decimal adjust after an addition (N clear): add 0x60 when C is set or A
/// exceeds 0x99 (setting C), then add 0x06 when H is set or the low nibble
/// exceeds 9. After a subtraction (N set): subtract the same constants
/// under C and H respectively, never setting C. Z is recomputed from the
/// final A; H is always cleared; N is kept.
pub open spec fn spec_daa(cpu: Cpu) -> Cpu {
    let a = cpu.regs.a;
    let n = spec_flag(cpu.regs.f, FlagMask::N);
    let h = spec_flag(cpu.regs.f, FlagMask::H);
    let c = spec_flag(cpu.regs.f, FlagMask::C);
    if !n {
        let high = c || a > 0x99;
        let a1: u8 = if high { if a + 0x60 > 255 { (a - 0xA0) as u8 } else { (a + 0x60) as u8 } } else { a };
        let a2: u8 = if h || a1 % 16 > 0x09 {
            if a1 + 0x06 > 255 { (a1 - 0xFA) as u8 } else { (a1 + 0x06) as u8 }
        } else {
            a1
        };
        Cpu {
            regs: Registers { a: a2, f: spec_flags(a2 == 0, n, false, high), ..cpu.regs },
            ..cpu
        }
    } else {
        let a1: u8 = if c { if a < 0x60 { (a + 0xA0) as u8 } else { (a - 0x60) as u8 } } else { a };
        let a2: u8 = if h { if a1 < 0x06 { (a1 + 0xFA) as u8 } else { (a1 - 0x06) as u8 } } else { a1 };
        Cpu {
            regs: Registers { a: a2, f: spec_flags(a2 == 0, n, false, c), ..cpu.regs },
            ..cpu
        }
    }
}

/// Rotate left circular: bit 7 into bit 0 and into C; Z from the result.
pub open spec fn spec_rlc(cpu: Cpu, x: u8) -> (Cpu, u8) {
    let r = (x << 1) | (x >> 7);
    (
        Cpu {
            regs: Registers {
                f: spec_flags(r == 0, false, false, x & 0x80 == 0x80),
                ..cpu.regs
            },
            ..cpu
        },
        r,
    )
}

/// Rotate right circular: bit 0 into bit 7 and into C.
pub open spec fn spec_rrc(cpu: Cpu, x: u8) -> (Cpu, u8) {
    let r = (x >> 1) | ((x & 0x01) << 7);
    (
        Cpu {
            regs: Registers {
                f: spec_flags(r == 0, false, false, x & 0x01 == 0x01),
                ..cpu.regs
            },
            ..cpu
        },
        r,
    )
}

/// Rotate left through carry: C into bit 0, bit 7 into C.
pub open spec fn spec_rl(cpu: Cpu, x: u8) -> (Cpu, u8) {
    let ci: u8 = if spec_flag(cpu.regs.f, FlagMask::C) { 1 } else { 0 };
    let r = (x << 1) | ci;
    (
        Cpu {
            regs: Registers {
                f: spec_flags(r == 0, false, false, x & 0x80 == 0x80),
                ..cpu.regs
            },
            ..cpu
        },
        r,
    )
}

/// Rotate right through carry: C into bit 7, bit 0 into C.
pub open spec fn spec_rr(cpu: Cpu, x: u8) -> (Cpu, u8) {
    let ci: u8 = if spec_flag(cpu.regs.f, FlagMask::C) { 1 } else { 0 };
    let r = (x >> 1) | (ci << 7);
    (
        Cpu {
            regs: Registers {
                f: spec_flags(r == 0, false, false, x & 0x01 == 0x01),
                ..cpu.regs
            },
            ..cpu
        },
        r,
    )
}

/// Shift left arithmetic: bit 7 into C, zero into bit 0.
pub open spec fn spec_sla(cpu: Cpu, x: u8) -> (Cpu, u8) {
    let r = x << 1;
    (
        Cpu {
            regs: Registers {
                f: spec_flags(r == 0, false, false, x & 0x80 == 0x80),
                ..cpu.regs
            },
            ..cpu
        },
        r,
    )
}

/// Shift right arithmetic: bit 7 kept, bit 0 into C.
pub open spec fn spec_sra(cpu: Cpu, x: u8) -> (Cpu, u8) {
    let r = (x >> 1) | (x & 0x80);
    (
        Cpu {
            regs: Registers {
                f: spec_flags(r == 0, false, false, x & 0x01 == 0x01),
                ..cpu.regs
            },
            ..cpu
        },
        r,
    )
}

/// Swap the two nibbles; C cleared.
pub open spec fn spec_swap(cpu: Cpu, x: u8) -> (Cpu, u8) {
    let r = ((x & 0x0F) << 4) | ((x & 0xF0) >> 4);
    (
        Cpu {
            regs: Registers { f: spec_flags(r == 0, false, false, false), ..cpu.regs },
            ..cpu
        },
        r,
    )
}

/// Shift right logical: zero into bit 7, bit 0 into C.
pub open spec fn spec_srl(cpu: Cpu, x: u8) -> (Cpu, u8) {
    let r = x >> 1;
    (
        Cpu {
            regs: Registers {
                f: spec_flags(r == 0, false, false, x & 0x01 == 0x01),
                ..cpu.regs
            },
            ..cpu
        },
        r,
    )
}

/// Dispatch over the eight rotate/shift/swap operations, in opcode order.
pub open spec fn spec_rot(cpu: Cpu, op: int, x: u8) -> (Cpu, u8) {
    if op == 0 {
        spec_rlc(cpu, x)
    } else if op == 1 {
        spec_rrc(cpu, x)
    } else if op == 2 {
        spec_rl(cpu, x)
    } else if op == 3 {
        spec_rr(cpu, x)
    } else if op == 4 {
        spec_sla(cpu, x)
    } else if op == 5 {
        spec_sra(cpu, x)
    } else if op == 6 {
        spec_swap(cpu, x)
    } else {
        spec_srl(cpu, x)
    }
}

/// Bit test: Z set iff the tested bit of `val` is clear; H set, N cleared,
/// C untouched.
pub open spec fn spec_bit_test(cpu: Cpu, val: u8, b: u8) -> Cpu {
    Cpu {
        regs: Registers {
            f: spec_flags(
                val & (1u8 << b) == 0,
                false,
                true,
                spec_flag(cpu.regs.f, FlagMask::C),
            ),
            ..cpu.regs
        },
        ..cpu
    }
}

impl Cpu {
    pub fn add_u8(&mut self, val: u8)
        ensures
            *final(self) == spec_add(*old(self), val),
            final(self).regs.wf(),
    {
        let a = self.regs.a;
        let r = a.wrapping_add(val);
        let c = (a as u16) + (val as u16) > 255;
        let h = a % 16 + val % 16 > 15;
        self.regs.a = r;
        self.regs.set_flags(r == 0, false, h, c);
    }

    pub fn adc_u8(&mut self, val: u8)
        ensures
            *final(self) == spec_adc(*old(self), val),
            final(self).regs.wf(),
    {
        let ci: u8 = if self.regs.get_flag(FlagMask::C) { 1 } else { 0 };
        let a = self.regs.a;
        let sum = a as u16 + val as u16 + ci as u16;
        let r = (sum % 256) as u8;
        let c = sum > 255;
        let h = a % 16 + val % 16 + ci > 15;
        self.regs.a = r;
        self.regs.set_flags(r == 0, false, h, c);
    }

    pub fn sub_u8(&mut self, val: u8)
        ensures
            *final(self) == spec_sub(*old(self), val),
            final(self).regs.wf(),
    {
        let a = self.regs.a;
        let r = a.wrapping_sub(val);
        let c = a < val;
        let h = a % 16 < val % 16;
        self.regs.a = r;
        self.regs.set_flags(r == 0, true, h, c);
    }

    pub fn sbc_u8(&mut self, val: u8)
        ensures
            *final(self) == spec_sbc(*old(self), val),
            final(self).regs.wf(),
    {
        let ci: u8 = if self.regs.get_flag(FlagMask::C) { 1 } else { 0 };
        let a = self.regs.a;
        let r = a.wrapping_sub(val).wrapping_sub(ci);
        let c = val as u16 + ci as u16 > a as u16;
        let h = val % 16 + ci > a % 16;
        self.regs.a = r;
        self.regs.set_flags(r == 0, true, h, c);
    }

    pub fn and_u8(&mut self, val: u8)
        ensures
            *final(self) == spec_and(*old(self), val),
            final(self).regs.wf(),
    {
        self.regs.a = self.regs.a & val;
        let z = self.regs.a == 0;
        self.regs.set_flags(z, false, true, false);
    }

    pub fn xor_u8(&mut self, val: u8)
        ensures
            *final(self) == spec_xor(*old(self), val),
            final(self).regs.wf(),
    {
        self.regs.a = self.regs.a ^ val;
        let z = self.regs.a == 0;
        self.regs.set_flags(z, false, false, false);
    }

    pub fn or_u8(&mut self, val: u8)
        ensures
            *final(self) == spec_or(*old(self), val),
            final(self).regs.wf(),
    {
        self.regs.a = self.regs.a | val;
        let z = self.regs.a == 0;
        self.regs.set_flags(z, false, false, false);
    }

    pub fn cp_u8(&mut self, val: u8)
        ensures
            *final(self) == spec_cp(*old(self), val),
            final(self).regs.wf(),
    {
        let a = self.regs.a;
        self.regs.set_flags(a == val, true, a % 16 < val % 16, a < val);
    }

    #[verifier::rlimit(30)]
    pub fn daa(&mut self)
        ensures
            *final(self) == spec_daa(*old(self)),
            final(self).regs.wf(),
    {
        let a = self.regs.a;
        let n = self.regs.get_flag(FlagMask::N);
        let h = self.regs.get_flag(FlagMask::H);
        let c = self.regs.get_flag(FlagMask::C);
        if !n {
            let high = c || a > 0x99;
            let a1 = if high { a.wrapping_add(0x60) } else { a };
            let a2 = if h || a1 % 16 > 0x09 { a1.wrapping_add(0x06) } else { a1 };
            self.regs.a = a2;
            self.regs.set_flags(a2 == 0, n, false, high);
        } else {
            let a1 = if c { a.wrapping_sub(0x60) } else { a };
            let a2 = if h { a1.wrapping_sub(0x06) } else { a1 };
            self.regs.a = a2;
            self.regs.set_flags(a2 == 0, n, false, c);
        }
    }

    pub fn rlc_u8(&mut self, reg: &mut u8)
        ensures
            (*final(self), *final(reg)) == spec_rlc(*old(self), *old(reg)),
            final(self).regs.wf(),
    {
        let x = *reg;
        let carry = x & 0x80 == 0x80;
        *reg = (x << 1) | (x >> 7);
        let z = *reg == 0;
        self.regs.set_flags(z, false, false, carry);
    }

    pub fn rrc_u8(&mut self, reg: &mut u8)
        ensures
            (*final(self), *final(reg)) == spec_rrc(*old(self), *old(reg)),
            final(self).regs.wf(),
    {
        let x = *reg;
        let carry = x & 0x01 == 0x01;
        *reg = (x >> 1) | ((x & 0x01) << 7);
        let z = *reg == 0;
        self.regs.set_flags(z, false, false, carry);
    }

    pub fn rl_u8(&mut self, reg: &mut u8)
        ensures
            (*final(self), *final(reg)) == spec_rl(*old(self), *old(reg)),
            final(self).regs.wf(),
    {
        let ci: u8 = if self.regs.get_flag(FlagMask::C) { 1 } else { 0 };
        let x = *reg;
        let carry = x & 0x80 == 0x80;
        *reg = (x << 1) | ci;
        let z = *reg == 0;
        self.regs.set_flags(z, false, false, carry);
    }

    pub fn rr_u8(&mut self, reg: &mut u8)
        ensures
            (*final(self), *final(reg)) == spec_rr(*old(self), *old(reg)),
            final(self).regs.wf(),
    {
        let ci: u8 = if self.regs.get_flag(FlagMask::C) { 1 } else { 0 };
        let x = *reg;
        let carry = x & 0x01 == 0x01;
        *reg = (x >> 1) | (ci << 7);
        let z = *reg == 0;
        self.regs.set_flags(z, false, false, carry);
    }

    pub fn sla_u8(&mut self, reg: &mut u8)
        ensures
            (*final(self), *final(reg)) == spec_sla(*old(self), *old(reg)),
            final(self).regs.wf(),
    {
        let x = *reg;
        let carry = x & 0x80 == 0x80;
        *reg = x << 1;
        let z = *reg == 0;
        self.regs.set_flags(z, false, false, carry);
    }

    pub fn sra_u8(&mut self, reg: &mut u8)
        ensures
            (*final(self), *final(reg)) == spec_sra(*old(self), *old(reg)),
            final(self).regs.wf(),
    {
        let x = *reg;
        let carry = x & 0x01 == 0x01;
        *reg = (x >> 1) | (x & 0x80);
        let z = *reg == 0;
        self.regs.set_flags(z, false, false, carry);
    }

    pub fn swap_u8(&mut self, reg: &mut u8)
        ensures
            (*final(self), *final(reg)) == spec_swap(*old(self), *old(reg)),
            final(self).regs.wf(),
    {
        let x = *reg;
        *reg = ((x & 0x0F) << 4) | ((x & 0xF0) >> 4);
        let z = *reg == 0;
        self.regs.set_flags(z, false, false, false);
    }

    pub fn srl_u8(&mut self, reg: &mut u8)
        ensures
            (*final(self), *final(reg)) == spec_srl(*old(self), *old(reg)),
            final(self).regs.wf(),
    {
        let x = *reg;
        let carry = x & 0x01 == 0x01;
        *reg = x >> 1;
        let z = *reg == 0;
        self.regs.set_flags(z, false, false, carry);
    }

    pub fn bit(&mut self, val: u8, b: u8)
        requires
            b < 8,
        ensures
            *final(self) == spec_bit_test(*old(self), val, b),
            final(self).regs.wf(),
    {
        let z = val & (1u8 << b) == 0;
        let c = self.regs.get_flag(FlagMask::C);
        self.regs.set_flags(z, false, true, c);
    }
}

} // verus!
