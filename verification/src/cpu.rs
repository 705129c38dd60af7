//! The CPU core: the register file, the run state, and the interrupt master
//! enable. One `run_instruction` call advances exactly one of: an interrupt
//! service, one opcode, or one idle cycle while halted.

use vstd::prelude::*;

use crate::instructions::{spec_illegal, spec_instr};
use crate::interrupts::{spec_interrupt, InterruptMasterEnable};
use crate::mmu::{
    spec_pending, spec_read_byte, spec_read_word, spec_wrap_inc, spec_write_word, Mmu, MmuView,
};
use crate::registers::{spec_boot_regs, Registers};

verus! {

#[derive(Clone, Copy, Debug, PartialEq, Eq, Structural)]
pub enum CpuState {
    Running,
    Halted,
}

pub struct Cpu {
    pub regs: Registers,
    pub state: CpuState,
    pub ime: InterruptMasterEnable,
}

/// The master enable after the one-instruction latency of the
/// enable-interrupts opcode has elapsed.
pub open spec fn spec_ime_advanced(ime: InterruptMasterEnable) -> InterruptMasterEnable {
    match ime {
        InterruptMasterEnable::EnabledWithDelay => InterruptMasterEnable::Enabled,
        _ => ime,
    }
}

/// The stack pointer after a push: decremented by 2, wrapping.
pub open spec fn spec_sp_dec(sp: u16) -> u16 {
    if sp >= 2 {
        (sp - 2) as u16
    } else {
        (sp + 0x10000 - 2) as u16
    }
}

/// The stack pointer after a pop: incremented by 2, wrapping.
pub open spec fn spec_sp_inc(sp: u16) -> u16 {
    if sp + 2 > 0xFFFF {
        (sp + 2 - 0x10000) as u16
    } else {
        (sp + 2) as u16
    }
}

/// Whether a step from this state fetches and executes an opcode (as
/// opposed to idling while halted or servicing an interrupt).
pub open spec fn spec_step_fetches(pre: Cpu, m: MmuView) -> bool {
    &&& pre.state matches CpuState::Running
    &&& !(pre.ime matches InterruptMasterEnable::Enabled && spec_pending(m))
}

/// One full CPU step.
/// - Halted with an enabled interrupt requested: wake (the next step will
///   fetch normally), cost 0. Halted otherwise: idle, cost 1. The real
///   hardware's duplicate-fetch quirk on waking with the master enable off
///   is intentionally not reproduced.
/// - Running with the master enable on and an interrupt requested: service
///   the highest-priority source, cost 5.
/// - Otherwise: let a delayed master enable take effect, then fetch the
///   opcode at PC, advance PC past it, and execute it.
pub open spec fn spec_step(pre: Cpu, m: MmuView, post: Cpu, pm: MmuView, cycles: u8) -> bool {
    if (pre.state matches CpuState::Halted) {
        if spec_pending(m) {
            post == (Cpu { state: CpuState::Running, ..pre }) && pm == m && cycles == 0
        } else {
            post == pre && pm == m && cycles == 1
        }
    } else if pre.ime matches InterruptMasterEnable::Enabled && spec_pending(m) {
        spec_interrupt(pre, m, post, pm, cycles)
    } else {
        let p1 = Cpu { ime: spec_ime_advanced(pre.ime), ..pre };
        let instr = spec_read_byte(m, p1.regs.pc);
        let p2 = Cpu { regs: Registers { pc: spec_wrap_inc(p1.regs.pc), ..p1.regs }, ..p1 };
        spec_instr(p2, m, instr, post, pm, cycles)
    }
}

/// Stack round trip: pushing any 16-bit value and popping it back yields
/// the value again and returns SP to where it started, with SP moving down
/// by exactly 2 on the push and up by exactly 2 on the pop. This holds
/// whenever the two pushed bytes land in plain RAM (work RAM, its echo, or
/// high RAM below the interrupt-enable register); a stack pointed at ROM or
/// at a trapped I/O register does not store what is pushed.
pub proof fn lemma_stack_round_trip(v: MmuView, sp: u16, val: u16)
    requires
        crate::mmu::view_wf(v),
        (0xC000 <= spec_sp_dec(sp) && spec_sp_dec(sp) + 1 < 0xFE00) || (0xFF80 <= spec_sp_dec(sp)
            && spec_sp_dec(sp) + 1 < 0xFFFF),
    ensures
        spec_read_word(spec_write_word(v, spec_sp_dec(sp), val), spec_sp_dec(sp)) == val,
        spec_sp_inc(spec_sp_dec(sp)) == sp,
{
}

impl Cpu {
    pub open spec fn wf(self) -> bool {
        self.regs.wf()
    }

    pub fn new() -> (r: Cpu)
        ensures
            r.regs == spec_boot_regs(),
            r.state == CpuState::Running,
            r.ime == InterruptMasterEnable::Disabled,
            r.wf(),
    {
        Cpu {
            regs: Registers::new(),
            state: CpuState::Running,
            ime: InterruptMasterEnable::Disabled,
        }
    }

    /// Push a 16-bit value: SP is decremented by 2 first, then the value is
    /// written at the new SP as a little-endian bus word.
    pub fn stack_push(&mut self, mmu: &mut Mmu, data: u16)
        requires
            old(mmu).wf(),
        ensures
            final(mmu).wf(),
            *final(self) == (Cpu {
                regs: Registers { sp: spec_sp_dec(old(self).regs.sp), ..old(self).regs },
                ..*old(self)
            }),
            final(mmu)@ == spec_write_word(old(mmu)@, spec_sp_dec(old(self).regs.sp), data),
    {
        self.regs.sp = self.regs.sp.wrapping_sub(2);
        mmu.write_word(self.regs.sp, data);
    }

    /// Pop a 16-bit value: read at SP, then SP is incremented by 2.
    pub fn stack_pop(&mut self, mmu: &Mmu) -> (r: u16)
        requires
            mmu.wf(),
        ensures
            r == spec_read_word(mmu@, old(self).regs.sp),
            *final(self) == (Cpu {
                regs: Registers { sp: spec_sp_inc(old(self).regs.sp), ..old(self).regs },
                ..*old(self)
            }),
    {
        let word = mmu.read_word(self.regs.sp);
        self.regs.sp = self.regs.sp.wrapping_add(2);
        word
    }

    /// Advance the machine by one step as `spec_step` describes, returning
    /// the machine-cycles consumed. When the step fetches, the byte at PC
    /// must decode: the eleven unassigned opcodes have no defined behavior.
    pub fn run_instruction(&mut self, mmu: &mut Mmu) -> (cycles: u8)
        requires
            old(self).wf(),
            old(mmu).wf(),
            spec_step_fetches(*old(self), old(mmu)@) ==> !spec_illegal(
                spec_read_byte(old(mmu)@, old(self).regs.pc),
            ),
        ensures
            final(self).wf(),
            final(mmu).wf(),
            spec_step(*old(self), old(mmu)@, *final(self), final(mmu)@, cycles),
    {
        match self.state {
            CpuState::Halted => {
                if (mmu.interrupt_flag & 0x1F & mmu.interrupt_enable) > 0 {
                    self.state = CpuState::Running;
                    0
                } else {
                    1
                }
            },
            CpuState::Running => {
                if matches!(self.ime, InterruptMasterEnable::Enabled) {
                    if (mmu.interrupt_flag & 0x1F & mmu.interrupt_enable) > 0 {
                        return self.handle_interrupts(mmu);
                    }
                } else if matches!(self.ime, InterruptMasterEnable::EnabledWithDelay) {
                    self.ime = InterruptMasterEnable::Enabled;
                }

                let instr = mmu.read_byte(self.regs.pc);
                self.regs.pc = self.regs.pc.wrapping_add(1);
                self.instructions(mmu, instr)
            },
        }
    }
}

} // verus!
