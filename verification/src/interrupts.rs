//! The interrupt controller: five fixed sources, priority ordered by bit
//! index (bit 0 highest), each with its fixed service vector. Servicing
//! pushes PC, jumps to the vector, clears the request bit and switches the
//! master enable off, at a fixed cost of 5 machine-cycles.

use vstd::prelude::*;

use crate::cpu::{spec_sp_dec, Cpu};
use crate::mmu::{spec_pending, spec_write_word, Mmu, MmuView};
use crate::registers::Registers;

verus! {

/// The interrupt master enable: switching it on takes effect one full
/// instruction later, modeling the enable latency of the real hardware.
#[derive(Clone, Copy, Debug, PartialEq, Eq, Structural)]
pub enum InterruptMasterEnable {
    Disabled,
    Enabled,
    EnabledWithDelay,
}

/// The interrupt-flag bit of each source.
#[derive(Clone, Copy, Debug)]
pub enum InterruptMask {
    Timer,
}

impl InterruptMask {
    pub fn mask(self) -> (r: u8)
        ensures
            r == 0x04,
    {
        match self {
            InterruptMask::Timer => 0x04,
        }
    }
}

/// The index of the highest-priority source requested in `p` (an
/// interrupt-flag byte already masked by the enable byte and by 0x1F):
/// the lowest set bit wins.
pub open spec fn spec_int_index(p: u8) -> int {
    if p & 0x01 != 0 {
        0
    } else if p & 0x02 != 0 {
        1
    } else if p & 0x04 != 0 {
        2
    } else if p & 0x08 != 0 {
        3
    } else {
        4
    }
}

/// The interrupt-flag bit of source `k`.
pub open spec fn spec_int_mask(k: int) -> u8 {
    if k == 0 {
        0x01
    } else if k == 1 {
        0x02
    } else if k == 2 {
        0x04
    } else if k == 3 {
        0x08
    } else {
        0x10
    }
}

/// The fixed service vector of source `k`: 0x40, 0x48, 0x50, 0x58, 0x60.
pub open spec fn spec_int_vector(k: int) -> u16 {
    (0x40 + k * 8) as u16
}

/// Servicing the highest-priority pending interrupt: PC is pushed onto the
/// stack, PC jumps to the source's vector, the source's request bit is
/// cleared, the master enable goes off, and 5 machine-cycles are consumed.
pub open spec fn spec_interrupt(pre: Cpu, m: MmuView, post: Cpu, pm: MmuView, cycles: u8) -> bool {
    let k = spec_int_index(m.iflag & 0x1F & m.ie);
    let sp = spec_sp_dec(pre.regs.sp);
    let wm = spec_write_word(m, sp, pre.regs.pc);
    &&& post == (Cpu {
        regs: Registers { pc: spec_int_vector(k), sp, ..pre.regs },
        ime: InterruptMasterEnable::Disabled,
        ..pre
    })
    &&& pm == (MmuView { iflag: wm.iflag & !spec_int_mask(k), ..wm })
    &&& cycles == 5
}

impl Cpu {
    /// Service the highest-priority pending interrupt, if any source is both
    /// requested and enabled; otherwise change nothing and cost nothing.
    /// The caller is responsible for consulting the master enable first.
    pub fn handle_interrupts(&mut self, mmu: &mut Mmu) -> (cycles: u8)
        requires
            old(mmu).wf(),
        ensures
            final(mmu).wf(),
            spec_pending(old(mmu)@) ==> spec_interrupt(
                *old(self),
                old(mmu)@,
                *final(self),
                final(mmu)@,
                cycles,
            ),
            !spec_pending(old(mmu)@) ==> *final(self) == *old(self) && final(mmu)@ == old(mmu)@
                && cycles == 0,
    {
        let p = mmu.interrupt_flag & 0x1F & mmu.interrupt_enable;
        if p == 0 {
            return 0;
        }
        let mask: u8 = if p & 0x01 != 0 {
            0x01
        } else if p & 0x02 != 0 {
            0x02
        } else if p & 0x04 != 0 {
            0x04
        } else if p & 0x08 != 0 {
            0x08
        } else {
            0x10
        };
        let vector: u16 = if p & 0x01 != 0 {
            0x40
        } else if p & 0x02 != 0 {
            0x48
        } else if p & 0x04 != 0 {
            0x50
        } else if p & 0x08 != 0 {
            0x58
        } else {
            0x60
        };

        let pc = self.regs.pc;
        self.stack_push(mmu, pc);
        self.regs.pc = vector;
        self.ime = InterruptMasterEnable::Disabled;
        mmu.interrupt_flag = mmu.interrupt_flag & !mask;

        5
    }
}

} // verus!
