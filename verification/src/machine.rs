//! The whole machine: the CPU core and the memory bus with its peripherals.
//! One `tick` runs one CPU step and then advances the peripherals by the
//! cycles that step consumed.

use vstd::prelude::*;

use crate::cartridge::Cartridge;
use crate::cpu::{spec_step, spec_step_fetches, Cpu};
use crate::instructions::spec_illegal;
use crate::mmu::{spec_read_byte, Mmu, MmuView};
use crate::timer::spec_timer_ticks;

verus! {

pub struct BeniBoyColor {
    pub cpu: Cpu,
    pub mmu: Mmu,
}

impl BeniBoyColor {
    pub fn new(cart: Cartridge) -> (r: BeniBoyColor)
        requires
            cart.wf(),
        ensures
            r.cpu.regs == crate::registers::spec_boot_regs(),
            r.cpu.state == crate::cpu::CpuState::Running,
            r.cpu.ime == crate::interrupts::InterruptMasterEnable::Disabled,
            r.mmu@ == crate::mmu::spec_boot_mmu(cart.rom@, cart.external_ram@),
            r.cpu.wf(),
            r.mmu.wf(),
    {
        BeniBoyColor { cpu: Cpu::new(), mmu: Mmu::new(cart) }
    }

    /// Run one CPU step, then advance the peripherals by the same cycle
    /// count: there is a step `spec_step` allows whose cycle cost the timer
    /// then runs for.
    pub fn tick(&mut self)
        requires
            old(self).cpu.wf(),
            old(self).mmu.wf(),
            spec_step_fetches(old(self).cpu, old(self).mmu@) ==> !spec_illegal(
                spec_read_byte(old(self).mmu@, old(self).cpu.regs.pc),
            ),
        ensures
            final(self).cpu.wf(),
            final(self).mmu.wf(),
            exists|mid: MmuView, cycles: u8|
                {
                    &&& #[trigger] spec_step(old(self).cpu, old(self).mmu@, final(self).cpu, mid, cycles)
                    &&& final(self).mmu@ == ({
                        let t = spec_timer_ticks(mid.timer, mid.iflag, cycles as nat);
                        MmuView { timer: t.0, iflag: t.1, ..mid }
                    })
                },
    {
        let instr_cycles = self.cpu.run_instruction(&mut self.mmu);
        let ghost mid = self.mmu@;
        self.mmu.tick_components(instr_cycles as u64);
        proof {
            assert(spec_step(old(self).cpu, old(self).mmu@, self.cpu, mid, instr_cycles));
        }
    }
}

} // verus!
