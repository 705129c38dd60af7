//! The timer unit: a free-running 16-bit divider that gains 4 every
//! machine-cycle, and an 8-bit counter stepped by a falling-edge detector on
//! a selected divider bit, gated by the enable bit of TAC. On counter
//! overflow the counter reloads from the modulo register and the timer
//! interrupt bit is raised.

use vstd::prelude::*;

verus! {

/// Mathematical snapshot of the timer state.
pub struct TimerView {
    pub div: u16,
    pub tima: u8,
    pub tma: u8,
    pub tac: u8,
    pub last_and: u8,
}

/// The divider mask selected by the low two bits of TAC: the divider bit
/// watched by the falling-edge detector (bit 9, 3, 5 or 7).
pub open spec fn spec_tac_mask(tac: u8) -> u16 {
    if tac % 4 == 0 {
        0x0200
    } else if tac % 4 == 1 {
        0x0008
    } else if tac % 4 == 2 {
        0x0020
    } else {
        0x0080
    }
}

/// One machine-cycle of the timer: advance the divider by 4, then run the
/// falling-edge detector over (selected divider bit AND enable bit); on a
/// falling edge step the counter, reloading it and raising the timer
/// interrupt bit on overflow.
pub open spec fn spec_timer_step(t: TimerView, iflag: u8) -> (TimerView, u8) {
    let div = ((t.div + 4) % 0x10000) as u16;
    let div_bit: u8 = if div & spec_tac_mask(t.tac) != 0 { 1 } else { 0 };
    let timer_enable: u8 = (t.tac / 4 % 2) as u8;
    let and_res: u8 = if div_bit == 1 && timer_enable == 1 { 1 } else { 0 };
    if and_res < t.last_and {
        let tima = ((t.tima + 1) % 256) as u8;
        if tima == 0 {
            (TimerView { div, tima: t.tma, last_and: and_res, ..t }, iflag | 0x04)
        } else {
            (TimerView { div, tima, last_and: and_res, ..t }, iflag)
        }
    } else {
        (TimerView { div, last_and: and_res, ..t }, iflag)
    }
}

/// The timer state and interrupt-flag register after `n` machine-cycles.
pub open spec fn spec_timer_ticks(t: TimerView, iflag: u8, n: nat) -> (TimerView, u8)
    decreases n,
{
    if n == 0 {
        (t, iflag)
    } else {
        let prev = spec_timer_ticks(t, iflag, (n - 1) as nat);
        spec_timer_step(prev.0, prev.1)
    }
}

pub struct Timer {
    pub div: u16,
    pub tima: u8,
    pub tma: u8,
    pub tac: u8,
    pub last_and: u8,
}

impl View for Timer {
    type V = TimerView;

    open spec fn view(&self) -> TimerView {
        TimerView {
            div: self.div,
            tima: self.tima,
            tma: self.tma,
            tac: self.tac,
            last_and: self.last_and,
        }
    }
}

impl Timer {
    pub fn new() -> (r: Timer)
        ensures
            r@ == (TimerView { div: 0x0000, tima: 0x00, tma: 0x00, tac: 0xF8, last_and: 0 }),
    {
        Timer { div: 0x0000, tima: 0x00, tma: 0x00, tac: 0xF8, last_and: 0 }
    }

    /// Advance the timer by `m_cycles` machine-cycles, raising the timer bit
    /// of the interrupt-flag register on each counter overflow.
    pub fn tick(&mut self, m_cycles: u64, interrupt_flag: &mut u8)
        ensures
            (final(self)@, *final(interrupt_flag)) == spec_timer_ticks(
                old(self)@,
                *old(interrupt_flag),
                m_cycles as nat,
            ),
    {
        let mut i: u64 = 0;
        while i < m_cycles
            invariant
                i <= m_cycles,
                (self@, *interrupt_flag) == spec_timer_ticks(
                    old(self)@,
                    *old(interrupt_flag),
                    i as nat,
                ),
            decreases m_cycles - i,
        {
            self.div = self.div.wrapping_add(4);

            let mask: u16 = if self.tac % 4 == 0 {
                0x0200
            } else if self.tac % 4 == 1 {
                0x0008
            } else if self.tac % 4 == 2 {
                0x0020
            } else {
                0x0080
            };

            let div_bit: u8 = if self.div & mask != 0 { 1 } else { 0 };
            let timer_enable: u8 = self.tac / 4 % 2;
            let and_res: u8 = if div_bit == 1 && timer_enable == 1 { 1 } else { 0 };

            if and_res < self.last_and {
                self.tima = self.tima.wrapping_add(1);
                if self.tima == 0 {
                    self.tima = self.tma;
                    *interrupt_flag = *interrupt_flag | 0x04;
                }
            }
            self.last_and = and_res;

            i += 1;
        }
    }
}

} // verus!
