//! The memory bus: decodes every 16-bit address into exactly one backing
//! region and dispatches byte reads and writes to the owning device. The bus
//! is specified through `MmuView`, a mathematical snapshot of all the state a
//! bus access can observe or change, and through the two total functions
//! `spec_read_byte` and `spec_write_byte` over that snapshot.

use vstd::prelude::*;

use crate::cartridge::Cartridge;
use crate::ppu::Ppu;
use crate::timer::{spec_timer_ticks, Timer, TimerView};

verus! {

/// Mathematical snapshot of the bus-visible machine state.
#[verifier::ext_equal]
pub struct MmuView {
    pub rom: Seq<u8>,
    pub ext_ram: Seq<u8>,
    pub vram: Seq<u8>,
    pub oam: Seq<u8>,
    pub wram: Seq<u8>,
    pub hram: Seq<u8>,
    pub io: Seq<u8>,
    pub ie: u8,
    pub iflag: u8,
    pub timer: TimerView,
    pub serial: Seq<u8>,
}

/// The region lengths every well-formed bus state has. The ROM is at least
/// 32 KiB (the smallest declared size), so the whole ROM window is backed.
pub open spec fn view_wf(v: MmuView) -> bool {
    &&& v.rom.len() >= 0x8000
    &&& v.vram.len() == 0x2000
    &&& v.oam.len() == 0xA0
    &&& v.wram.len() == 0x2000
    &&& v.hram.len() == 0x7F
    &&& v.io.len() == 0x80
}

/// A byte read from the bus. Address decoding is total: every 16-bit value
/// maps to exactly one region. Reads of the unusable region, and of external
/// RAM beyond what the cartridge carries, return the open-bus value 0xFF.
pub open spec fn spec_read_byte(v: MmuView, addr: u16) -> u8 {
    if addr < 0x8000 {
        v.rom[addr as int]
    } else if addr < 0xA000 {
        v.vram[addr - 0x8000]
    } else if addr < 0xC000 {
        if addr - 0xA000 < v.ext_ram.len() {
            v.ext_ram[addr - 0xA000]
        } else {
            0xFF
        }
    } else if addr < 0xE000 {
        v.wram[addr - 0xC000]
    } else if addr < 0xFE00 {
        v.wram[addr - 0xE000]
    } else if addr < 0xFEA0 {
        v.oam[addr - 0xFE00]
    } else if addr < 0xFF00 {
        0xFF
    } else if addr < 0xFF80 {
        spec_read_io(v, addr - 0xFF00)
    } else if addr < 0xFFFF {
        v.hram[addr - 0xFF80]
    } else {
        v.ie
    }
}

/// A byte read from the I/O register block. Timer registers come from the
/// timer unit (DIV reads the divider's upper byte), IF is the interrupt-flag
/// register, and the scanline register LY is stubbed at 0x90; every other
/// offset is plain storage.
pub open spec fn spec_read_io(v: MmuView, off: int) -> u8 {
    if off == 0x04 {
        (v.timer.div / 256) as u8
    } else if off == 0x05 {
        v.timer.tima
    } else if off == 0x06 {
        v.timer.tma
    } else if off == 0x07 {
        v.timer.tac
    } else if off == 0x0F {
        v.iflag
    } else if off == 0x44 {
        0x90
    } else {
        v.io[off]
    }
}

/// The source base of an OAM DMA transfer started by writing `data`: the
/// page `data << 8`, redirected into work RAM when it would land in the
/// echo region. The base is therefore always below 0xE000.
pub open spec fn spec_dma_src(data: u8) -> u16 {
    if data * 256 >= 0xE000 {
        (data * 256 - 0x2000) as u16
    } else {
        (data * 256) as u16
    }
}

/// A byte written to the bus. ROM-region writes would drive a mapper and do
/// nothing here; unusable-region writes and external-RAM writes beyond the
/// cartridge's RAM are dropped; the I/O block adds side effects on top of
/// plain storage.
pub open spec fn spec_write_byte(v: MmuView, addr: u16, data: u8) -> MmuView {
    if addr < 0x8000 {
        v
    } else if addr < 0xA000 {
        MmuView { vram: v.vram.update(addr - 0x8000, data), ..v }
    } else if addr < 0xC000 {
        if addr - 0xA000 < v.ext_ram.len() {
            MmuView { ext_ram: v.ext_ram.update(addr - 0xA000, data), ..v }
        } else {
            v
        }
    } else if addr < 0xE000 {
        MmuView { wram: v.wram.update(addr - 0xC000, data), ..v }
    } else if addr < 0xFE00 {
        MmuView { wram: v.wram.update(addr - 0xE000, data), ..v }
    } else if addr < 0xFEA0 {
        MmuView { oam: v.oam.update(addr - 0xFE00, data), ..v }
    } else if addr < 0xFF00 {
        v
    } else if addr < 0xFF80 {
        spec_write_io(v, addr - 0xFF00, data)
    } else if addr < 0xFFFF {
        MmuView { hram: v.hram.update(addr - 0xFF80, data), ..v }
    } else {
        MmuView { ie: data, ..v }
    }
}

/// A byte written to the I/O register block: always stored in the block,
/// with the documented side effects on top. Writing 0x81 to the serial
/// control offset emits the serial data byte to the pluggable output sink;
/// writing DIV resets the divider to zero whatever the value; TIMA, TMA and
/// TAC forward to the timer (TAC reads back with its top five bits set); IF
/// writes are masked to five bits; a write to offset 0x46 starts an OAM DMA
/// copy of the 160 bytes at the source page into OAM.
pub open spec fn spec_write_io(v: MmuView, off: int, data: u8) -> MmuView {
    let stored = MmuView { io: v.io.update(off, data), ..v };
    if off == 0x02 {
        if data == 0x81 {
            MmuView { serial: stored.serial.push(v.io[1]), ..stored }
        } else {
            stored
        }
    } else if off == 0x04 {
        MmuView { timer: TimerView { div: 0, ..v.timer }, ..stored }
    } else if off == 0x05 {
        MmuView { timer: TimerView { tima: data, ..v.timer }, ..stored }
    } else if off == 0x06 {
        MmuView { timer: TimerView { tma: data, ..v.timer }, ..stored }
    } else if off == 0x07 {
        MmuView { timer: TimerView { tac: (0xF8 + data % 8) as u8, ..v.timer }, ..stored }
    } else if off == 0x0F {
        MmuView { iflag: (data % 32) as u8, ..stored }
    } else if off == 0x46 {
        MmuView {
            oam: Seq::new(0xA0, |i: int| spec_read_byte(v, (spec_dma_src(data) + i) as u16)),
            ..stored
        }
    } else {
        stored
    }
}

/// The address one past `addr`, wrapping at the top of the address space.
/// Word accesses that straddle 0xFFFF wrap around to 0x0000.
pub open spec fn spec_wrap_inc(addr: u16) -> u16 {
    if addr == 0xFFFF {
        0
    } else {
        (addr + 1) as u16
    }
}

/// A little-endian word read: low byte at `addr`, high byte at `addr + 1`.
pub open spec fn spec_read_word(v: MmuView, addr: u16) -> u16 {
    (spec_read_byte(v, addr) + 256 * spec_read_byte(v, spec_wrap_inc(addr))) as u16
}

/// A little-endian word write: low byte first at `addr`, then the high byte
/// at `addr + 1`.
pub open spec fn spec_write_word(v: MmuView, addr: u16, data: u16) -> MmuView {
    spec_write_byte(spec_write_byte(v, addr, (data % 256) as u8), spec_wrap_inc(addr), (data / 256) as u8)
}

/// Whether an enabled interrupt is requested: the interrupt-flag and
/// interrupt-enable registers share a set bit among the five sources.
pub open spec fn spec_pending(v: MmuView) -> bool {
    v.iflag & 0x1F & v.ie != 0
}

/// The bus state at power-on, around a freshly built cartridge: all RAM
/// regions zeroed, the interrupt-enable register clear, the documented
/// post-boot interrupt-flag value, and the timer at rest.
pub open spec fn spec_boot_mmu(rom: Seq<u8>, ext_ram: Seq<u8>) -> MmuView {
    MmuView {
        rom,
        ext_ram,
        vram: Seq::new(0x2000, |i: int| 0u8),
        oam: Seq::new(0xA0, |i: int| 0u8),
        wram: Seq::new(0x2000, |i: int| 0u8),
        hram: Seq::new(0x7F, |i: int| 0u8),
        io: Seq::new(0x80, |i: int| 0u8),
        ie: 0x00,
        iflag: 0xE1,
        timer: TimerView { div: 0x0000, tima: 0x00, tma: 0x00, tac: 0xF8, last_and: 0 },
        serial: Seq::empty(),
    }
}

pub struct Mmu {
    pub cart: Cartridge,
    pub ppu: Ppu,
    pub timer: Timer,
    pub wram: Vec<u8>,
    pub hram: Vec<u8>,
    pub io_regs: Vec<u8>,
    pub interrupt_enable: u8,
    pub interrupt_flag: u8,
    /// Bytes emitted through the serial-port debug hook; the surrounding
    /// program decides what to do with them (a pluggable output sink).
    pub serial_out: Vec<u8>,
}

impl View for Mmu {
    type V = MmuView;

    open spec fn view(&self) -> MmuView {
        MmuView {
            rom: self.cart.rom@,
            ext_ram: self.cart.external_ram@,
            vram: self.ppu.vram@,
            oam: self.ppu.oam@,
            wram: self.wram@,
            hram: self.hram@,
            io: self.io_regs@,
            ie: self.interrupt_enable,
            iflag: self.interrupt_flag,
            timer: self.timer@,
            serial: self.serial_out@,
        }
    }
}

impl Mmu {
    pub open spec fn wf(self) -> bool {
        &&& self.cart.wf()
        &&& self.ppu.wf()
        &&& view_wf(self@)
    }

    pub fn new(cart: Cartridge) -> (r: Mmu)
        requires
            cart.wf(),
        ensures
            r.wf(),
            r@ == spec_boot_mmu(cart.rom@, cart.external_ram@),
    {
        let r = Mmu {
            cart,
            ppu: Ppu::new(),
            timer: Timer::new(),
            wram: crate::ppu::zero_vec_u8(0x2000),
            hram: crate::ppu::zero_vec_u8(0x7F),
            io_regs: crate::ppu::zero_vec_u8(0x80),
            interrupt_enable: 0x00,
            interrupt_flag: 0xE1,
            serial_out: Vec::new(),
        };
        proof {
            assert(r@ =~= spec_boot_mmu(cart.rom@, cart.external_ram@));
        }
        r
    }

    pub fn read_byte(&self, addr: u16) -> (r: u8)
        requires
            self.wf(),
        ensures
            r == spec_read_byte(self@, addr),
    {
        if addr < 0x8000 {
            self.cart.read_rom(addr)
        } else if addr < 0xA000 {
            self.ppu.read_vram(addr - 0x8000)
        } else if addr < 0xC000 {
            let off = addr - 0xA000;
            if (off as usize) < self.cart.ram_len() {
                self.cart.read_ram(off)
            } else {
                0xFF
            }
        } else if addr < 0xE000 {
            self.wram[(addr - 0xC000) as usize]
        } else if addr < 0xFE00 {
            self.wram[(addr - 0xE000) as usize]
        } else if addr < 0xFEA0 {
            self.ppu.read_oam(addr - 0xFE00)
        } else if addr < 0xFF00 {
            0xFF
        } else if addr < 0xFF80 {
            let off = addr - 0xFF00;
            if off == 0x04 {
                (self.timer.div / 256) as u8
            } else if off == 0x05 {
                self.timer.tima
            } else if off == 0x06 {
                self.timer.tma
            } else if off == 0x07 {
                self.timer.tac
            } else if off == 0x0F {
                self.interrupt_flag
            } else if off == 0x44 {
                0x90
            } else {
                self.io_regs[off as usize]
            }
        } else if addr < 0xFFFF {
            self.hram[(addr - 0xFF80) as usize]
        } else {
            self.interrupt_enable
        }
    }

    pub fn write_byte(&mut self, addr: u16, data: u8)
        requires
            old(self).wf(),
        ensures
            final(self).wf(),
            final(self)@ == spec_write_byte(old(self)@, addr, data),
    {
        if addr < 0x8000 {
            self.cart.write_rom(addr, data);
        } else if addr < 0xA000 {
            self.ppu.write_vram(addr - 0x8000, data);
        } else if addr < 0xC000 {
            let off = addr - 0xA000;
            if (off as usize) < self.cart.ram_len() {
                self.cart.write_ram(off, data);
            }
        } else if addr < 0xE000 {
            self.wram.set((addr - 0xC000) as usize, data);
        } else if addr < 0xFE00 {
            self.wram.set((addr - 0xE000) as usize, data);
        } else if addr < 0xFEA0 {
            self.ppu.write_oam(addr - 0xFE00, data);
        } else if addr < 0xFF00 {
            // the unusable region drops writes
        } else if addr < 0xFF80 {
            self.write_io(addr - 0xFF00, data);
        } else if addr < 0xFFFF {
            self.hram.set((addr - 0xFF80) as usize, data);
        } else {
            self.interrupt_enable = data;
        }
        proof {
            assert(self@ =~= spec_write_byte(old(self)@, addr, data));
        }
    }

    /// A write into the I/O register block: plain storage plus the trapped
    /// side effects described at `spec_write_io`.
    fn write_io(&mut self, off: u16, data: u8)
        requires
            old(self).wf(),
            off < 0x80,
        ensures
            final(self).wf(),
            final(self)@ == spec_write_io(old(self)@, off as int, data),
    {
        let ghost v0 = self@;
        self.io_regs.set(off as usize, data);
        if off == 0x02 {
            if data == 0x81 {
                let byte = self.io_regs[1];
                self.serial_out.push(byte);
            }
        } else if off == 0x04 {
            self.timer.div = 0;
        } else if off == 0x05 {
            self.timer.tima = data;
        } else if off == 0x06 {
            self.timer.tma = data;
        } else if off == 0x07 {
            self.timer.tac = 0xF8 + data % 8;
        } else if off == 0x0F {
            self.interrupt_flag = data % 32;
        } else if off == 0x46 {
            let ghost v1 = self@;
            self.oam_dma(data);
            proof {
                assert forall|i: int| 0 <= i < 0xA0 implies #[trigger] spec_read_byte(
                    v1,
                    (spec_dma_src(data) + i) as u16,
                ) == spec_read_byte(v0, (spec_dma_src(data) + i) as u16) by {
                    lemma_read_below_echo_same(v1, v0, spec_dma_src(data) + i);
                }
                assert(self@.oam =~= spec_write_io(v0, off as int, data).oam);
            }
        }
        proof {
            assert(self@ =~= spec_write_io(v0, off as int, data));
        }
    }

    /// The OAM DMA copy: 160 bus reads from the source page (already
    /// redirected out of the echo region) followed by stores into OAM. The
    /// transfer is synchronous and charges no extra cycles here; a faithful
    /// account of the real stall cost is left to the caller's cycle budget.
    fn oam_dma(&mut self, data: u8)
        requires
            old(self).wf(),
        ensures
            final(self).wf(),
            final(self)@ == (MmuView {
                oam: Seq::new(
                    0xA0,
                    |i: int| spec_read_byte(old(self)@, (spec_dma_src(data) + i) as u16),
                ),
                ..old(self)@
            }),
    {
        let ghost v0 = self@;
        let mut base_addr: u16 = (data as u16) * 256;
        if base_addr >= 0xE000 {
            base_addr = base_addr - 0x2000;
        }
        assert(base_addr == spec_dma_src(data));
        let mut idx: u16 = 0;
        while idx < 160
            invariant
                self.wf(),
                idx <= 160,
                base_addr == spec_dma_src(data),
                self@ == (MmuView { oam: self@.oam, ..v0 }),
                forall|j: int|
                    0 <= j < idx ==> self@.oam[j] == spec_read_byte(v0, (base_addr + j) as u16),
                forall|j: int| idx <= j < 0xA0 ==> self@.oam[j] == v0.oam[j],
            decreases 160 - idx,
        {
            proof {
                lemma_read_below_echo_same(v0, self@, base_addr + idx);
            }
            let byte = self.read_byte(base_addr + idx);
            self.ppu.write_oam(idx, byte);
            idx += 1;
        }
        proof {
            assert(self@ =~= (MmuView {
                oam: Seq::new(
                    0xA0,
                    |i: int| spec_read_byte(v0, (spec_dma_src(data) + i) as u16),
                ),
                ..v0
            }));
        }
    }

    pub fn read_word(&self, addr: u16) -> (r: u16)
        requires
            self.wf(),
        ensures
            r == spec_read_word(self@, addr),
    {
        let next = if addr == 0xFFFF { 0 } else { addr + 1 };
        (self.read_byte(addr) as u16) + 256 * (self.read_byte(next) as u16)
    }

    pub fn write_word(&mut self, addr: u16, data: u16)
        requires
            old(self).wf(),
        ensures
            final(self).wf(),
            final(self)@ == spec_write_word(old(self)@, addr, data),
    {
        self.write_byte(addr, (data % 256) as u8);
        let next = if addr == 0xFFFF { 0 } else { addr + 1 };
        self.write_byte(next, (data / 256) as u8);
    }

    /// Advance the peripherals by the cycles one CPU step consumed: the
    /// timer runs against the interrupt-flag register it may raise.
    pub fn tick_components(&mut self, m_cycles: u64)
        requires
            old(self).wf(),
        ensures
            final(self).wf(),
            final(self)@ == ({
                let t = spec_timer_ticks(old(self)@.timer, old(self)@.iflag, m_cycles as nat);
                MmuView { timer: t.0, iflag: t.1, ..old(self)@ }
            }),
    {
        let mut iflag = self.interrupt_flag;
        self.timer.tick(m_cycles, &mut iflag);
        self.interrupt_flag = iflag;
        proof {
            assert(self@ =~= ({
                let t = spec_timer_ticks(old(self)@.timer, old(self)@.iflag, m_cycles as nat);
                MmuView { timer: t.0, iflag: t.1, ..old(self)@ }
            }));
        }
    }
}

/// Echo mirror: the echo region reads and writes the first 7.5 KiB of work
/// RAM byte for byte. A byte written at a work-RAM address is readable
/// unchanged 0x2000 above it, and a byte written in the echo region is
/// readable unchanged 0x2000 below it.
pub proof fn lemma_echo_mirror(v: MmuView, addr: u16, data: u8)
    requires
        view_wf(v),
        0xC000 <= addr < 0xDE00,
    ensures
        spec_read_byte(spec_write_byte(v, addr, data), (addr + 0x2000) as u16) == data,
        spec_read_byte(spec_write_byte(v, (addr + 0x2000) as u16, data), addr) == data,
{
}

/// Bus reads below the echo region never observe OAM, the I/O block, the
/// interrupt registers or the serial sink.
pub proof fn lemma_read_below_echo_same(v1: MmuView, v2: MmuView, addr: int)
    requires
        0 <= addr < 0xE000,
        v1.rom == v2.rom,
        v1.ext_ram == v2.ext_ram,
        v1.vram == v2.vram,
        v1.wram == v2.wram,
    ensures
        spec_read_byte(v1, addr as u16) == spec_read_byte(v2, addr as u16),
{
}

} // verus!
