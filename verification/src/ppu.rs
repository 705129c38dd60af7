//! The display unit, at the interface the bus consumes: byte access to video
//! RAM and to object attribute memory, plus a periodic time advance. Pixel
//! generation itself is out of the core's scope, so `tick` advances nothing.

use vstd::prelude::*;

verus! {

pub const SCREEN_WIDTH: usize = 160;
pub const SCREEN_HEIGHT: usize = 144;

pub struct Ppu {
    pub screen: Vec<u32>,
    pub vram: Vec<u8>,
    pub oam: Vec<u8>,
    pub wx: u8,
    pub wy: u8,
    pub ly: u8,
    pub lyc: u8,
    pub scx: u8,
    pub scy: u8,
    pub bgp: u8,
    pub obp0: u8,
    pub obp1: u8,
    pub lcdc: u8,
    pub stat: u8,
}

impl Ppu {
    pub open spec fn wf(self) -> bool {
        &&& self.vram@.len() == 0x2000
        &&& self.oam@.len() == 0xA0
        &&& self.screen@.len() == 160 * 144
    }

    pub fn new() -> (r: Ppu)
        ensures
            r.wf(),
            r.vram@ == Seq::new(0x2000, |i: int| 0u8),
            r.oam@ == Seq::new(0xA0, |i: int| 0u8),
            r.screen@ == Seq::new((160 * 144) as nat, |i: int| 0u32),
            r.wx == 0x00 && r.wy == 0x00 && r.ly == 0x00 && r.lyc == 0x00,
            r.scx == 0x00 && r.scy == 0x00,
            r.bgp == 0xFC && r.obp0 == 0xFF && r.obp1 == 0xFF,
            r.lcdc == 0x91 && r.stat == 0x85,
    {
        Ppu {
            screen: zero_vec_u32(160 * 144),
            vram: zero_vec_u8(0x2000),
            oam: zero_vec_u8(0xA0),
            wx: 0x00,
            wy: 0x00,
            ly: 0x00,
            lyc: 0x00,
            scx: 0x00,
            scy: 0x00,
            bgp: 0xFC,
            obp0: 0xFF,
            obp1: 0xFF,
            lcdc: 0x91,
            stat: 0x85,
        }
    }

    pub fn read_vram(&self, addr: u16) -> (r: u8)
        requires
            self.wf(),
            addr < 0x2000,
        ensures
            r == self.vram@[addr as int],
    {
        self.vram[addr as usize]
    }

    pub fn write_vram(&mut self, addr: u16, data: u8)
        requires
            old(self).wf(),
            addr < 0x2000,
        ensures
            final(self).vram@ == old(self).vram@.update(addr as int, data),
            *final(self) == (Ppu { vram: final(self).vram, ..*old(self) }),
            final(self).wf(),
    {
        self.vram.set(addr as usize, data);
    }

    pub fn read_oam(&self, addr: u16) -> (r: u8)
        requires
            self.wf(),
            addr < 0xA0,
        ensures
            r == self.oam@[addr as int],
    {
        self.oam[addr as usize]
    }

    pub fn write_oam(&mut self, addr: u16, data: u8)
        requires
            old(self).wf(),
            addr < 0xA0,
        ensures
            final(self).oam@ == old(self).oam@.update(addr as int, data),
            *final(self) == (Ppu { oam: final(self).oam, ..*old(self) }),
            final(self).wf(),
    {
        self.oam.set(addr as usize, data);
    }

    /// Advance the display by the given number of machine-cycles. Rendering
    /// and the STAT/VBlank interrupt sources are outside the core, so this
    /// changes nothing observable.
    pub fn tick(&mut self, m_cycles: u64, interrupt_flag: &mut u8)
        ensures
            *final(self) == *old(self),
            *final(interrupt_flag) == *old(interrupt_flag),
    {
    }
}

pub fn zero_vec_u8(n: usize) -> (r: Vec<u8>)
    ensures
        r@ == Seq::new(n as nat, |i: int| 0u8),
{
    let mut v: Vec<u8> = Vec::new();
    let mut i: usize = 0;
    while i < n
        invariant
            i <= n,
            v@ == Seq::new(i as nat, |j: int| 0u8),
        decreases n - i,
    {
        v.push(0);
        proof {
            assert(v@ =~= Seq::new((i + 1) as nat, |j: int| 0u8));
        }
        i += 1;
    }
    v
}

fn zero_vec_u32(n: usize) -> (r: Vec<u32>)
    ensures
        r@ == Seq::new(n as nat, |i: int| 0u32),
{
    let mut v: Vec<u32> = Vec::new();
    let mut i: usize = 0;
    while i < n
        invariant
            i <= n,
            v@ == Seq::new(i as nat, |j: int| 0u32),
        decreases n - i,
    {
        v.push(0);
        proof {
            assert(v@ =~= Seq::new((i + 1) as nat, |j: int| 0u32));
        }
        i += 1;
    }
    v
}

} // verus!
