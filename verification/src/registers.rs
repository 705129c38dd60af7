//! The register file: eight 8-bit registers, the 16-bit program counter and
//! stack pointer, and the four status flags packed into the top nibble of F.

use vstd::prelude::*;

verus! {

/// One of the four status flags, packed into the top nibble of F:
/// Z (bit 7), N (bit 6), H (bit 5), C (bit 4).
#[derive(Clone, Copy, Debug)]
pub enum FlagMask {
    Z,
    N,
    H,
    C,
}

/// The numeric weight of a flag's bit inside F.
pub open spec fn spec_flag_weight(flag: FlagMask) -> u8 {
    match flag {
        FlagMask::Z => 0x80,
        FlagMask::N => 0x40,
        FlagMask::H => 0x20,
        FlagMask::C => 0x10,
    }
}

/// Whether `flag` is set in the flag byte `f`.
pub open spec fn spec_flag(f: u8, flag: FlagMask) -> bool {
    f / spec_flag_weight(flag) % 2 == 1
}

/// The flag byte holding exactly the given four flags, low nibble zero.
pub open spec fn spec_flags(z: bool, n: bool, h: bool, c: bool) -> u8 {
    ((if z { 0x80int } else { 0int }) + (if n { 0x40int } else { 0int })
        + (if h { 0x20int } else { 0int }) + (if c { 0x10int } else { 0int })) as u8
}

/// The flag byte `f` with `flag` forced to `val` and the other three kept.
/// Defined for flag bytes whose low nibble is zero (the file's invariant).
pub open spec fn spec_set_flag(f: u8, flag: FlagMask, val: bool) -> u8 {
    spec_flags(
        match flag { FlagMask::Z => val, _ => spec_flag(f, FlagMask::Z) },
        match flag { FlagMask::N => val, _ => spec_flag(f, FlagMask::N) },
        match flag { FlagMask::H => val, _ => spec_flag(f, FlagMask::H) },
        match flag { FlagMask::C => val, _ => spec_flag(f, FlagMask::C) },
    )
}

/// The 16-bit value made of a high and a low byte.
pub open spec fn spec_word(hi: u8, lo: u8) -> u16 {
    (hi * 256 + lo) as u16
}

/// Reading a freshly packed flag byte gives back exactly the four flags
/// that were packed, and the byte keeps the file's invariant.
pub proof fn lemma_flags(z: bool, n: bool, h: bool, c: bool)
    ensures
        spec_flag(spec_flags(z, n, h, c), FlagMask::Z) == z,
        spec_flag(spec_flags(z, n, h, c), FlagMask::N) == n,
        spec_flag(spec_flags(z, n, h, c), FlagMask::H) == h,
        spec_flag(spec_flags(z, n, h, c), FlagMask::C) == c,
        spec_flags(z, n, h, c) % 16 == 0,
{
    let v = spec_flags(z, n, h, c);
    assert(((v / 0x80 % 2 == 1) == z) && ((v / 0x40 % 2 == 1) == n) && ((v / 0x20 % 2 == 1)
        == h) && ((v / 0x10 % 2 == 1) == c) && v % 16 == 0) by (bit_vector)
        requires
            v == ((if z { 0x80int } else { 0int }) + (if n { 0x40int } else { 0int }) + (if h {
                0x20int
            } else {
                0int
            }) + (if c { 0x10int } else { 0int })) as u8,
    ;
}

/// The documented post-boot register values.
pub open spec fn spec_boot_regs() -> Registers {
    Registers {
        a: 0x01,
        f: 0xB0,
        b: 0x00,
        c: 0x13,
        d: 0x00,
        e: 0xD8,
        h: 0x01,
        l: 0x4D,
        pc: 0x0100,
        sp: 0xFFFE,
    }
}

impl FlagMask {
    /// The weight of this flag's bit inside F.
    pub fn weight(self) -> (w: u8)
        ensures
            w == spec_flag_weight(self),
    {
        match self {
            FlagMask::Z => 0x80,
            FlagMask::N => 0x40,
            FlagMask::H => 0x20,
            FlagMask::C => 0x10,
        }
    }
}

pub struct Registers {
    pub a: u8,
    pub f: u8,
    pub b: u8,
    pub c: u8,
    pub d: u8,
    pub e: u8,
    pub h: u8,
    pub l: u8,
    pub pc: u16,
    pub sp: u16,
}

impl Registers {
    /// Invariant: the low nibble of F is always zero; only the four flag
    /// bits in the top nibble are meaningful.
    pub open spec fn wf(self) -> bool {
        self.f % 16 == 0
    }

    pub open spec fn spec_af(self) -> u16 {
        spec_word(self.a, self.f)
    }

    pub open spec fn spec_bc(self) -> u16 {
        spec_word(self.b, self.c)
    }

    pub open spec fn spec_de(self) -> u16 {
        spec_word(self.d, self.e)
    }

    pub open spec fn spec_hl(self) -> u16 {
        spec_word(self.h, self.l)
    }

    /// The documented post-boot register values.
    pub fn new() -> (r: Registers)
        ensures
            r == spec_boot_regs(),
            r.wf(),
    {
        Registers {
            a: 0x01,
            f: 0xB0,
            b: 0x00,
            c: 0x13,
            d: 0x00,
            e: 0xD8,
            h: 0x01,
            l: 0x4D,
            pc: 0x0100,
            sp: 0xFFFE,
        }
    }

    /// Overwrite F with exactly the four given flags; the low nibble is zero.
    pub fn set_flags(&mut self, z: bool, n: bool, h: bool, c: bool)
        ensures
            *final(self) == (Registers { f: spec_flags(z, n, h, c), ..*old(self) }),
            final(self).wf(),
    {
        let fz: u8 = if z { 0x80 } else { 0x00 };
        let fn_: u8 = if n { 0x40 } else { 0x00 };
        let fh: u8 = if h { 0x20 } else { 0x00 };
        let fc: u8 = if c { 0x10 } else { 0x00 };
        self.f = fz + fn_ + fh + fc;
    }

    pub fn get_flag(&self, flag: FlagMask) -> (r: bool)
        ensures
            r == spec_flag(self.f, flag),
    {
        let w = flag.weight();
        self.f / w % 2 == 1
    }

    /// Set or clear one flag, leaving the other three untouched.
    pub fn set_flag_val(&mut self, flag: FlagMask, val: bool)
        requires
            old(self).wf(),
        ensures
            *final(self) == (Registers { f: spec_set_flag(old(self).f, flag, val), ..*old(self) }),
            final(self).wf(),
    {
        let z = if matches!(flag, FlagMask::Z) { val } else { self.get_flag(FlagMask::Z) };
        let n = if matches!(flag, FlagMask::N) { val } else { self.get_flag(FlagMask::N) };
        let h = if matches!(flag, FlagMask::H) { val } else { self.get_flag(FlagMask::H) };
        let c = if matches!(flag, FlagMask::C) { val } else { self.get_flag(FlagMask::C) };
        self.set_flags(z, n, h, c);
    }

    pub fn set_flag(&mut self, flag: FlagMask)
        requires
            old(self).wf(),
        ensures
            *final(self) == (Registers { f: spec_set_flag(old(self).f, flag, true), ..*old(self) }),
            final(self).wf(),
    {
        self.set_flag_val(flag, true);
    }

    pub fn clear_flag(&mut self, flag: FlagMask)
        requires
            old(self).wf(),
        ensures
            *final(self) == (Registers { f: spec_set_flag(old(self).f, flag, false), ..*old(self) }),
            final(self).wf(),
    {
        self.set_flag_val(flag, false);
    }

    /// Write AF; only the top nibble of the low byte lands in F.
    pub fn set_af(&mut self, val: u16)
        ensures
            *final(self) == (Registers {
                a: (val / 256) as u8,
                f: ((val % 256) / 16 * 16) as u8,
                ..*old(self)
            }),
            final(self).wf(),
    {
        self.a = (val / 256) as u8;
        self.f = (val % 256) as u8 / 16 * 16;
    }

    pub fn get_af(&self) -> (r: u16)
        ensures
            r == self.spec_af(),
    {
        (self.a as u16) * 256 + (self.f as u16)
    }

    pub fn set_bc(&mut self, val: u16)
        ensures
            *final(self) == (Registers { b: (val / 256) as u8, c: (val % 256) as u8, ..*old(self) }),
    {
        self.b = (val / 256) as u8;
        self.c = (val % 256) as u8;
    }

    pub fn get_bc(&self) -> (r: u16)
        ensures
            r == self.spec_bc(),
    {
        (self.b as u16) * 256 + (self.c as u16)
    }

    pub fn set_de(&mut self, val: u16)
        ensures
            *final(self) == (Registers { d: (val / 256) as u8, e: (val % 256) as u8, ..*old(self) }),
    {
        self.d = (val / 256) as u8;
        self.e = (val % 256) as u8;
    }

    pub fn get_de(&self) -> (r: u16)
        ensures
            r == self.spec_de(),
    {
        (self.d as u16) * 256 + (self.e as u16)
    }

    pub fn set_hl(&mut self, val: u16)
        ensures
            *final(self) == (Registers { h: (val / 256) as u8, l: (val % 256) as u8, ..*old(self) }),
    {
        self.h = (val / 256) as u8;
        self.l = (val % 256) as u8;
    }

    pub fn get_hl(&self) -> (r: u16)
        ensures
            r == self.spec_hl(),
    {
        (self.h as u16) * 256 + (self.l as u16)
    }
}

} // verus!
