//! The cartridge: a validated ROM image plus its external RAM, addressed by
//! offset. Bank switching is out of scope; the ROM is read as a flat image.

use vstd::prelude::*;

verus! {

/// Declared ROM size for a header byte at offset 0x148: a power-of-two
/// progression from 32 KiB (code 0x00) to 8 MiB (code 0x08).
pub open spec fn spec_rom_size(byte: u8) -> Option<usize> {
    match byte {
        0x00 => Some(0x008000usize),
        0x01 => Some(0x010000usize),
        0x02 => Some(0x020000usize),
        0x03 => Some(0x040000usize),
        0x04 => Some(0x080000usize),
        0x05 => Some(0x100000usize),
        0x06 => Some(0x200000usize),
        0x07 => Some(0x400000usize),
        0x08 => Some(0x800000usize),
        _ => None,
    }
}

/// Declared external RAM size for a header byte at offset 0x149.
pub open spec fn spec_ext_ram_size(byte: u8) -> Option<usize> {
    match byte {
        0x00 => Some(0x00000usize),
        0x02 => Some(0x02000usize),
        0x03 => Some(0x08000usize),
        0x04 => Some(0x20000usize),
        0x05 => Some(0x10000usize),
        _ => None,
    }
}

/// Whether a byte vector is a structurally valid ROM image: long enough to
/// hold the header, with a known ROM-size code that matches the actual
/// length and a known RAM-size code.
pub open spec fn spec_valid_rom(rom: Seq<u8>) -> bool {
    &&& rom.len() >= 0x150
    &&& spec_rom_size(rom[0x148]) == Some(rom.len() as usize)
    &&& spec_ext_ram_size(rom[0x149]) is Some
}

pub fn get_rom_size(byte: u8) -> (r: Option<usize>)
    ensures
        r == spec_rom_size(byte),
{
    match byte {
        0x00 => Some(0x008000),
        0x01 => Some(0x010000),
        0x02 => Some(0x020000),
        0x03 => Some(0x040000),
        0x04 => Some(0x080000),
        0x05 => Some(0x100000),
        0x06 => Some(0x200000),
        0x07 => Some(0x400000),
        0x08 => Some(0x800000),
        _ => None,
    }
}

pub fn get_ext_ram_size(byte: u8) -> (r: Option<usize>)
    ensures
        r == spec_ext_ram_size(byte),
{
    match byte {
        0x00 => Some(0x00000),
        0x02 => Some(0x02000),
        0x03 => Some(0x08000),
        0x04 => Some(0x20000),
        0x05 => Some(0x10000),
        _ => None,
    }
}

#[derive(Clone, Copy, Debug, PartialEq, Eq, Structural)]
pub enum CartridgeError {
    /// The image could not be read at all (an I/O failure at the boundary).
    RomReadError,
    /// The image is too short, or a size-header byte is unknown, or the
    /// declared ROM size disagrees with the actual length.
    InvalidRomError,
}

pub struct Cartridge {
    pub rom: Vec<u8>,
    pub rom_size: usize,
    pub external_ram: Vec<u8>,
}

impl Cartridge {
    /// Invariant: the recorded size matches the image, and a validated image
    /// is at least 32 KiB, so every bus address below 0x8000 is in bounds.
    pub open spec fn wf(self) -> bool {
        &&& self.rom@.len() == self.rom_size
        &&& 0x8000 <= self.rom_size <= 0x800000
    }

    /// Validate a ROM image and build the cartridge around it, with its
    /// external RAM zeroed at the declared size. The image bytes come from
    /// the caller; reading them from disk is the caller's concern.
    pub fn new(rom: Vec<u8>) -> (r: Result<Cartridge, CartridgeError>)
        ensures
            spec_valid_rom(rom@) <==> r is Ok,
            r matches Ok(c) ==> {
                &&& c.wf()
                &&& c.rom@ == rom@
                &&& c.external_ram@ == Seq::new(
                    spec_ext_ram_size(rom@[0x149]).unwrap() as nat,
                    |i: int| 0u8,
                )
            },
            r matches Err(e) ==> e == CartridgeError::InvalidRomError,
    {
        let rom_size = rom.len();
        if rom_size < 0x150 {
            return Err(CartridgeError::InvalidRomError);
        }

        match get_rom_size(rom[0x148]) {
            Some(size) if size == rom_size => {},
            _ => {
                return Err(CartridgeError::InvalidRomError);
            },
        }

        let external_ram_size = match get_ext_ram_size(rom[0x149]) {
            Some(size) => size,
            None => {
                return Err(CartridgeError::InvalidRomError);
            },
        };

        let mut external_ram: Vec<u8> = Vec::new();
        let mut i: usize = 0;
        while i < external_ram_size
            invariant
                i <= external_ram_size,
                external_ram@ == Seq::new(i as nat, |j: int| 0u8),
            decreases external_ram_size - i,
        {
            external_ram.push(0);
            proof {
                assert(external_ram@ =~= Seq::new((i + 1) as nat, |j: int| 0u8));
            }
            i += 1;
        }

        Ok(Cartridge { rom, rom_size, external_ram })
    }

    pub fn read_rom(&self, addr: u16) -> (r: u8)
        requires
            self.wf(),
            addr < 0x8000,
        ensures
            r == self.rom@[addr as int],
    {
        self.rom[addr as usize]
    }

    /// Writes into the ROM region would drive a mapper; with no mapper
    /// configured they do nothing.
    pub fn write_rom(&mut self, addr: u16, data: u8)
        ensures
            *final(self) == *old(self),
    {
    }

    pub fn read_ram(&self, addr: u16) -> (r: u8)
        requires
            (addr as int) < self.external_ram@.len(),
        ensures
            r == self.external_ram@[addr as int],
    {
        self.external_ram[addr as usize]
    }

    pub fn write_ram(&mut self, addr: u16, data: u8)
        requires
            (addr as int) < old(self).external_ram@.len(),
        ensures
            final(self).external_ram@ == old(self).external_ram@.update(addr as int, data),
            final(self).rom == old(self).rom,
            final(self).rom_size == old(self).rom_size,
            final(self).wf() == old(self).wf(),
    {
        self.external_ram.set(addr as usize, data);
    }

    /// How many bytes of external RAM the cartridge carries.
    pub fn ram_len(&self) -> (r: usize)
        ensures
            r == self.external_ram@.len(),
    {
        self.external_ram.len()
    }
}

} // verus!
