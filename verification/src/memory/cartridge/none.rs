//! Cartridge without MBC: up to 32 KB of ROM, no RAM.

use vstd::prelude::*;
use crate::memory::cartridge::{rom_byte, byte_at};

verus! {

pub struct NoMbc {
    pub rom: Vec<u8>,
}

pub struct NoMbcView {
    pub rom: Seq<u8>,
}

impl NoMbcView {
    pub open spec fn read_rom(self, addr: u16) -> u8 {
        rom_byte(self.rom, addr as int)
    }
}

impl NoMbc {
    pub open spec fn view(&self) -> NoMbcView {
        NoMbcView { rom: self.rom@ }
    }

    pub fn new(rom: Vec<u8>) -> (r: Self)
        ensures r.rom@ == rom@,
    {
        NoMbc { rom }
    }

    /// ROM byte at `addr`, or 0xFF past the end of the image.
    pub fn read_rom(&self, addr: u16) -> (r: u8)
        ensures r == self.view().read_rom(addr),
    {
        byte_at(&self.rom, addr as usize)
    }

    /// Number of 16 KB banks in the ROM image.
    pub fn rom_bank_count(&self) -> (r: usize)
        ensures r == self.rom@.len() / 0x4000,
    {
        self.rom.len() / 0x4000
    }
}

} // verus!
