//! MBC5: up to 8 MB of ROM (9 bank bits) and 128 KB of RAM (4 bank bits).

use vstd::prelude::*;
use crate::memory::cartridge::{byte_at, banked_rom_read, ram_read, ram_store, ram_loaded, load_prefix};

verus! {

pub struct Mbc5 {
    pub rom: Vec<u8>,
    pub ram: Vec<u8>,
    /// 9-bit ROM bank number (bank 0 is selectable).
    pub rom_bank: u16,
    pub ram_bank: u8,
    pub ram_enabled: bool,
}

pub struct Mbc5View {
    pub rom: Seq<u8>,
    pub ram: Seq<u8>,
    pub rom_bank: u16,
    pub ram_bank: u8,
    pub ram_enabled: bool,
}

impl Mbc5View {
    pub open spec fn read_rom(self, addr: u16) -> u8 {
        banked_rom_read(self.rom, self.rom_bank as int, addr)
    }

    /// Register writes: RAM enable; ROM bank low byte (0x2000-0x2FFF); ROM bank
    /// bit 8 (0x3000-0x3FFF); 4-bit RAM bank (0x4000-0x5FFF).
    pub open spec fn write_rom(self, addr: u16, value: u8) -> Self {
        if addr <= 0x1FFF {
            Mbc5View { ram_enabled: value & 0x0F == 0x0A, ..self }
        } else if addr <= 0x2FFF {
            Mbc5View { rom_bank: (self.rom_bank & 0x100) | (value as u16), ..self }
        } else if addr <= 0x3FFF {
            Mbc5View { rom_bank: (self.rom_bank & 0xFF) | ((value as u16 & 1) << 8), ..self }
        } else if addr <= 0x5FFF {
            Mbc5View { ram_bank: value & 0x0F, ..self }
        } else {
            self
        }
    }

    pub open spec fn read_ram(self, addr: u16) -> u8 {
        if !self.ram_enabled { 0xFF } else { ram_read(self.ram, self.ram_bank, addr) }
    }

    pub open spec fn write_ram(self, addr: u16, value: u8) -> Self {
        if !self.ram_enabled { self } else { Mbc5View { ram: ram_store(self.ram, self.ram_bank, addr, value), ..self } }
    }
}

impl Mbc5 {
    pub open spec fn view(&self) -> Mbc5View {
        Mbc5View {
            rom: self.rom@,
            ram: self.ram@,
            rom_bank: self.rom_bank,
            ram_bank: self.ram_bank,
            ram_enabled: self.ram_enabled,
        }
    }

    pub fn new(rom: Vec<u8>, ram_size: usize) -> (r: Self)
        ensures
            r.view() == (Mbc5View {
                rom: rom@, ram: Seq::new(ram_size as nat, |i: int| 0u8),
                rom_bank: 1, ram_bank: 0, ram_enabled: false,
            }),
    {
        let ram = vec![0u8; ram_size];
        let r = Mbc5 { rom, ram, rom_bank: 1, ram_bank: 0, ram_enabled: false };
        assert(r.ram@ =~= Seq::new(ram_size as nat, |i: int| 0u8));
        r
    }

    pub fn read_rom(&self, addr: u16) -> (r: u8)
        ensures r == self.view().read_rom(addr),
    {
        if addr <= 0x3FFF {
            byte_at(&self.rom, addr as usize)
        } else if addr <= 0x7FFF {
            byte_at(&self.rom, self.rom_bank as usize * 0x4000 + (addr as usize - 0x4000))
        } else {
            0xFF
        }
    }

    pub fn write_rom(&mut self, addr: u16, value: u8)
        ensures final(self).view() == old(self).view().write_rom(addr, value), final(self).rom == old(self).rom,
            final(self).ram == old(self).ram,
    {
        if addr <= 0x1FFF {
            self.ram_enabled = (value & 0x0F) == 0x0A;
        } else if addr <= 0x2FFF {
            self.rom_bank = (self.rom_bank & 0x100) | (value as u16);
        } else if addr <= 0x3FFF {
            self.rom_bank = (self.rom_bank & 0xFF) | ((value as u16 & 1) << 8);
        } else if addr <= 0x5FFF {
            self.ram_bank = value & 0x0F;
        }
    }

    pub fn read_ram(&self, addr: u16) -> (r: u8)
        requires 0xA000 <= addr <= 0xBFFF,
        ensures r == self.view().read_ram(addr),
    {
        if !self.ram_enabled {
            return 0xFF;
        }
        byte_at(&self.ram, self.ram_bank as usize * 0x2000 + (addr - 0xA000) as usize)
    }

    pub fn write_ram(&mut self, addr: u16, value: u8)
        requires 0xA000 <= addr <= 0xBFFF,
        ensures final(self).view() == old(self).view().write_ram(addr, value), final(self).rom == old(self).rom,
    {
        if !self.ram_enabled {
            return;
        }
        let offset = self.ram_bank as usize * 0x2000 + (addr - 0xA000) as usize;
        if offset < self.ram.len() {
            self.ram.set(offset, value);
        }
    }

    pub fn load_ram(&mut self, data: &[u8])
        ensures
            final(self).view() == (Mbc5View { ram: ram_loaded(old(self).ram@, data@), ..old(self).view() }),
            final(self).rom == old(self).rom,
    {
        load_prefix(&mut self.ram, data);
    }

    pub fn rom_bank_count(&self) -> (r: usize)
        ensures r == self.rom@.len() / 0x4000,
    {
        self.rom.len() / 0x4000
    }
}

/// ROM bank switching: a write of `val` to 0x2000-0x2FFF sets the low
/// eight bits of the bank number and a write of `b` to 0x3000-0x3FFF sets
/// bit 8 from `b` bit 0, each keeping the other part; 0x4000 + i then reads
/// byte i of that bank (0xFF past the image) while 0x0000-0x3FFF keeps
/// reading bank 0.
pub proof fn law_mbc5_rom_banking(v: Mbc5View, addr: u16, val: u8, i: int)
    requires 0 <= i < 0x4000,
    ensures ({
        let hi: int = if v.rom_bank & 0x100 != 0 { 1 } else { 0 };
        let lo: int = (v.rom_bank % 256) as int;
        let w1 = v.write_rom(addr, val);
        let off1 = (hi * 256 + val) * 0x4000 + i;
        let off2 = ((val % 2) * 256 + lo) * 0x4000 + i;
        &&& 0x2000 <= addr <= 0x2FFF ==> w1.read_rom((0x4000 + i) as u16)
                == (if off1 < v.rom.len() { v.rom[off1] } else { 0xFF })
        &&& 0x3000 <= addr <= 0x3FFF ==> w1.read_rom((0x4000 + i) as u16)
                == (if off2 < v.rom.len() { v.rom[off2] } else { 0xFF })
        &&& 0x2000 <= addr <= 0x3FFF ==> w1.read_rom(i as u16) == (if i < v.rom.len() { v.rom[i] } else { 0xFF })
    }),
{
    let rb = v.rom_bank;
    let x = val as u16;
    assert(((rb & 0x100) | x) == (if rb & 0x100 != 0 { 256u16 } else { 0 }) + x
        && ((rb & 0xFF) | ((x & 1) << 8)) == rb % 256 + (x % 2) * 256) by (bit_vector)
        requires x < 256;
}

/// External RAM: a write to 0x0000-0x1FFF opens it exactly when the low
/// nibble of the value is 0xA; a closed RAM reads 0xFF and ignores writes.
/// An open RAM reads back what was written at the same address, reads 0xFF
/// and ignores writes past its end, and a write leaves every other
/// address of the selected bank alone.
/// A write to 0x4000-0x5FFF selects RAM bank `val % 16`.
pub proof fn law_mbc5_ram(v: Mbc5View, addr: u16, a2: u16, reg: u16, val: u8, x: u8)
    requires 0xA000 <= addr <= 0xBFFF, 0xA000 <= a2 <= 0xBFFF,
    ensures
        reg <= 0x1FFF ==> v.write_rom(reg, val).ram_enabled == (val % 16 == 10),
        !v.ram_enabled ==> v.read_ram(addr) == 0xFF && v.write_ram(addr, x) == v,
        v.ram_enabled ==> v.read_ram(addr) == ({
            let off = v.ram_bank * 0x2000 + (addr - 0xA000);
            if off < v.ram.len() { v.ram[off] } else { 0xFF }
        }),
        v.ram_enabled && v.ram_bank * 0x2000 + (addr - 0xA000) < v.ram.len() ==> v.write_ram(addr, x).read_ram(addr) == x,
        v.ram_enabled && a2 != addr ==> v.write_ram(addr, x).read_ram(a2) == v.read_ram(a2),
        0x4000 <= reg <= 0x5FFF ==> v.write_rom(reg, val).ram_bank == val % 16,
{
    crate::bits::lemma_byte_fields(val, val, val);
}

} // verus!
