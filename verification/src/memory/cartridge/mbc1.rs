//! MBC1: up to 2 MB of ROM (5+2 bank bits) and 32 KB of RAM (4 banks), with a
//! ROM/RAM banking mode switch.

use vstd::prelude::*;
use crate::memory::cartridge::{byte_at, banked_rom_read, ram_read, ram_store, ram_loaded, load_prefix};

verus! {

pub struct Mbc1 {
    pub rom: Vec<u8>,
    pub ram: Vec<u8>,
    pub rom_bank: u16,
    pub ram_bank: u8,
    pub ram_enabled: bool,
    /// false = ROM banking mode, true = RAM banking mode.
    pub mode: bool,
}

pub struct Mbc1View {
    pub rom: Seq<u8>,
    pub ram: Seq<u8>,
    pub rom_bank: u16,
    pub ram_bank: u8,
    pub ram_enabled: bool,
    pub mode: bool,
}

impl Mbc1View {
    /// 0x0000-0x3FFF: bank 0; 0x4000-0x7FFF: the selected bank (0 reads as 1).
    pub open spec fn read_rom(self, addr: u16) -> u8 {
        banked_rom_read(self.rom, if self.rom_bank == 0 { 1 } else { self.rom_bank as int }, addr)
    }

    /// Register writes: 0x0000-0x1FFF RAM enable (low nibble 0xA); 0x2000-0x3FFF
    /// low 5 ROM bank bits (0 selects 1); 0x4000-0x5FFF RAM bank in RAM mode,
    /// else ROM bank bits 5-6; 0x6000-0x7FFF banking mode (bit 0).
    pub open spec fn write_rom(self, addr: u16, value: u8) -> Self {
        if addr <= 0x1FFF {
            Mbc1View { ram_enabled: value & 0x0F == 0x0A, ..self }
        } else if addr <= 0x3FFF {
            let bank = value & 0x1F;
            Mbc1View { rom_bank: (self.rom_bank & 0x60) | (if bank == 0 { 1u8 } else { bank }) as u16, ..self }
        } else if addr <= 0x5FFF {
            if self.mode {
                Mbc1View { ram_bank: value & 0x03, ..self }
            } else {
                Mbc1View { rom_bank: (self.rom_bank & 0x1F) | ((value as u16 & 0x03) << 5), ..self }
            }
        } else if addr <= 0x7FFF {
            Mbc1View { mode: value & 0x01 != 0, ..self }
        } else {
            self
        }
    }

    /// External RAM (0xFF while disabled or past the end).
    pub open spec fn read_ram(self, addr: u16) -> u8 {
        if !self.ram_enabled { 0xFF } else { ram_read(self.ram, self.ram_bank, addr) }
    }

    pub open spec fn write_ram(self, addr: u16, value: u8) -> Self {
        if !self.ram_enabled { self } else { Mbc1View { ram: ram_store(self.ram, self.ram_bank, addr, value), ..self } }
    }
}

impl Mbc1 {
    pub open spec fn view(&self) -> Mbc1View {
        Mbc1View {
            rom: self.rom@,
            ram: self.ram@,
            rom_bank: self.rom_bank,
            ram_bank: self.ram_bank,
            ram_enabled: self.ram_enabled,
            mode: self.mode,
        }
    }

    pub fn new(rom: Vec<u8>, ram_size: usize) -> (r: Self)
        ensures
            r.view() == (Mbc1View {
                rom: rom@, ram: Seq::new(ram_size as nat, |i: int| 0u8),
                rom_bank: 1, ram_bank: 0, ram_enabled: false, mode: false,
            }),
    {
        let ram = vec![0u8; ram_size];
        let r = Mbc1 { rom, ram, rom_bank: 1, ram_bank: 0, ram_enabled: false, mode: false };
        assert(r.ram@ =~= Seq::new(ram_size as nat, |i: int| 0u8));
        r
    }

    pub fn read_rom(&self, addr: u16) -> (r: u8)
        ensures r == self.view().read_rom(addr),
    {
        if addr <= 0x3FFF {
            byte_at(&self.rom, addr as usize)
        } else if addr <= 0x7FFF {
            let bank: usize = if self.rom_bank == 0 { 1 } else { self.rom_bank as usize };
            byte_at(&self.rom, bank * 0x4000 + (addr as usize - 0x4000))
        } else {
            0xFF
        }
    }

    pub fn write_rom(&mut self, addr: u16, value: u8)
        ensures final(self).view() == old(self).view().write_rom(addr, value), final(self).rom == old(self).rom,
            final(self).ram == old(self).ram,
    {
        if addr <= 0x1FFF {
            self.ram_enabled = (value & 0x0F) == 0x0A;
        } else if addr <= 0x3FFF {
            let bank = value & 0x1F;
            self.rom_bank = (self.rom_bank & 0x60) | (if bank == 0 { 1 } else { bank }) as u16;
        } else if addr <= 0x5FFF {
            if self.mode {
                self.ram_bank = value & 0x03;
            } else {
                self.rom_bank = (self.rom_bank & 0x1F) | ((value as u16 & 0x03) << 5);
            }
        } else if addr <= 0x7FFF {
            self.mode = (value & 0x01) != 0;
        }
    }

    pub fn read_ram(&self, addr: u16) -> (r: u8)
        requires 0xA000 <= addr <= 0xBFFF,
        ensures r == self.view().read_ram(addr),
    {
        if !self.ram_enabled {
            return 0xFF;
        }
        byte_at(&self.ram, self.ram_bank as usize * 0x2000 + (addr - 0xA000) as usize)
    }

    pub fn write_ram(&mut self, addr: u16, value: u8)
        requires 0xA000 <= addr <= 0xBFFF,
        ensures final(self).view() == old(self).view().write_ram(addr, value), final(self).rom == old(self).rom,
    {
        if !self.ram_enabled {
            return;
        }
        let offset = self.ram_bank as usize * 0x2000 + (addr - 0xA000) as usize;
        if offset < self.ram.len() {
            self.ram.set(offset, value);
        }
    }

    /// Copy save data over the start of RAM (truncated to the RAM size).
    pub fn load_ram(&mut self, data: &[u8])
        ensures
            final(self).view() == (Mbc1View { ram: ram_loaded(old(self).ram@, data@), ..old(self).view() }),
            final(self).rom == old(self).rom,
    {
        load_prefix(&mut self.ram, data);
    }

    pub fn rom_bank_count(&self) -> (r: usize)
        ensures r == self.rom@.len() / 0x4000,
    {
        self.rom.len() / 0x4000
    }
}

/// ROM bank switching: a write of `val` to 0x2000-0x3FFF sets bank bits 0-4
/// to `val` bits 0-4, 0 selecting 1, and keeps bits 5-6; 0x4000 + i then
/// reads byte i of that bank (0xFF past the image) while 0x0000-0x3FFF keeps
/// reading bank 0.
pub proof fn law_mbc1_rom_banking(v: Mbc1View, addr: u16, val: u8, i: int)
    requires 0x2000 <= addr <= 0x3FFF, 0 <= i < 0x4000,
    ensures ({
        let low: int = if val % 32 == 0 { 1 } else { (val % 32) as int };
        let off = (((v.rom_bank / 32) % 4) * 32 + low) * 0x4000 + i;
        let w = v.write_rom(addr, val);
        &&& w.read_rom((0x4000 + i) as u16) == (if off < v.rom.len() { v.rom[off] } else { 0xFF })
        &&& w.read_rom(i as u16) == (if i < v.rom.len() { v.rom[i] } else { 0xFF })
    }),
{
    let rb = v.rom_bank;
    let b = val & 0x1F;
    let l: u16 = (if b == 0 { 1u8 } else { b }) as u16;
    assert(b == val % 32 && ((rb & 0x60) | l) == ((rb / 32) % 4) * 32 + l) by (bit_vector)
        requires b == val & 0x1F, l == (if b == 0 { 1u8 } else { b }) as u16;
}

/// External RAM: a write to 0x0000-0x1FFF opens it exactly when the low
/// nibble of the value is 0xA; a closed RAM reads 0xFF and ignores writes.
/// An open RAM reads back what was written at the same address, reads 0xFF
/// and ignores writes past its end, and a write leaves every other
/// address of the selected bank alone.
/// In RAM banking mode a write to 0x4000-0x5FFF selects RAM bank `val % 4`.
pub proof fn law_mbc1_ram(v: Mbc1View, addr: u16, a2: u16, reg: u16, val: u8, x: u8)
    requires 0xA000 <= addr <= 0xBFFF, 0xA000 <= a2 <= 0xBFFF,
    ensures
        reg <= 0x1FFF ==> v.write_rom(reg, val).ram_enabled == (val % 16 == 10),
        !v.ram_enabled ==> v.read_ram(addr) == 0xFF && v.write_ram(addr, x) == v,
        v.ram_enabled ==> v.read_ram(addr) == ({
            let off = v.ram_bank * 0x2000 + (addr - 0xA000);
            if off < v.ram.len() { v.ram[off] } else { 0xFF }
        }),
        v.ram_enabled && v.ram_bank * 0x2000 + (addr - 0xA000) < v.ram.len() ==> v.write_ram(addr, x).read_ram(addr) == x,
        v.ram_enabled && a2 != addr ==> v.write_ram(addr, x).read_ram(a2) == v.read_ram(a2),
        v.mode && 0x4000 <= reg <= 0x5FFF ==> v.write_rom(reg, val).ram_bank == val % 4,
{
    crate::bits::lemma_byte_fields(val, val, val);
}

/// In ROM banking mode a write of `val` to 0x4000-0x5FFF sets bank bits
/// 5-6 to `val` bits 0-1 and keeps bits 0-4; 0x4000 + i then reads byte i
/// of that bank (bank 0 reading as bank 1, 0xFF past the image).
pub proof fn law_mbc1_upper_rom_bits(v: Mbc1View, addr: u16, val: u8, i: int)
    requires !v.mode, 0x4000 <= addr <= 0x5FFF, 0 <= i < 0x4000,
    ensures ({
        let bank: int = (val % 4) * 32 + v.rom_bank % 32;
        let b: int = if bank == 0 { 1 } else { bank };
        let off = b * 0x4000 + i;
        v.write_rom(addr, val).read_rom((0x4000 + i) as u16) == (if off < v.rom.len() { v.rom[off] } else { 0xFF })
    }),
{
    let rb = v.rom_bank;
    let x = val as u16;
    assert((rb & 0x1F) | ((x & 0x03) << 5) == rb % 32 + (x % 4) * 32) by (bit_vector);
}

} // verus!
