//! MBC3: up to 2 MB of ROM (7 bank bits), 64 KB of RAM and a real-time
//! clock whose registers are selected by RAM bank values 0x08-0x0C.

use vstd::prelude::*;
use crate::memory::rtc::Rtc;
use crate::memory::cartridge::{byte_at, banked_rom_read, ram_read, ram_store, ram_loaded, load_prefix};

verus! {

pub struct Mbc3 {
    pub rom: Vec<u8>,
    pub ram: Vec<u8>,
    pub rom_bank: u16,
    /// 0x00-0x07 select RAM banks, 0x08-0x0C RTC registers.
    pub ram_bank: u8,
    pub ram_enabled: bool,
    pub rtc: Rtc,
}

pub struct Mbc3View {
    pub rom: Seq<u8>,
    pub ram: Seq<u8>,
    pub rom_bank: u16,
    pub ram_bank: u8,
    pub ram_enabled: bool,
    pub rtc: Rtc,
}

impl Mbc3View {
    pub open spec fn read_rom(self, addr: u16) -> u8 {
        banked_rom_read(self.rom, if self.rom_bank == 0 { 1 } else { self.rom_bank as int }, addr)
    }

    /// Register writes: RAM enable; 7-bit ROM bank (0 selects 1); RAM bank / RTC
    /// register select; RTC latch.
    pub open spec fn write_rom(self, addr: u16, value: u8) -> Self {
        if addr <= 0x1FFF {
            Mbc3View { ram_enabled: value & 0x0F == 0x0A, ..self }
        } else if addr <= 0x3FFF {
            let bank = value & 0x7F;
            Mbc3View { rom_bank: if bank == 0 { 1 } else { bank as u16 }, ..self }
        } else if addr <= 0x5FFF {
            Mbc3View { ram_bank: value, ..self }
        } else if addr <= 0x7FFF {
            Mbc3View { rtc: latch_written(self.rtc, value), ..self }
        } else {
            self
        }
    }

    /// RTC registers are readable regardless of the RAM enable.
    pub open spec fn read_ram(self, addr: u16) -> u8 {
        if 0x08 <= self.ram_bank <= 0x0C {
            self.rtc.read_spec(self.ram_bank)
        } else if !self.ram_enabled {
            0xFF
        } else {
            ram_read(self.ram, self.ram_bank, addr)
        }
    }

    pub open spec fn write_ram(self, addr: u16, value: u8) -> Self {
        if 0x08 <= self.ram_bank <= 0x0C {
            Mbc3View { rtc: self.rtc.write_spec(self.ram_bank, value), ..self }
        } else if !self.ram_enabled {
            self
        } else {
            Mbc3View { ram: ram_store(self.ram, self.ram_bank, addr, value), ..self }
        }
    }
}

/// The RTC after a write to the latch register (see `Rtc::write_latch`).
pub open spec fn latch_written(r: Rtc, value: u8) -> Rtc {
    if value == 0x00 {
        Rtc { latch_ready: true, ..r }
    } else if value == 0x01 && r.latch_ready {
        Rtc {
            latch_ready: false,
            latched_s: r.s,
            latched_m: r.m,
            latched_h: r.h,
            latched_dl: r.dl,
            latched_dh: r.dh,
            ..r
        }
    } else {
        Rtc { latch_ready: false, ..r }
    }
}

impl Mbc3 {
    pub open spec fn view(&self) -> Mbc3View {
        Mbc3View {
            rom: self.rom@,
            ram: self.ram@,
            rom_bank: self.rom_bank,
            ram_bank: self.ram_bank,
            ram_enabled: self.ram_enabled,
            rtc: self.rtc,
        }
    }

    /// A cartridge whose clock starts at wall-clock second `now`.
    pub fn new(rom: Vec<u8>, ram_size: usize, now: u64) -> (r: Self)
        ensures
            r.view() == (Mbc3View {
                rom: rom@, ram: Seq::new(ram_size as nat, |i: int| 0u8),
                rom_bank: 1, ram_bank: 0, ram_enabled: false, rtc: r.rtc,
            }),
            r.rtc == (Rtc {
                s: 0, m: 0, h: 0, dl: 0, dh: 0,
                latched_s: 0, latched_m: 0, latched_h: 0, latched_dl: 0, latched_dh: 0,
                latch_ready: false, base_timestamp: now, clock: now,
            }),
    {
        let ram = vec![0u8; ram_size];
        let r = Mbc3 { rom, ram, rom_bank: 1, ram_bank: 0, ram_enabled: false, rtc: Rtc::new(now) };
        assert(r.ram@ =~= Seq::new(ram_size as nat, |i: int| 0u8));
        r
    }

    pub fn read_rom(&self, addr: u16) -> (r: u8)
        ensures r == self.view().read_rom(addr),
    {
        if addr <= 0x3FFF {
            byte_at(&self.rom, addr as usize)
        } else if addr <= 0x7FFF {
            let bank: usize = if self.rom_bank == 0 { 1 } else { self.rom_bank as usize };
            byte_at(&self.rom, bank * 0x4000 + (addr as usize - 0x4000))
        } else {
            0xFF
        }
    }

    pub fn write_rom(&mut self, addr: u16, value: u8)
        ensures final(self).view() == old(self).view().write_rom(addr, value), final(self).rom == old(self).rom,
            final(self).ram == old(self).ram,
    {
        if addr <= 0x1FFF {
            self.ram_enabled = (value & 0x0F) == 0x0A;
        } else if addr <= 0x3FFF {
            let bank = value & 0x7F;
            self.rom_bank = if bank == 0 { 1 } else { bank as u16 };
        } else if addr <= 0x5FFF {
            self.ram_bank = value;
        } else if addr <= 0x7FFF {
            self.rtc.write_latch(value);
        }
    }

    pub fn read_ram(&self, addr: u16) -> (r: u8)
        requires 0xA000 <= addr <= 0xBFFF,
        ensures r == self.view().read_ram(addr),
    {
        if Rtc::is_rtc_register(self.ram_bank) {
            return self.rtc.read_register(self.ram_bank);
        }
        if !self.ram_enabled {
            return 0xFF;
        }
        byte_at(&self.ram, self.ram_bank as usize * 0x2000 + (addr - 0xA000) as usize)
    }

    pub fn write_ram(&mut self, addr: u16, value: u8)
        requires 0xA000 <= addr <= 0xBFFF,
        ensures final(self).view() == old(self).view().write_ram(addr, value), final(self).rom == old(self).rom,
    {
        if Rtc::is_rtc_register(self.ram_bank) {
            self.rtc.write_register(self.ram_bank, value);
            return;
        }
        if !self.ram_enabled {
            return;
        }
        let offset = self.ram_bank as usize * 0x2000 + (addr - 0xA000) as usize;
        if offset < self.ram.len() {
            self.ram.set(offset, value);
        }
    }

    pub fn load_ram(&mut self, data: &[u8])
        ensures
            final(self).view() == (Mbc3View { ram: ram_loaded(old(self).ram@, data@), ..old(self).view() }),
            final(self).rom == old(self).rom,
    {
        load_prefix(&mut self.ram, data);
    }

    pub fn rom_bank_count(&self) -> (r: usize)
        ensures r == self.rom@.len() / 0x4000,
    {
        self.rom.len() / 0x4000
    }

    /// Record wall-clock second `now` in the clock (see `Rtc::set_clock`).
    pub fn set_rtc_clock(&mut self, now: u64)
        ensures
            final(self).view() == (Mbc3View { rtc: Rtc { clock: now, ..old(self).rtc }, ..old(self).view() }),
            final(self).rom == old(self).rom,
            final(self).rtc == (Rtc { clock: now, ..old(self).rtc }),
    {
        self.rtc.set_clock(now);
    }

    /// Advance the clock to wall-clock second `now` (see `Rtc::tick`).
    pub fn tick_rtc(&mut self, now: u64)
        requires
            old(self).rtc.total_seconds() + old(self).rtc.elapsed(now) <= u64::MAX,
        ensures
            final(self).view() == (Mbc3View { rtc: final(self).rtc, ..old(self).view() }),
            final(self).rom == old(self).rom,
            final(self).rtc == old(self).rtc.ticked(now),
    {
        self.rtc.tick(now);
    }
}

/// ROM bank switching: a write of `val` to 0x2000-0x3FFF selects bank
/// `val & 0x7F`, 0 selecting 1; 0x4000 + i then reads byte i of that bank
/// (0xFF past the image) while 0x0000-0x3FFF keeps reading bank 0.
pub proof fn law_mbc3_rom_banking(v: Mbc3View, addr: u16, val: u8, i: int)
    requires 0x2000 <= addr <= 0x3FFF, 0 <= i < 0x4000,
    ensures ({
        let bank: int = if val % 128 == 0 { 1 } else { (val % 128) as int };
        let off = bank * 0x4000 + i;
        let w = v.write_rom(addr, val);
        &&& w.read_rom((0x4000 + i) as u16) == (if off < v.rom.len() { v.rom[off] } else { 0xFF })
        &&& w.read_rom(i as u16) == (if i < v.rom.len() { v.rom[i] } else { 0xFF })
    }),
{
    assert(val & 0x7F == val % 128) by (bit_vector);
}

/// External RAM: a write to 0x0000-0x1FFF opens it exactly when the low
/// nibble of the value is 0xA; a closed RAM reads 0xFF and ignores writes.
/// An open RAM reads back what was written at the same address, reads 0xFF
/// and ignores writes past its end, and a write leaves every other
/// address of the selected bank alone.
/// A write to 0x4000-0x5FFF selects RAM bank `val` (0x08-0x0C select the clock registers instead).
pub proof fn law_mbc3_ram(v: Mbc3View, addr: u16, a2: u16, reg: u16, val: u8, x: u8)
    requires 0xA000 <= addr <= 0xBFFF, 0xA000 <= a2 <= 0xBFFF, !(0x08 <= v.ram_bank <= 0x0C),
    ensures
        reg <= 0x1FFF ==> v.write_rom(reg, val).ram_enabled == (val % 16 == 10),
        !v.ram_enabled ==> v.read_ram(addr) == 0xFF && v.write_ram(addr, x) == v,
        v.ram_enabled ==> v.read_ram(addr) == ({
            let off = v.ram_bank * 0x2000 + (addr - 0xA000);
            if off < v.ram.len() { v.ram[off] } else { 0xFF }
        }),
        v.ram_enabled && v.ram_bank * 0x2000 + (addr - 0xA000) < v.ram.len() ==> v.write_ram(addr, x).read_ram(addr) == x,
        v.ram_enabled && a2 != addr ==> v.write_ram(addr, x).read_ram(a2) == v.read_ram(a2),
        0x4000 <= reg <= 0x5FFF ==> v.write_rom(reg, val).ram_bank == val,
{
    crate::bits::lemma_byte_fields(val, val, val);
}

} // verus!
