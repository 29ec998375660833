//! Pocket Camera (Game Boy Camera) cartridge (type 0xFC).
//!
//! RAM banks 0x00-0x0F map the 128 KB SRAM (photo storage); banks 0x10 and
//! up map the sensor registers (A000-A07F) and the captured tile data
//! (A080-AEFF). SRAM is always accessible, whatever the RAM enable register
//! holds.

use vstd::prelude::*;
use crate::bits::lemma_u8_fields;
use crate::memory::camera::{Camera, CameraView};
use crate::memory::cartridge::{rom_byte, byte_at, ram_loaded, load_prefix};

verus! {

pub struct PocketCamera {
    pub rom: Vec<u8>,
    pub camera: Camera,
    /// 7-bit ROM bank (MBC3 compatible).
    pub rom_bank: u16,
    /// 0x00-0x0F: SRAM bank; 0x10 and up: camera registers.
    pub ram_bank: u8,
}

pub struct PocketCameraView {
    pub rom: Seq<u8>,
    pub camera: CameraView,
    pub rom_bank: u16,
    pub ram_bank: u8,
}

impl PocketCameraView {
    pub open spec fn wf(self) -> bool {
        self.camera.wf()
    }

    /// ROM read; bank 0 in the switchable window reads bank 1.
    pub open spec fn read_rom(self, addr: u16) -> u8 {
        if addr <= 0x3FFF {
            rom_byte(self.rom, addr as int)
        } else if addr <= 0x7FFF {
            let bank: int = if self.rom_bank == 0 { 1 } else { self.rom_bank as int };
            rom_byte(self.rom, bank * 0x4000 + (addr - 0x4000))
        } else {
            0xFF
        }
    }

    /// 0x2000-0x3FFF: 7-bit ROM bank (0 selects 1); 0x4000-0x5FFF: 5-bit RAM
    /// bank. RAM enable writes are ignored.
    pub open spec fn write_rom(self, addr: u16, value: u8) -> Self {
        if 0x2000 <= addr <= 0x3FFF {
            let bank = value % 128;
            PocketCameraView { rom_bank: if bank == 0 { 1 } else { bank as u16 }, ..self }
        } else if 0x4000 <= addr <= 0x5FFF {
            PocketCameraView { ram_bank: value % 32, ..self }
        } else {
            self
        }
    }

    /// Register, captured tile (A080-AEFF, from SRAM 0x0100) or SRAM byte;
    /// 0x00 where nothing is mapped.
    pub open spec fn read_ram(self, addr: u16) -> u8 {
        let reg = addr - 0xA000;
        if self.ram_bank >= 0x10 {
            if reg < 0x80 {
                self.camera.regs[reg]
            } else if reg - 0x80 < 0x0E00 {
                let i = 0x100 + reg - 0x80;
                if i < self.camera.ram.len() { self.camera.ram[i] } else { 0 }
            } else {
                0
            }
        } else {
            let i = self.ram_bank * 0x2000 + reg;
            if i < self.camera.ram.len() { self.camera.ram[i] } else { 0 }
        }
    }

    /// Register or SRAM write. Writing register A000 with bit 0 set starts a
    /// capture (inverted when bit 1 is set): the capture is left pending for
    /// the sensor image, the image is marked dirty and bit 0 reads back clear.
    pub open spec fn write_ram(self, addr: u16, value: u8) -> Self {
        let reg = addr - 0xA000;
        if self.ram_bank >= 0x10 {
            if reg < 0x80 {
                let cam = CameraView { regs: self.camera.regs.update(reg, value), ..self.camera };
                if reg == 0 && value & 0x01 != 0 {
                    PocketCameraView {
                        camera: CameraView {
                            regs: cam.regs.update(0, value & 0xFE),
                            pending_capture: Some(value & 0x02 != 0),
                            capture_dirty: true,
                            ..cam
                        },
                        ..self
                    }
                } else {
                    PocketCameraView { camera: cam, ..self }
                }
            } else {
                self
            }
        } else {
            let i = self.ram_bank * 0x2000 + reg;
            if i < self.camera.ram.len() {
                PocketCameraView { camera: CameraView { ram: self.camera.ram.update(i, value), ..self.camera }, ..self }
            } else {
                self
            }
        }
    }
}

impl PocketCamera {
    pub open spec fn view(&self) -> PocketCameraView {
        PocketCameraView { rom: self.rom@, camera: self.camera.view(), rom_bank: self.rom_bank, ram_bank: self.ram_bank }
    }

    pub fn new(rom: Vec<u8>) -> (r: Self)
        ensures
            r.view() == (PocketCameraView { rom: rom@, camera: r.camera.view(), rom_bank: 1, ram_bank: 0 }),
            r.camera.view() == Camera::new_view(),
            r.view().wf(),
    {
        PocketCamera { rom, camera: Camera::new(), rom_bank: 1, ram_bank: 0 }
    }

    pub fn read_rom(&self, addr: u16) -> (r: u8)
        ensures r == self.view().read_rom(addr),
    {
        if addr <= 0x3FFF {
            byte_at(&self.rom, addr as usize)
        } else if addr <= 0x7FFF {
            let bank: usize = if self.rom_bank == 0 { 1 } else { self.rom_bank as usize };
            byte_at(&self.rom, bank * 0x4000 + (addr as usize - 0x4000))
        } else {
            0xFF
        }
    }

    pub fn write_rom(&mut self, addr: u16, value: u8)
        ensures
            final(self).view() == old(self).view().write_rom(addr, value),
            final(self).rom == old(self).rom,
    {
        proof { lemma_u8_fields(value); }
        if 0x2000 <= addr && addr <= 0x3FFF {
            let bank = value & 0x7F;
            self.rom_bank = if bank == 0 { 1 } else { bank as u16 };
        } else if 0x4000 <= addr && addr <= 0x5FFF {
            self.ram_bank = value & 0x1F;
        }
    }

    pub fn read_ram(&self, addr: u16) -> (r: u8)
        requires 0xA000 <= addr <= 0xBFFF,
        ensures r == self.view().read_ram(addr),
    {
        let reg = (addr - 0xA000) as usize;
        if self.ram_bank >= 0x10 {
            if reg < 0x80 {
                return self.camera.regs[reg];
            }
            if reg - 0x80 < 0x0E00 {
                let i = 0x100 + reg - 0x80;
                return if i < self.camera.ram.len() { self.camera.ram[i] } else { 0 };
            }
            return 0;
        }
        let i = self.ram_bank as usize * 0x2000 + reg;
        if i < self.camera.ram.len() { self.camera.ram[i] } else { 0 }
    }

    pub fn write_ram(&mut self, addr: u16, value: u8)
        requires 0xA000 <= addr <= 0xBFFF,
        ensures
            final(self).view() == old(self).view().write_ram(addr, value),
            final(self).rom == old(self).rom,
    {
        proof { lemma_u8_fields(value); }
        let reg = (addr - 0xA000) as usize;
        if self.ram_bank >= 0x10 {
            if reg < 0x80 {
                self.camera.regs[reg] = value;
                if reg == 0 && value & 0x01 != 0 {
                    self.camera.pending_capture = Some(value & 0x02 != 0);
                    self.camera.capture_dirty = true;
                    self.camera.regs[0] = value & 0xFE;
                }
            }
            return;
        }
        let i = self.ram_bank as usize * 0x2000 + reg;
        if i < self.camera.ram.len() {
            self.camera.ram.set(i, value);
        }
    }

    /// The photo SRAM (the save data of this cartridge).
    pub fn ram_data(&self) -> (r: &[u8])
        ensures r@ == self.camera.ram@,
    {
        self.camera.ram.as_slice()
    }

    pub fn load_ram(&mut self, data: &[u8])
        ensures
            final(self).view() == (PocketCameraView {
                camera: CameraView { ram: ram_loaded(old(self).camera.ram@, data@), ..old(self).view().camera },
                ..old(self).view()
            }),
            final(self).rom == old(self).rom,
    {
        load_prefix(&mut self.camera.ram, data);
    }

    pub fn rom_bank_count(&self) -> (r: usize)
        ensures r == self.rom@.len() / 0x4000,
    {
        self.rom.len() / 0x4000
    }
}

} // verus!
