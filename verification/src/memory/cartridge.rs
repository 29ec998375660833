//! Cartridges: ROM, external RAM and the memory bank controller.

use vstd::prelude::*;
use crate::memory::camera::Camera;
use self::none::{NoMbc, NoMbcView};
use self::mbc1::{Mbc1, Mbc1View};
use self::mbc3::{Mbc3, Mbc3View};
use crate::memory::rtc::Rtc;
use self::mbc5::{Mbc5, Mbc5View};
use self::mbc7::{Mbc7, Mbc7View};
use self::camera::{PocketCamera, PocketCameraView};

pub mod camera;
pub mod none;
pub mod mbc1;
pub mod mbc3;
pub mod mbc5;
pub mod mbc7;

verus! {

/// Cartridge/MBC type.
#[derive(Debug, Clone, Copy, PartialEq, Eq, Structural)]
pub enum MbcType {
    /// ROM only (32 KB).
    NoMbc,
    Mbc1,
    /// MBC3, with the real-time clock.
    Mbc3,
    Mbc5,
    /// MBC7: accelerometer and EEPROM.
    Mbc7,
    /// Game Boy Camera.
    PocketCamera,
}

/// Cartridge hardware: ROM, memory bank controller and external RAM.
pub enum Cartridge {
    NoMbc(NoMbc),
    Mbc1(Mbc1),
    Mbc3(Mbc3),
    Mbc5(Mbc5),
    Mbc7(Mbc7),
    PocketCamera(PocketCamera),
}

pub enum CartridgeView {
    NoMbc(NoMbcView),
    Mbc1(Mbc1View),
    Mbc3(Mbc3View),
    Mbc5(Mbc5View),
    Mbc7(Mbc7View),
    PocketCamera(PocketCameraView),
}

impl CartridgeView {
    /// The cartridge after its clock (MBC3 only) advanced to wall-clock
    /// second `now`.
    pub open spec fn rtc_ticked(self, now: u64) -> CartridgeView {
        match self {
            CartridgeView::Mbc3(v) => CartridgeView::Mbc3(Mbc3View { rtc: v.rtc.ticked(now), ..v }),
            _ => self,
        }
    }

    /// An MBC3 clock with wall-clock second `now` recorded; other
    /// cartridges are unchanged.
    pub open spec fn rtc_clock_set(self, now: u64) -> CartridgeView {
        match self {
            CartridgeView::Mbc3(v) => CartridgeView::Mbc3(Mbc3View { rtc: Rtc { clock: now, ..v.rtc }, ..v }),
            _ => self,
        }
    }

    pub open spec fn wf(self) -> bool {
        match self {
            CartridgeView::Mbc7(m) => m.wf(),
            CartridgeView::PocketCamera(c) => c.wf(),
            _ => true,
        }
    }

    /// Read of ROM space (0x0000-0x7FFF).
    pub open spec fn read_rom(self, addr: u16) -> u8 {
        match self {
            CartridgeView::NoMbc(c) => c.read_rom(addr),
            CartridgeView::Mbc1(c) => c.read_rom(addr),
            CartridgeView::Mbc3(c) => c.read_rom(addr),
            CartridgeView::Mbc5(c) => c.read_rom(addr),
            CartridgeView::Mbc7(c) => c.read_rom(addr),
            CartridgeView::PocketCamera(c) => c.read_rom(addr),
        }
    }

    /// Write to the MBC registers (0x0000-0x7FFF).
    pub open spec fn write_rom(self, addr: u16, value: u8) -> Self {
        match self {
            CartridgeView::NoMbc(c) => CartridgeView::NoMbc(c),
            CartridgeView::Mbc1(c) => CartridgeView::Mbc1(c.write_rom(addr, value)),
            CartridgeView::Mbc3(c) => CartridgeView::Mbc3(c.write_rom(addr, value)),
            CartridgeView::Mbc5(c) => CartridgeView::Mbc5(c.write_rom(addr, value)),
            CartridgeView::Mbc7(c) => CartridgeView::Mbc7(c.write_rom(addr, value)),
            CartridgeView::PocketCamera(c) => CartridgeView::PocketCamera(c.write_rom(addr, value)),
        }
    }

    /// Read of external RAM space (0xA000-0xBFFF); 0xFF without RAM.
    pub open spec fn read_ram(self, addr: u16) -> u8 {
        match self {
            CartridgeView::NoMbc(c) => 0xFF,
            CartridgeView::Mbc1(c) => c.read_ram(addr),
            CartridgeView::Mbc3(c) => c.read_ram(addr),
            CartridgeView::Mbc5(c) => c.read_ram(addr),
            CartridgeView::Mbc7(c) => c.read_ram(addr),
            CartridgeView::PocketCamera(c) => c.read_ram(addr),
        }
    }

    /// Write to external RAM space (0xA000-0xBFFF).
    pub open spec fn write_ram(self, addr: u16, value: u8) -> Self {
        match self {
            CartridgeView::NoMbc(c) => CartridgeView::NoMbc(c),
            CartridgeView::Mbc1(c) => CartridgeView::Mbc1(c.write_ram(addr, value)),
            CartridgeView::Mbc3(c) => CartridgeView::Mbc3(c.write_ram(addr, value)),
            CartridgeView::Mbc5(c) => CartridgeView::Mbc5(c.write_ram(addr, value)),
            CartridgeView::Mbc7(c) => CartridgeView::Mbc7(c.write_ram(addr, value)),
            CartridgeView::PocketCamera(c) => CartridgeView::PocketCamera(c.write_ram(addr, value)),
        }
    }
}

/// RAM size from cartridge header byte 0x0149.
pub open spec fn ram_size_spec(byte: u8) -> usize {
    if byte == 0x00 { 0x2000 }
    else if byte == 0x01 { 0x800 }
    else if byte == 0x02 { 0x2000 }
    else if byte == 0x03 { 0x8000 }
    else if byte == 0x04 { 0x20000 }
    else if byte == 0x05 { 0x10000 }
    else { 0x20000 }
}

/// RAM size from cartridge header byte 0x0149 (8 KB when the header says
/// none, since some games report 0 yet have RAM; 128 KB when unknown).
pub fn ram_size_from_header(byte: u8) -> (r: usize)
    ensures r == ram_size_spec(byte),
{
    match byte {
        0x00 => 8 * 1024,
        0x01 => 2 * 1024,
        0x02 => 8 * 1024,
        0x03 => 32 * 1024,
        0x04 => 128 * 1024,
        0x05 => 64 * 1024,
        _ => 128 * 1024,
    }
}

/// MBC chosen for header cartridge type byte 0x0147 (MBC5 when unknown).
pub open spec fn mbc_type_of(cart_type: u8) -> MbcType {
    if cart_type == 0x00 { MbcType::NoMbc }
    else if 0x01 <= cart_type <= 0x03 { MbcType::Mbc1 }
    else if 0x0F <= cart_type <= 0x13 { MbcType::Mbc3 }
    else if 0x19 <= cart_type <= 0x1E { MbcType::Mbc5 }
    else if cart_type == 0x22 { MbcType::Mbc7 }
    else if cart_type == 0xFC { MbcType::PocketCamera }
    else { MbcType::Mbc5 }
}

/// The cartridge of a freshly inserted ROM with header type `cart_type`
/// and `ram_size` bytes of RAM: bank 1 mapped, RAM zeroed and disabled, an
/// MBC3 clock at zero from wall-clock second `now`, an MBC7 EEPROM erased
/// (all 0xFF) with the accelerometer level, a camera at power-on. Unknown
/// types behave as MBC5.
pub open spec fn fresh_cartridge(rom: Seq<u8>, cart_type: u8, ram_size: nat, now: u64) -> CartridgeView {
    let ram = Seq::new(ram_size, |i: int| 0u8);
    if cart_type == 0x00 {
        CartridgeView::NoMbc(NoMbcView { rom })
    } else if 0x01 <= cart_type <= 0x03 {
        CartridgeView::Mbc1(Mbc1View { rom, ram, rom_bank: 1, ram_bank: 0, ram_enabled: false, mode: false })
    } else if 0x0F <= cart_type <= 0x13 {
        CartridgeView::Mbc3(Mbc3View {
            rom, ram, rom_bank: 1, ram_bank: 0, ram_enabled: false,
            rtc: crate::memory::rtc::Rtc {
                s: 0, m: 0, h: 0, dl: 0, dh: 0,
                latched_s: 0, latched_m: 0, latched_h: 0, latched_dl: 0, latched_dh: 0,
                latch_ready: false, base_timestamp: now, clock: now,
            },
        })
    } else if cart_type == 0x22 {
        CartridgeView::Mbc7(Mbc7View {
            rom, rom_bank: 1, ram_gate1: false, ram_gate2: false,
            accel_x: 0x81D0, accel_y: 0x81D0, accel_x_latched: 0x81D0, accel_y_latched: 0x81D0,
            latch_step: self::mbc7::LatchStep::Idle,
            eeprom: self::mbc7::EepromView {
                data: Seq::new(256, |i: int| 0xFFu8), write_enabled: false, cs: false, clk: false,
                di: false, do_bit: true, state: self::mbc7::EepromState::Idle, in_bits: 0, in_count: 0,
            },
        })
    } else if cart_type == 0xFC {
        CartridgeView::PocketCamera(PocketCameraView { rom, camera: Camera::new_view(), rom_bank: 1, ram_bank: 0 })
    } else {
        CartridgeView::Mbc5(Mbc5View { rom, ram, rom_bank: 1, ram_bank: 0, ram_enabled: false })
    }
}

/// Create the cartridge for a ROM with header type `cart_type` and RAM size
/// `ram_size` (see [`fresh_cartridge`]).
pub fn make_cartridge(rom: Vec<u8>, cart_type: u8, ram_size: usize, now: u64) -> (r: Cartridge)
    ensures
        r.mbc_type_spec() == mbc_type_of(cart_type),
        r.rom_spec() == rom@,
        r.view().wf(),
        r.view() == fresh_cartridge(rom@, cart_type, ram_size as nat, now),
{
    if cart_type == 0x00 {
        Cartridge::NoMbc(NoMbc::new(rom))
    } else if 0x01 <= cart_type && cart_type <= 0x03 {
        Cartridge::Mbc1(Mbc1::new(rom, ram_size))
    } else if 0x0F <= cart_type && cart_type <= 0x13 {
        Cartridge::Mbc3(Mbc3::new(rom, ram_size, now))
    } else if 0x19 <= cart_type && cart_type <= 0x1E {
        Cartridge::Mbc5(Mbc5::new(rom, ram_size))
    } else if cart_type == 0x22 {
        Cartridge::Mbc7(Mbc7::new(rom))
    } else if cart_type == 0xFC {
        Cartridge::PocketCamera(PocketCamera::new(rom))
    } else {
        Cartridge::Mbc5(Mbc5::new(rom, ram_size))
    }
}

impl Cartridge {
    pub open spec fn view(&self) -> CartridgeView {
        match self {
            Cartridge::NoMbc(c) => CartridgeView::NoMbc(c.view()),
            Cartridge::Mbc1(c) => CartridgeView::Mbc1(c.view()),
            Cartridge::Mbc3(c) => CartridgeView::Mbc3(c.view()),
            Cartridge::Mbc5(c) => CartridgeView::Mbc5(c.view()),
            Cartridge::Mbc7(c) => CartridgeView::Mbc7(c.view()),
            Cartridge::PocketCamera(c) => CartridgeView::PocketCamera(c.view()),
        }
    }

    pub open spec fn rom_spec(&self) -> Seq<u8> {
        match self {
            Cartridge::NoMbc(c) => c.rom@,
            Cartridge::Mbc1(c) => c.rom@,
            Cartridge::Mbc3(c) => c.rom@,
            Cartridge::Mbc5(c) => c.rom@,
            Cartridge::Mbc7(c) => c.rom@,
            Cartridge::PocketCamera(c) => c.rom@,
        }
    }

    pub open spec fn mbc_type_spec(&self) -> MbcType {
        match self {
            Cartridge::NoMbc(_) => MbcType::NoMbc,
            Cartridge::Mbc1(_) => MbcType::Mbc1,
            Cartridge::Mbc3(_) => MbcType::Mbc3,
            Cartridge::Mbc5(_) => MbcType::Mbc5,
            Cartridge::Mbc7(_) => MbcType::Mbc7,
            Cartridge::PocketCamera(_) => MbcType::PocketCamera,
        }
    }

    /// The bytes of save RAM (empty without RAM; the EEPROM for MBC7).
    pub open spec fn ram_spec(&self) -> Seq<u8> {
        match self {
            Cartridge::NoMbc(_) => Seq::empty(),
            Cartridge::Mbc1(c) => c.ram@,
            Cartridge::Mbc3(c) => c.ram@,
            Cartridge::Mbc5(c) => c.ram@,
            Cartridge::Mbc7(c) => c.eeprom.data@,
            Cartridge::PocketCamera(c) => c.camera.ram@,
        }
    }

    /// Whether the clock of an MBC3 can advance to wall-clock second `now`
    /// without its seconds counter overflowing.
    pub open spec fn rtc_can_tick(&self, now: u64) -> bool {
        match self {
            Cartridge::Mbc3(c) => c.rtc.total_seconds() + c.rtc.elapsed(now) <= u64::MAX,
            _ => true,
        }
    }

    /// Any clock reading plus the time elapsed up to `now` fits in 64 bits
    /// while `now` stays 2^26 seconds below the limit.
    pub proof fn lemma_rtc_can_tick(&self, now: u64)
        requires now <= u64::MAX - 0x4000000,
        ensures self.rtc_can_tick(now),
    {
        match self {
            Cartridge::Mbc3(c) => {
                assert(c.rtc.day() <= 511);
                assert(c.rtc.total_seconds() < 0x4000000);
            },
            _ => {},
        }
    }

    pub fn read_rom(&self, addr: u16) -> (r: u8)
        ensures r == self.view().read_rom(addr),
    {
        match self {
            Cartridge::NoMbc(c) => c.read_rom(addr),
            Cartridge::Mbc1(c) => c.read_rom(addr),
            Cartridge::Mbc3(c) => c.read_rom(addr),
            Cartridge::Mbc5(c) => c.read_rom(addr),
            Cartridge::Mbc7(c) => c.read_rom(addr),
            Cartridge::PocketCamera(c) => c.read_rom(addr),
        }
    }

    pub fn write_rom(&mut self, addr: u16, value: u8)
        requires old(self).view().wf(),
        ensures
            final(self).view() == old(self).view().write_rom(addr, value),
            final(self).view().wf(),
            final(self).rom_spec() == old(self).rom_spec(),
            final(self).mbc_type_spec() == old(self).mbc_type_spec(),
    {
        match self {
            Cartridge::NoMbc(c) => {},
            Cartridge::Mbc1(c) => c.write_rom(addr, value),
            Cartridge::Mbc3(c) => c.write_rom(addr, value),
            Cartridge::Mbc5(c) => c.write_rom(addr, value),
            Cartridge::Mbc7(c) => c.write_rom(addr, value),
            Cartridge::PocketCamera(c) => c.write_rom(addr, value),
        }
    }

    pub fn read_ram(&self, addr: u16) -> (r: u8)
        requires 0xA000 <= addr <= 0xBFFF,
        ensures r == self.view().read_ram(addr),
    {
        match self {
            Cartridge::NoMbc(c) => 0xFF,
            Cartridge::Mbc1(c) => c.read_ram(addr),
            Cartridge::Mbc3(c) => c.read_ram(addr),
            Cartridge::Mbc5(c) => c.read_ram(addr),
            Cartridge::Mbc7(c) => c.read_ram(addr),
            Cartridge::PocketCamera(c) => c.read_ram(addr),
        }
    }

    pub fn write_ram(&mut self, addr: u16, value: u8)
        requires
            old(self).view().wf(),
            0xA000 <= addr <= 0xBFFF,
        ensures
            final(self).view() == old(self).view().write_ram(addr, value),
            final(self).view().wf(),
            final(self).rom_spec() == old(self).rom_spec(),
            final(self).mbc_type_spec() == old(self).mbc_type_spec(),
    {
        match self {
            Cartridge::NoMbc(c) => {},
            Cartridge::Mbc1(c) => c.write_ram(addr, value),
            Cartridge::Mbc3(c) => c.write_ram(addr, value),
            Cartridge::Mbc5(c) => c.write_ram(addr, value),
            Cartridge::Mbc7(c) => c.write_ram(addr, value),
            Cartridge::PocketCamera(c) => c.write_ram(addr, value),
        }
    }

    /// The ROM image.
    pub fn rom_data(&self) -> (r: &[u8])
        ensures r@ == self.rom_spec(),
    {
        match self {
            Cartridge::NoMbc(c) => c.rom.as_slice(),
            Cartridge::Mbc1(c) => c.rom.as_slice(),
            Cartridge::Mbc3(c) => c.rom.as_slice(),
            Cartridge::Mbc5(c) => c.rom.as_slice(),
            Cartridge::Mbc7(c) => c.rom.as_slice(),
            Cartridge::PocketCamera(c) => c.rom.as_slice(),
        }
    }

    /// The save RAM (for export).
    pub fn ram_data(&self) -> (r: &[u8])
        ensures r@ == self.ram_spec(),
    {
        match self {
            Cartridge::NoMbc(_) => &[],
            Cartridge::Mbc1(c) => c.ram.as_slice(),
            Cartridge::Mbc3(c) => c.ram.as_slice(),
            Cartridge::Mbc5(c) => c.ram.as_slice(),
            Cartridge::Mbc7(c) => c.ram_data(),
            Cartridge::PocketCamera(c) => c.ram_data(),
        }
    }

    /// Copy save data over the start of the save RAM (truncated to its size).
    pub fn load_ram(&mut self, data: &[u8])
        requires old(self).view().wf(),
        ensures
            final(self).ram_spec() == (match old(self) {
                Cartridge::NoMbc(_) => Seq::empty(),
                Cartridge::Mbc7(_) => Seq::new(256, |i: int| if i < data@.len() { data@[i] } else { old(self).ram_spec()[i] }),
                _ => ram_loaded(old(self).ram_spec(), data@),
            }),
            final(self).view().wf(),
            final(self).rom_spec() == old(self).rom_spec(),
            final(self).mbc_type_spec() == old(self).mbc_type_spec(),
    {
        match self {
            Cartridge::NoMbc(_) => {},
            Cartridge::Mbc1(c) => c.load_ram(data),
            Cartridge::Mbc3(c) => c.load_ram(data),
            Cartridge::Mbc5(c) => c.load_ram(data),
            Cartridge::Mbc7(c) => c.load_ram(data),
            Cartridge::PocketCamera(c) => c.load_ram(data),
        }
    }

    pub fn mbc_type(&self) -> (r: MbcType)
        ensures r == self.mbc_type_spec(),
    {
        match self {
            Cartridge::NoMbc(_) => MbcType::NoMbc,
            Cartridge::Mbc1(_) => MbcType::Mbc1,
            Cartridge::Mbc3(_) => MbcType::Mbc3,
            Cartridge::Mbc5(_) => MbcType::Mbc5,
            Cartridge::Mbc7(_) => MbcType::Mbc7,
            Cartridge::PocketCamera(_) => MbcType::PocketCamera,
        }
    }

    /// Number of 16 KB ROM banks.
    pub fn rom_bank_count(&self) -> (r: usize)
        ensures r == self.rom_spec().len() / 0x4000,
    {
        match self {
            Cartridge::NoMbc(c) => c.rom_bank_count(),
            Cartridge::Mbc1(c) => c.rom_bank_count(),
            Cartridge::Mbc3(c) => c.rom_bank_count(),
            Cartridge::Mbc5(c) => c.rom_bank_count(),
            Cartridge::Mbc7(c) => c.rom_bank_count(),
            Cartridge::PocketCamera(c) => c.rom_bank_count(),
        }
    }

    /// Selected ROM bank (1 without an MBC).
    pub fn current_rom_bank(&self) -> (r: u16)
        ensures
            r == match self {
                Cartridge::NoMbc(_) => 1u16,
                Cartridge::Mbc1(c) => c.rom_bank,
                Cartridge::Mbc3(c) => c.rom_bank,
                Cartridge::Mbc5(c) => c.rom_bank,
                Cartridge::Mbc7(c) => c.rom_bank,
                Cartridge::PocketCamera(c) => c.rom_bank,
            },
    {
        match self {
            Cartridge::NoMbc(_) => 1,
            Cartridge::Mbc1(c) => c.rom_bank,
            Cartridge::Mbc3(c) => c.rom_bank,
            Cartridge::Mbc5(c) => c.rom_bank,
            Cartridge::Mbc7(c) => c.rom_bank,
            Cartridge::PocketCamera(c) => c.rom_bank,
        }
    }

    /// Selected RAM bank (0 where there is none to select).
    pub fn current_ram_bank(&self) -> (r: u8)
        ensures
            r == match self {
                Cartridge::Mbc1(c) => c.ram_bank,
                Cartridge::Mbc3(c) => c.ram_bank,
                Cartridge::Mbc5(c) => c.ram_bank,
                Cartridge::PocketCamera(c) => c.ram_bank,
                _ => 0u8,
            },
    {
        match self {
            Cartridge::Mbc1(c) => c.ram_bank,
            Cartridge::Mbc3(c) => c.ram_bank,
            Cartridge::Mbc5(c) => c.ram_bank,
            Cartridge::PocketCamera(c) => c.ram_bank,
            _ => 0,
        }
    }

    /// Whether external RAM is enabled (both gates open for MBC7; false
    /// without an enable register).
    pub fn is_ram_enabled(&self) -> (r: bool)
        ensures
            r == match self {
                Cartridge::Mbc1(c) => c.ram_enabled,
                Cartridge::Mbc3(c) => c.ram_enabled,
                Cartridge::Mbc5(c) => c.ram_enabled,
                Cartridge::Mbc7(c) => c.ram_gate1 && c.ram_gate2,
                _ => false,
            },
    {
        match self {
            Cartridge::Mbc1(c) => c.ram_enabled,
            Cartridge::Mbc3(c) => c.ram_enabled,
            Cartridge::Mbc5(c) => c.ram_enabled,
            Cartridge::Mbc7(c) => c.ram_open(),
            _ => false,
        }
    }

    /// Record wall-clock second `now` in an MBC3 clock; nothing for other
    /// cartridges.
    pub fn set_rtc_clock(&mut self, now: u64)
        requires old(self).view().wf(),
        ensures
            final(self).view() == old(self).view().rtc_clock_set(now),
            final(self).view().wf(),
            final(self).rom_spec() == old(self).rom_spec(),
            final(self).ram_spec() == old(self).ram_spec(),
            final(self).mbc_type_spec() == old(self).mbc_type_spec(),
            forall|t: u64| old(self).rtc_can_tick(t) ==> #[trigger] final(self).rtc_can_tick(t),
    {
        match self {
            Cartridge::Mbc3(c) => c.set_rtc_clock(now),
            _ => {},
        }
    }

    /// Advance an MBC3 clock to wall-clock second `now`; nothing for other
    /// cartridges.
    pub fn tick_rtc(&mut self, now: u64)
        requires
            old(self).rtc_can_tick(now),
            old(self).view().wf(),
        ensures
            final(self).view().wf(),
            final(self).rom_spec() == old(self).rom_spec(),
            final(self).ram_spec() == old(self).ram_spec(),
            final(self).mbc_type_spec() == old(self).mbc_type_spec(),
            match (*old(self), *final(self)) {
                (Cartridge::Mbc3(o), Cartridge::Mbc3(f)) =>
                    f.view() == (Mbc3View { rtc: f.rtc, ..o.view() }) && f.rtc == o.rtc.ticked(now),
                (o, f) => f.view() == o.view(),
            },
    {
        match self {
            Cartridge::Mbc3(c) => c.tick_rtc(now),
            _ => {},
        }
    }

    /// The camera of a Pocket Camera cartridge.
    pub fn as_camera(&self) -> (r: Option<&Camera>)
        ensures
            match self {
                Cartridge::PocketCamera(c) => r == Some(&c.camera),
                _ => r is None,
            },
    {
        match self {
            Cartridge::PocketCamera(c) => Some(&c.camera),
            _ => None,
        }
    }
}

/// ROM byte `i`, or 0xFF outside the image.
pub open spec fn rom_byte(rom: Seq<u8>, i: int) -> u8 {
    if 0 <= i < rom.len() { rom[i] } else { 0xFF }
}

/// Read of 0x0000-0x7FFF with a fixed bank 0 and switchable bank `bank`.
pub open spec fn banked_rom_read(rom: Seq<u8>, bank: int, addr: u16) -> u8 {
    if addr <= 0x3FFF {
        rom_byte(rom, addr as int)
    } else if addr <= 0x7FFF {
        rom_byte(rom, bank * 0x4000 + (addr - 0x4000))
    } else {
        0xFF
    }
}

/// Offset of `addr` (0xA000-0xBFFF) in 8 KB RAM bank `bank`.
pub open spec fn ram_offset(bank: u8, addr: u16) -> int {
    bank * 0x2000 + (addr - 0xA000)
}

/// External RAM read: 0xFF past the end of RAM.
pub open spec fn ram_read(ram: Seq<u8>, bank: u8, addr: u16) -> u8 {
    rom_byte(ram, ram_offset(bank, addr))
}

/// External RAM write: ignored past the end of RAM.
pub open spec fn ram_store(ram: Seq<u8>, bank: u8, addr: u16, value: u8) -> Seq<u8> {
    let off = ram_offset(bank, addr);
    if 0 <= off < ram.len() { ram.update(off, value) } else { ram }
}

/// RAM with save data copied over its start (truncated to the RAM size).
pub open spec fn ram_loaded(ram: Seq<u8>, data: Seq<u8>) -> Seq<u8> {
    Seq::new(ram.len(), |i: int| if i < data.len() { data[i] } else { ram[i] })
}

/// `v[i]`, or 0xFF when `i` is out of range.
pub fn byte_at(v: &Vec<u8>, i: usize) -> (r: u8)
    ensures r == rom_byte(v@, i as int),
{
    if i < v.len() { v[i] } else { 0xFF }
}

/// Copy `data` over the start of `dst`, truncated to `dst`'s length.
pub fn load_prefix(dst: &mut Vec<u8>, data: &[u8])
    ensures final(dst)@ == ram_loaded(old(dst)@, data@),
{
    let len = if data.len() < dst.len() { data.len() } else { dst.len() };
    let mut i: usize = 0;
    while i < len
        invariant
            len <= data@.len(),
            len <= old(dst)@.len(),
            i <= len,
            dst@.len() == old(dst)@.len(),
            forall|j: int| 0 <= j < i ==> dst@[j] == data@[j],
            forall|j: int| i <= j < dst@.len() ==> dst@[j] == old(dst)@[j],
        decreases len - i,
    {
        dst.set(i, data[i]);
        i = i + 1;
    }
    assert(dst@ =~= ram_loaded(old(dst)@, data@));
}

} // verus!
