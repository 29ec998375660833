//! Game Boy memory subsystem: the 64 KB address space.
//!
//! The cartridge (ROM, RAM and MBC) handles 0x0000-0x7FFF and 0xA000-0xBFFF.
//! GBC registers (HDMA, VBK, SVBK, palette RAM, KEY1) only act in GBC mode,
//! so a DMG ROM cannot trigger GBC behaviour.

use vstd::prelude::*;
use crate::bits::lemma_u8_fields;
use crate::memory::cgb::{Cgb, CgbView};
use crate::memory::camera::{Camera, CameraView};
use crate::memory::cartridge::{Cartridge, CartridgeView, MbcType, make_cartridge, ram_size_from_header,
    ram_size_spec, mbc_type_of, fresh_cartridge};
use crate::memory::cartridge::none::NoMbc;

pub mod camera;
pub mod cgb;
pub mod rtc;
pub mod cartridge;

verus! {

/// I/O register offsets (from 0xFF00).
pub const IO_JOYP: u8 = 0x00;
pub const IO_DIV: u8 = 0x04;
pub const IO_TIMA: u8 = 0x05;
pub const IO_TMA: u8 = 0x06;
pub const IO_TAC: u8 = 0x07;
pub const IO_IF: u8 = 0x0F;
pub const IO_LCDC: u8 = 0x40;
pub const IO_STAT: u8 = 0x41;
pub const IO_SCY: u8 = 0x42;
pub const IO_SCX: u8 = 0x43;
pub const IO_LY: u8 = 0x44;
pub const IO_LYC: u8 = 0x45;
pub const IO_BGP: u8 = 0x47;
pub const IO_OBP0: u8 = 0x48;
pub const IO_OBP1: u8 = 0x49;
pub const IO_WY: u8 = 0x4A;
pub const IO_WX: u8 = 0x4B;
pub const IO_KEY1: u8 = 0x4D;
pub const IO_VBK: u8 = 0x4F;
pub const IO_HDMA5: u8 = 0x55;
pub const IO_SVBK: u8 = 0x70;

/// Memory controller state for debugging.
pub struct MemoryDebugState {
    pub rom_bank: u16,
    pub ram_bank: u8,
    pub ram_enabled: bool,
    pub mbc_type: MbcType,
}

/// I/O register state for debugging.
pub struct IoState {
    pub lcdc: u8,
    pub stat: u8,
    pub ly: u8,
    pub ie: u8,
    pub if_reg: u8,
    pub scy: u8,
    pub scx: u8,
    pub bgp: u8,
}

pub struct Memory {
    /// ROM, RAM and banking state of the cartridge.
    pub cartridge: Cartridge,
    /// 0x8000-0x9FFF, two 8 KB banks (bank 1 holds GBC tile attributes).
    pub vram: Vec<u8>,
    /// Eight 4 KB banks: bank 0 at 0xC000, banks 1-7 switchable at 0xD000.
    pub wram: Vec<u8>,
    /// 0xFE00-0xFE9F.
    pub oam: [u8; 0xA0],
    /// 0xFF00-0xFF7F.
    pub io: [u8; 0x80],
    /// 0xFF80-0xFFFE.
    pub hram: [u8; 0x7F],
    /// 0xFFFF: interrupt enable.
    pub ie: u8,
    /// GBC palette RAM, banking control, double speed, HDMA.
    pub cgb: Cgb,
    /// Bytes sent over the serial port (test ROMs print there).
    pub serial_output: Vec<u8>,
}

/// The memory as values.
pub struct MemView {
    pub cart: CartridgeView,
    pub vram: Seq<u8>,
    pub wram: Seq<u8>,
    pub oam: Seq<u8>,
    pub io: Seq<u8>,
    pub hram: Seq<u8>,
    pub ie: u8,
    pub cgb: CgbView,
    pub serial: Seq<u8>,
}

/// The I/O registers after power-on (and ROM load).
pub open spec fn io_defaults() -> Seq<u8> {
    Seq::new(0x80, |i: int|
        if i == 0x00 { 0xCFu8 }
        else if i == 0x02 { 0x7E }
        else if i == 0x04 { 0xAB }
        else if i == 0x07 { 0xF8 }
        else if i == 0x0F { 0xE1 }
        else if i == 0x40 { 0x91 }
        else if i == 0x41 { 0x85 }
        else if i == 0x47 { 0xFC }
        else if i == 0x48 { 0xFF }
        else if i == 0x49 { 0xFF }
        else { 0 })
}

/// `n` zero bytes.
pub open spec fn zeros(n: nat) -> Seq<u8> {
    Seq::new(n, |i: int| 0u8)
}

impl MemView {
    pub open spec fn wf(self) -> bool {
        &&& self.vram.len() == 0x4000
        &&& self.wram.len() == 0x8000
        &&& self.oam.len() == 0xA0
        &&& self.io.len() == 0x80
        &&& self.hram.len() == 0x7F
        &&& self.cgb.wf()
        &&& self.cart.wf()
    }

    /// VRAM bank used by the CPU (always 0 on DMG).
    pub open spec fn cpu_vram_bank(self) -> int {
        if self.cgb.mode { self.cgb.vram_bank as int } else { 0 }
    }

    /// Switchable WRAM bank (always 1 on DMG).
    pub open spec fn cpu_wram_bank(self) -> int {
        if self.cgb.mode { self.cgb.wram_bank as int } else { 1 }
    }

    /// Index in `wram` of a work RAM or echo RAM address (0xC000-0xFDFF).
    pub open spec fn wram_index(self, addr: u16) -> int {
        let off = (addr - 0xC000) % 0x2000;
        if off < 0x1000 { off } else { self.cpu_wram_bank() * 0x1000 + off - 0x1000 }
    }

    /// Index in `vram` of a VRAM address.
    pub open spec fn vram_index(self, addr: u16) -> int {
        self.cpu_vram_bank() * 0x2000 + (addr - 0x8000)
    }

    /// Read of I/O register 0xFF00 + `off` as the memory holds it. The GBC
    /// registers read 0xFF on DMG; RP always reads 0xFF.
    pub open spec fn read_io(self, off: int) -> u8 {
        let c = self.cgb;
        if off == 0x4D {
            if c.mode { (if c.double_speed { 0x80u8 } else { 0 }) | 0x7E | (if c.speed_armed { 1u8 } else { 0 }) } else { 0xFF }
        } else if off == 0x4F {
            if c.mode { (c.vram_bank as u8) | 0xFE } else { 0xFF }
        } else if off == 0x68 {
            if c.mode { c.bcps | 0x40 } else { 0xFF }
        } else if off == 0x69 {
            if c.mode { c.bg_palette_ram[(c.bcps % 64) as int] } else { 0xFF }
        } else if off == 0x6A {
            if c.mode { c.ocps | 0x40 } else { 0xFF }
        } else if off == 0x6B {
            if c.mode { c.obj_palette_ram[(c.ocps % 64) as int] } else { 0xFF }
        } else if off == 0x56 {
            0xFF
        } else if off == 0x70 {
            if c.mode { (c.wram_bank as u8) | 0xF8 } else { 0xFF }
        } else {
            self.io[off]
        }
    }

    /// Read of `addr`.
    pub open spec fn read(self, addr: u16) -> u8 {
        if addr <= 0x7FFF {
            self.cart.read_rom(addr)
        } else if addr <= 0x9FFF {
            self.vram[self.vram_index(addr)]
        } else if addr <= 0xBFFF {
            self.cart.read_ram(addr)
        } else if addr <= 0xFDFF {
            self.wram[self.wram_index(addr)]
        } else if addr <= 0xFE9F {
            self.oam[addr - 0xFE00]
        } else if addr <= 0xFEFF {
            0xFF
        } else if addr <= 0xFF7F {
            self.read_io(addr - 0xFF00)
        } else if addr <= 0xFFFE {
            self.hram[addr - 0xFF80]
        } else {
            self.ie
        }
    }

    /// OAM DMA from page `page`: OAM takes the 160 bytes at `page * 0x100`.
    pub open spec fn dma(self, page: u8) -> Self {
        MemView { oam: Seq::new(0xA0, |i: int| self.read((page as int * 0x100 + i) as u16)), ..self }
    }

    /// `n` bytes of GBC DMA from `src` to VRAM offset `dst` (of the selected
    /// bank), one byte after another; addresses wrap within their ranges.
    pub open spec fn hdma_copy(self, src: u16, dst: u16, n: int) -> Self
        decreases n,
    {
        if n <= 0 {
            self
        } else {
            let prev = self.hdma_copy(src, dst, n - 1);
            let i = n - 1;
            let b = prev.read(((src + i) % 0x10000) as u16);
            MemView {
                vram: prev.vram.update(prev.cgb.vram_bank as int * 0x2000 + (dst + i) % 0x2000, b),
                ..prev
            }
        }
    }

    /// HDMA5 write in GBC mode: latch source and destination from HDMA1-4;
    /// bit 7 clear copies `(value & 0x7F) + 1` blocks of 16 bytes at once,
    /// bit 7 set starts an H-blank transfer of that many blocks.
    pub open spec fn hdma_start(self, value: u8) -> Self {
        let src = ((self.io[0x51] as int * 256 + self.io[0x52] as int) / 16 * 16) as u16;
        let dst = (0x8000 + (self.io[0x53] as int * 256 + self.io[0x54] as int) % 0x2000 / 16 * 16) as u16;
        let s = MemView { cgb: CgbView { hdma_source: src, hdma_dest: dst, ..self.cgb }, ..self };
        if value < 0x80 {
            let c = s.hdma_copy(src, dst % 0x2000, (value as int + 1) * 16);
            MemView { cgb: CgbView { hdma_active: false, ..c.cgb }, io: c.io.update(0x55, 0xFF), ..c }
        } else {
            MemView {
                cgb: CgbView { hdma_len: value % 128, hdma_active: true, hdma_hblank: true, ..s.cgb },
                io: s.io.update(0x55, value % 128),
                ..s
            }
        }
    }

    /// Write of I/O register 0xFF00 + `off`.
    ///
    /// SC with bit 7 set sends SB to the serial output and clears bit 7; DIV
    /// resets to 0; LY is read-only; 0x46 starts OAM DMA; the GBC registers
    /// act only in GBC mode; palette data writes advance the index when its
    /// bit 7 is set; SVBK bank 0 selects bank 1.
    pub open spec fn write_io(self, off: int, value: u8) -> Self {
        let c = self.cgb;
        if off == 0x02 {
            if value & 0x80 != 0 {
                MemView { io: self.io.update(2, value & 0x7F), serial: self.serial.push(self.io[1]), ..self }
            } else {
                MemView { io: self.io.update(2, value), ..self }
            }
        } else if off == 0x04 {
            MemView { io: self.io.update(4, 0), ..self }
        } else if off == 0x44 || off == 0x56 {
            self
        } else if off == 0x46 {
            self.dma(value)
        } else if off == 0x4D || off == 0x4F || (0x51 <= off <= 0x55) || (0x68 <= off <= 0x6B) || off == 0x70 {
            if !c.mode {
                self
            } else if off == 0x4D {
                MemView { cgb: CgbView { speed_armed: value & 1 != 0, ..c }, ..self }
            } else if off == 0x4F {
                MemView { cgb: CgbView { vram_bank: (value % 2) as usize, ..c }, ..self }
            } else if off == 0x55 {
                self.hdma_start(value)
            } else if 0x51 <= off <= 0x54 {
                MemView { io: self.io.update(off, value), ..self }
            } else if off == 0x68 {
                MemView { cgb: CgbView { bcps: value, ..c }, ..self }
            } else if off == 0x69 {
                let pal = c.bg_palette_ram.update((c.bcps % 64) as int, value);
                let idx = if c.bcps >= 0x80 { (0x80 + (c.bcps % 64 + 1) % 64) as u8 } else { c.bcps };
                MemView { cgb: CgbView { bg_palette_ram: pal, bcps: idx, ..c }, ..self }
            } else if off == 0x6A {
                MemView { cgb: CgbView { ocps: value, ..c }, ..self }
            } else if off == 0x6B {
                let pal = c.obj_palette_ram.update((c.ocps % 64) as int, value);
                let idx = if c.ocps >= 0x80 { (0x80 + (c.ocps % 64 + 1) % 64) as u8 } else { c.ocps };
                MemView { cgb: CgbView { obj_palette_ram: pal, ocps: idx, ..c }, ..self }
            } else {
                MemView { cgb: CgbView { wram_bank: if value % 8 == 0 { 1 } else { (value % 8) as usize }, ..c }, ..self }
            }
        } else {
            MemView { io: self.io.update(off, value), ..self }
        }
    }

    /// Write of `value` to `addr`.
    pub open spec fn write(self, addr: u16, value: u8) -> Self {
        if addr <= 0x7FFF {
            MemView { cart: self.cart.write_rom(addr, value), ..self }
        } else if addr <= 0x9FFF {
            MemView { vram: self.vram.update(self.vram_index(addr), value), ..self }
        } else if addr <= 0xBFFF {
            MemView { cart: self.cart.write_ram(addr, value), ..self }
        } else if addr <= 0xFDFF {
            MemView { wram: self.wram.update(self.wram_index(addr), value), ..self }
        } else if addr <= 0xFE9F {
            MemView { oam: self.oam.update(addr - 0xFE00, value), ..self }
        } else if addr <= 0xFEFF {
            self
        } else if addr <= 0xFF7F {
            self.write_io(addr - 0xFF00, value)
        } else if addr <= 0xFFFE {
            MemView { hram: self.hram.update(addr - 0xFF80, value), ..self }
        } else {
            MemView { ie: value, ..self }
        }
    }
}

/// Whether `addr` is plain read/write memory: VRAM, work RAM and its echo,
/// OAM, high RAM or the IE register.
pub open spec fn is_ram_address(addr: u16) -> bool {
    (0x8000 <= addr <= 0x9FFF) || (0xC000 <= addr <= 0xFDFF) || (0xFE00 <= addr <= 0xFE9F) || (0xFF80 <= addr)
}

/// Writes to work RAM or high RAM keep the memory well formed.
pub proof fn lemma_ram_write_wf(m: MemView, addr: u16, value: u8)
    requires m.wf(), (0xC000 <= addr <= 0xDFFF) || (0xFF80 <= addr <= 0xFFFE),
    ensures m.write(addr, value).wf(),
{
}

/// A byte written to RAM reads back.
pub proof fn law_read_after_write(m: MemView, addr: u16, value: u8)
    requires m.wf(), is_ram_address(addr),
    ensures m.write(addr, value).read(addr) == value,
{
}

/// Echo RAM (0xE000-0xFDFF) mirrors work RAM (0xC000-0xDDFF) both ways.
pub proof fn law_echo_ram(m: MemView, off: u16, value: u8)
    requires m.wf(), off < 0x1E00,
    ensures
        m.write((0xC000 + off) as u16, value).read((0xE000 + off) as u16) == value,
        m.write((0xE000 + off) as u16, value).read((0xC000 + off) as u16) == value,
{
}

/// A write to work RAM or high RAM leaves every other work RAM and high RAM
/// address as it was.
pub proof fn law_write_keeps_other_ram(m: MemView, a: u16, b: u16, value: u8)
    requires
        m.wf(),
        (0xC000 <= a <= 0xDFFF) || (0xFF80 <= a <= 0xFFFE),
        (0xC000 <= b <= 0xDFFF) || (0xFF80 <= b <= 0xFFFE),
        a != b,
    ensures m.write(a, value).read(b) == m.read(b),
{
    let w = m.write(a, value);
    if 0xC000 <= a <= 0xDFFF {
        assert(w == MemView { wram: m.wram.update(m.wram_index(a), value), ..m });
        if 0xC000 <= b <= 0xDFFF {
            assert(m.wram_index(a) != m.wram_index(b));
            assert(w.read(b) == w.wram[w.wram_index(b)]);
        } else {
            assert(w.read(b) == w.hram[b - 0xFF80]);
        }
    } else {
        assert(w == MemView { hram: m.hram.update(a - 0xFF80, value), ..m });
        if 0xC000 <= b <= 0xDFFF {
            assert(w.read(b) == w.wram[w.wram_index(b)]);
        } else {
            assert(w.read(b) == w.hram[b - 0xFF80]);
        }
    }
}

/// On DMG the GBC registers read 0xFF and writes to them change nothing.
pub proof fn law_dmg_ignores_cgb_registers(m: MemView, off: u8, value: u8)
    requires
        m.wf(),
        !m.cgb.mode,
        off == 0x4D || off == 0x4F || (0x51 <= off <= 0x55) || (0x68 <= off <= 0x6B) || off == 0x70,
    ensures
        m.write((0xFF00 + off) as u16, value) == m,
        off != 0x51 && off != 0x52 && off != 0x53 && off != 0x54 && off != 0x55 ==> m.read((0xFF00 + off) as u16) == 0xFF,
{
}

/// Writing DIV clears it; LY ignores writes.
pub proof fn law_div_and_ly(m: MemView, value: u8)
    requires m.wf(),
    ensures
        m.write(0xFF04, value).read(0xFF04) == 0,
        m.write(0xFF44, value) == m,
{
}

/// OAM DMA copies the 160 bytes of the source page into OAM.
pub proof fn law_dma_copies_page(m: MemView, page: u8, i: int)
    requires m.wf(), 0 <= i < 0xA0,
    ensures m.write(0xFF46, page).oam[i] == m.read((page as int * 0x100 + i) as u16),
{
}

/// The memory after power-on with cartridge `cart` and GBC mode `cgb_mode`.
pub open spec fn power_on(cart: CartridgeView, cgb_mode: bool) -> MemView {
    MemView {
        cart,
        vram: zeros(0x4000),
        wram: zeros(0x8000),
        oam: zeros(0xA0),
        io: io_defaults(),
        hram: zeros(0x7F),
        ie: 0,
        cgb: CgbView {
            mode: cgb_mode,
            bg_palette_ram: zeros(64),
            obj_palette_ram: zeros(64),
            bcps: 0,
            ocps: 0,
            vram_bank: 0,
            wram_bank: 1,
            double_speed: false,
            speed_armed: false,
            hdma_source: 0,
            hdma_dest: 0,
            hdma_len: 0,
            hdma_active: false,
            hdma_hblank: false,
        },
        serial: Seq::empty(),
    }
}

impl MemView {
    /// One H-blank HDMA step: 16 bytes are copied, source and destination
    /// advance by 16 and the block count goes down; after the last block
    /// the transfer ends and HDMA5 reads 0xFF.
    pub open spec fn hblank_step(self) -> Self {
        let c = self.cgb;
        if !c.hdma_active || !c.hdma_hblank {
            self
        } else {
            let m = self.hdma_copy(c.hdma_source, (c.hdma_dest % 0x2000) as u16, 16);
            let c2 = CgbView {
                hdma_source: ((c.hdma_source + 16) % 0x10000) as u16,
                hdma_dest: ((c.hdma_dest + 16) % 0x10000) as u16,
                ..m.cgb
            };
            if c.hdma_len == 0 {
                MemView { cgb: CgbView { hdma_active: false, ..c2 }, io: m.io.update(0x55, 0xFF), ..m }
            } else {
                MemView { cgb: CgbView { hdma_len: (c.hdma_len - 1) as u8, ..c2 }, io: m.io.update(0x55, (c.hdma_len - 1) as u8), ..m }
            }
        }
    }

    /// The camera of a Pocket Camera cartridge.
    pub open spec fn camera(self) -> Option<CameraView> {
        match self.cart {
            CartridgeView::PocketCamera(c) => Some(c.camera),
            _ => None,
        }
    }

    /// The memory with the camera replaced by `cam` (Pocket Camera only).
    pub open spec fn with_camera(self, cam: CameraView) -> Self {
        match self.cart {
            CartridgeView::PocketCamera(c) =>
                MemView { cart: CartridgeView::PocketCamera(crate::memory::cartridge::camera::PocketCameraView { camera: cam, ..c }), ..self },
            _ => self,
        }
    }
}

impl Memory {
    pub open spec fn view(&self) -> MemView {
        MemView {
            cart: self.cartridge.view(),
            vram: self.vram@,
            wram: self.wram@,
            oam: self.oam@,
            io: self.io@,
            hram: self.hram@,
            ie: self.ie,
            cgb: self.cgb.view(),
            serial: self.serial_output@,
        }
    }

    /// Power-on state with no cartridge (an empty ROM without MBC).
    pub fn new() -> (r: Self)
        ensures
            r.view() == power_on(CartridgeView::NoMbc(crate::memory::cartridge::none::NoMbcView { rom: Seq::empty() }), false),
            r.view().wf(),
    {
        let mut mem = Memory {
            cartridge: Cartridge::NoMbc(NoMbc::new(Vec::new())),
            vram: vec![0u8; 0x4000],
            wram: vec![0u8; 0x8000],
            oam: [0; 0xA0],
            io: [0; 0x80],
            hram: [0; 0x7F],
            ie: 0,
            cgb: Cgb::new(),
            serial_output: Vec::new(),
        };
        assert(mem.io@ =~= Seq::new(0x80, |i: int| 0u8));
        assert(mem.vram@ =~= Seq::new(0x4000, |i: int| 0u8));
        assert(mem.wram@ =~= Seq::new(0x8000, |i: int| 0u8));
        assert(mem.oam@ =~= Seq::new(0xA0, |i: int| 0u8));
        assert(mem.hram@ =~= Seq::new(0x7F, |i: int| 0u8));
        mem.init_io_defaults();
        proof { mem.lemma_power_on_view(false); }
        mem
    }

    proof fn lemma_power_on_view(&self, cgb_mode: bool)
        requires
            self.vram@ == Seq::new(0x4000, |i: int| 0u8),
            self.wram@ == Seq::new(0x8000, |i: int| 0u8),
            self.oam@ == Seq::new(0xA0, |i: int| 0u8),
            self.io@ == io_defaults(),
            self.hram@ == Seq::new(0x7F, |i: int| 0u8),
            self.ie == 0,
            self.cgb.is_initial_with_mode(cgb_mode),
        ensures
            self.view() == (MemView { serial: self.serial_output@, ..power_on(self.cartridge.view(), cgb_mode) }),
    {
        assert(self.cgb.bg_palette_ram@ =~= zeros(64));
        assert(self.cgb.obj_palette_ram@ =~= zeros(64));
    }

    fn init_io_defaults(&mut self)
        requires old(self).io@ == Seq::new(0x80, |i: int| 0u8),
        ensures
            final(self).io@ == io_defaults(),
            *final(self) == (Memory { io: final(self).io, ..*old(self) }),
    {
        self.io[0x00] = 0xCF;
        self.io[0x01] = 0x00;
        self.io[0x02] = 0x7E;
        self.io[0x04] = 0xAB;
        self.io[0x05] = 0x00;
        self.io[0x06] = 0x00;
        self.io[0x07] = 0xF8;
        self.io[0x0F] = 0xE1;
        self.io[0x40] = 0x91;
        self.io[0x41] = 0x85;
        self.io[0x42] = 0x00;
        self.io[0x43] = 0x00;
        self.io[0x44] = 0x00;
        self.io[0x45] = 0x00;
        self.io[0x47] = 0xFC;
        self.io[0x48] = 0xFF;
        self.io[0x49] = 0xFF;
        self.io[0x4A] = 0x00;
        self.io[0x4B] = 0x00;
        assert(self.io@ =~= io_defaults());
    }

    /// Load a ROM image: at least 0x150 bytes (the header), else an error
    /// and nothing changes. Power-cycles the hardware (the serial output
    /// collected so far stays), sets GBC mode and
    /// creates the cartridge from header bytes 0x0147 (type) and 0x0149
    /// (RAM size; the camera always has 128 KB). `now` is the wall-clock
    /// second an MBC3 clock starts from.
    pub fn load_rom(&mut self, data: &[u8], cgb_mode: bool, now: u64) -> (r: Result<(), &'static str>)
        ensures
            r is Err <==> data@.len() < 0x150,
            r is Err ==> *final(self) == *old(self),
            r is Ok ==> final(self).view() == (MemView { serial: old(self).view().serial, ..power_on(final(self).cartridge.view(), cgb_mode) }),
            r is Ok ==> final(self).cartridge.mbc_type_spec() == mbc_type_of(data@[0x147]),
            r is Ok ==> final(self).cartridge.rom_spec() == data@,
            r is Ok ==> final(self).cartridge.view() == fresh_cartridge(data@, data@[0x147],
                (if data@[0x147] == 0xFC { 0x20000 } else { ram_size_spec(data@[0x149]) }) as nat, now),
            r is Ok ==> final(self).view().wf(),
    {
        if data.len() < 0x150 {
            return Err("ROM too small");
        }
        let cart_type = data[0x0147];
        let ram_size = if cart_type == 0xFC { 128 * 1024 } else { ram_size_from_header(data[0x0149]) };
        self.vram = vec![0u8; 0x4000];
        self.wram = vec![0u8; 0x8000];
        self.oam = [0; 0xA0];
        self.io = [0; 0x80];
        self.hram = [0; 0x7F];
        self.ie = 0;
        self.cgb = Cgb::new();
        self.cgb.mode = cgb_mode;
        assert(self.io@ =~= Seq::new(0x80, |i: int| 0u8));
        assert(self.vram@ =~= Seq::new(0x4000, |i: int| 0u8));
        assert(self.wram@ =~= Seq::new(0x8000, |i: int| 0u8));
        assert(self.oam@ =~= Seq::new(0xA0, |i: int| 0u8));
        assert(self.hram@ =~= Seq::new(0x7F, |i: int| 0u8));
        self.init_io_defaults();
        self.cartridge = make_cartridge(vstd::slice::slice_to_vec(data), cart_type, ram_size, now);
        proof { self.lemma_power_on_view(cgb_mode); }
        Ok(())
    }
}

impl Memory {
    /// Power-cycle the hardware: the loaded ROM is loaded again as
    /// [`Memory::load_rom`] does (so save RAM is cleared and banking reset),
    /// keeping the colour mode; without a loaded ROM the memory returns to
    /// its initial state.
    pub fn reset_hardware(&mut self, now: u64)
        ensures
            old(self).cartridge.rom_spec().len() >= 0x150 ==> {
                let rom = old(self).cartridge.rom_spec();
                &&& final(self).view() == (MemView { serial: old(self).view().serial, ..power_on(final(self).cartridge.view(), old(self).cgb.mode) })
                &&& final(self).cartridge.view() == fresh_cartridge(rom, rom[0x147],
                        (if rom[0x147] == 0xFC { 0x20000 } else { ram_size_spec(rom[0x149]) }) as nat, now)
                &&& final(self).cartridge.rom_spec() == rom
            },
            old(self).cartridge.rom_spec().len() < 0x150 ==> final(self).view() == (MemView {
                serial: old(self).view().serial,
                ..power_on(CartridgeView::NoMbc(crate::memory::cartridge::none::NoMbcView { rom: Seq::empty() }), false)
            }),
            final(self).view().wf(),
    {
        let rom = vstd::slice::slice_to_vec(self.cartridge.rom_data());
        let cgb_mode = self.cgb.mode;
        if rom.len() >= 0x150 {
            let r = self.load_rom(rom.as_slice(), cgb_mode, now);
            assert(r is Ok);
        } else {
            let mut serial: Vec<u8> = Vec::new();
            std::mem::swap(&mut serial, &mut self.serial_output);
            *self = Memory::new();
            self.serial_output = serial;
        }
    }
}

/// A GBC DMA copy changes VRAM only, and keeps its size.
pub proof fn lemma_hdma_copy_frame(m: MemView, src: u16, dst: u16, n: int)
    requires m.wf(),
    ensures
        m.hdma_copy(src, dst, n) == (MemView { vram: m.hdma_copy(src, dst, n).vram, ..m }),
        m.hdma_copy(src, dst, n).vram.len() == m.vram.len(),
    decreases n,
{
    if n > 0 {
        lemma_hdma_copy_frame(m, src, dst, n - 1);
    }
}

impl Memory {
    /// VRAM bank used by the CPU.
    fn cpu_vram_bank(&self) -> (r: usize)
        requires self.view().wf(),
        ensures r == self.view().cpu_vram_bank(), r < 2,
    {
        if self.cgb.mode { self.cgb.vram_bank } else { 0 }
    }

    /// Switchable WRAM bank.
    fn cpu_wram_bank(&self) -> (r: usize)
        requires self.view().wf(),
        ensures r == self.view().cpu_wram_bank(), 1 <= r < 8,
    {
        if self.cgb.mode { self.cgb.wram_bank } else { 1 }
    }

    fn wram_index(&self, addr: u16) -> (r: usize)
        requires self.view().wf(), 0xC000 <= addr <= 0xFDFF,
        ensures r == self.view().wram_index(addr), r < 0x8000,
    {
        let off = ((addr - 0xC000) % 0x2000) as usize;
        if off < 0x1000 { off } else { self.cpu_wram_bank() * 0x1000 + off - 0x1000 }
    }

    /// Byte at `addr` (see [`MemView::read`]).
    pub fn read(&self, addr: u16) -> (r: u8)
        requires self.view().wf(),
        ensures r == self.view().read(addr),
    {
        if addr <= 0x7FFF {
            self.cartridge.read_rom(addr)
        } else if addr <= 0x9FFF {
            self.vram[self.cpu_vram_bank() * 0x2000 + (addr - 0x8000) as usize]
        } else if addr <= 0xBFFF {
            self.cartridge.read_ram(addr)
        } else if addr <= 0xFDFF {
            self.wram[self.wram_index(addr)]
        } else if addr <= 0xFE9F {
            self.oam[(addr - 0xFE00) as usize]
        } else if addr <= 0xFEFF {
            0xFF
        } else if addr <= 0xFF7F {
            self.read_io((addr - 0xFF00) as usize)
        } else if addr <= 0xFFFE {
            self.hram[(addr - 0xFF80) as usize]
        } else {
            self.ie
        }
    }

    fn read_io(&self, off: usize) -> (r: u8)
        requires self.view().wf(), off < 0x80,
        ensures r == self.view().read_io(off as int),
    {
        let mode = self.cgb.mode;
        if off == 0x4D {
            if mode {
                let ds: u8 = if self.cgb.double_speed { 0x80 } else { 0 };
                let armed: u8 = if self.cgb.speed_armed { 1 } else { 0 };
                ds | 0x7E | armed
            } else {
                0xFF
            }
        } else if off == 0x4F {
            if mode { (self.cgb.vram_bank as u8) | 0xFE } else { 0xFF }
        } else if off == 0x68 {
            if mode { self.cgb.bcps | 0x40 } else { 0xFF }
        } else if off == 0x69 {
            if mode { self.cgb.bg_palette_ram[(self.cgb.bcps % 64) as usize] } else { 0xFF }
        } else if off == 0x6A {
            if mode { self.cgb.ocps | 0x40 } else { 0xFF }
        } else if off == 0x6B {
            if mode { self.cgb.obj_palette_ram[(self.cgb.ocps % 64) as usize] } else { 0xFF }
        } else if off == 0x56 {
            0xFF
        } else if off == 0x70 {
            if mode { (self.cgb.wram_bank as u8) | 0xF8 } else { 0xFF }
        } else {
            self.io[off]
        }
    }

    /// Write `value` to `addr` (see [`MemView::write`]).
    pub fn write(&mut self, addr: u16, value: u8)
        requires old(self).view().wf(),
        ensures
            final(self).view() == old(self).view().write(addr, value),
            final(self).view().wf(),
    {
        if addr <= 0x7FFF {
            self.cartridge.write_rom(addr, value);
        } else if addr <= 0x9FFF {
            let i = self.cpu_vram_bank() * 0x2000 + (addr - 0x8000) as usize;
            self.vram.set(i, value);
        } else if addr <= 0xBFFF {
            self.cartridge.write_ram(addr, value);
        } else if addr <= 0xFDFF {
            let i = self.wram_index(addr);
            self.wram.set(i, value);
        } else if addr <= 0xFE9F {
            self.oam[(addr - 0xFE00) as usize] = value;
        } else if addr <= 0xFEFF {
        } else if addr <= 0xFF7F {
            self.write_io((addr - 0xFF00) as usize, value);
        } else if addr <= 0xFFFE {
            self.hram[(addr - 0xFF80) as usize] = value;
        } else {
            self.ie = value;
        }
    }

    fn write_io(&mut self, off: usize, value: u8)
        requires old(self).view().wf(), off < 0x80,
        ensures
            final(self).view() == old(self).view().write_io(off as int, value),
            final(self).view().wf(),
    {
        proof { lemma_u8_fields(value); }
        if off == 0x02 {
            if value & 0x80 != 0 {
                let sb = self.io[1];
                self.serial_output.push(sb);
                self.io[2] = value & 0x7F;
            } else {
                self.io[2] = value;
            }
        } else if off == 0x04 {
            self.io[4] = 0;
        } else if off == 0x44 || off == 0x56 {
        } else if off == 0x46 {
            self.dma_transfer(value);
        } else if off == 0x4D || off == 0x4F || (0x51 <= off && off <= 0x55) || (0x68 <= off && off <= 0x6B) || off == 0x70 {
            if !self.cgb.mode {
            } else if off == 0x4D {
                self.cgb.speed_armed = value & 1 != 0;
            } else if off == 0x4F {
                self.cgb.vram_bank = (value % 2) as usize;
            } else if off == 0x55 {
                self.hdma_start(value);
            } else if 0x51 <= off && off <= 0x54 {
                self.io[off] = value;
            } else if off == 0x68 {
                self.cgb.bcps = value;
            } else if off == 0x69 {
                let i = (self.cgb.bcps % 64) as usize;
                self.cgb.bg_palette_ram[i] = value;
                if self.cgb.bcps >= 0x80 {
                    self.cgb.bcps = 0x80 + (self.cgb.bcps % 64 + 1) % 64;
                }
            } else if off == 0x6A {
                self.cgb.ocps = value;
            } else if off == 0x6B {
                let i = (self.cgb.ocps % 64) as usize;
                self.cgb.obj_palette_ram[i] = value;
                if self.cgb.ocps >= 0x80 {
                    self.cgb.ocps = 0x80 + (self.cgb.ocps % 64 + 1) % 64;
                }
            } else {
                let b = value % 8;
                self.cgb.wram_bank = if b == 0 { 1 } else { b as usize };
            }
        } else {
            self.io[off] = value;
        }
    }

    /// OAM DMA: copy the 160 bytes at `page * 0x100` into OAM.
    fn dma_transfer(&mut self, page: u8)
        requires old(self).view().wf(),
        ensures
            final(self).view() == old(self).view().dma(page),
            final(self).view().wf(),
    {
        let ghost start = self.view();
        let source = (page as u16) * 256;
        let mut i: usize = 0;
        while i < 0xA0
            invariant
                i <= 0xA0,
                source == page as int * 256,
                start.wf(),
                self.view().wf(),
                self.view() == (MemView { oam: self.oam@, ..start }),
                forall|k: int| i <= k < 0xA0 ==> self.oam@[k] == start.oam[k],
                forall|k: int| 0 <= k < i ==> self.oam@[k] == start.read((page as int * 256 + k) as u16),
            decreases 0xA0 - i,
        {
            let addr = source + i as u16;
            assert(self.view().read(addr) == start.read(addr));
            let b = self.read(addr);
            self.oam[i] = b;
            i = i + 1;
        }
        assert(self.oam@ =~= start.dma(page).oam);
    }

    /// `n` bytes of GBC DMA from `src` to VRAM offset `dst` of the selected bank.
    fn hdma_copy(&mut self, src: u16, dst: u16, n: u16)
        requires old(self).view().wf(), n <= 0x800,
        ensures
            final(self).view() == old(self).view().hdma_copy(src, dst, n as int),
            final(self).view() == (MemView { vram: final(self).vram@, ..old(self).view() }),
            final(self).view().wf(),
    {
        proof { lemma_hdma_copy_frame(self.view(), src, dst, n as int); }
        let ghost start = self.view();
        let mut i: u16 = 0;
        while i < n
            invariant
                i <= n,
                n <= 0x800,
                self.view() == start.hdma_copy(src, dst, i as int),
                self.view().wf(),
            decreases n - i,
        {
            let b = self.read(src.wrapping_add(i));
            let idx = self.cgb.vram_bank * 0x2000 + ((dst as usize + i as usize) % 0x2000);
            self.vram.set(idx, b);
            i = i + 1;
        }
    }

    /// HDMA5 write in GBC mode (see [`MemView::hdma_start`]).
    fn hdma_start(&mut self, value: u8)
        requires old(self).view().wf(),
        ensures
            final(self).view() == old(self).view().hdma_start(value),
            final(self).view().wf(),
    {
        let src_word = (self.io[0x51] as u16) * 256 + self.io[0x52] as u16;
        let dst_word = (self.io[0x53] as u16) * 256 + self.io[0x54] as u16;
        let source = src_word / 16 * 16;
        let dest = 0x8000 + dst_word % 0x2000 / 16 * 16;
        self.cgb.hdma_source = source;
        self.cgb.hdma_dest = dest;
        if value < 0x80 {
            let total = (value as u16 + 1) * 16;
            self.hdma_copy(source, dest % 0x2000, total);
            self.cgb.hdma_active = false;
            self.io[0x55] = 0xFF;
        } else {
            self.cgb.hdma_len = value % 128;
            self.cgb.hdma_active = true;
            self.cgb.hdma_hblank = true;
            self.io[0x55] = value % 128;
        }
    }

    /// One H-blank HDMA step (see [`MemView::hblank_step`]).
    pub fn tick_hdma_hblank(&mut self)
        requires old(self).view().wf(),
        ensures
            final(self).view() == old(self).view().hblank_step(),
            final(self).view().wf(),
    {
        if !self.cgb.hdma_active || !self.cgb.hdma_hblank {
            return;
        }
        let src = self.cgb.hdma_source;
        let dst = self.cgb.hdma_dest % 0x2000;
        self.hdma_copy(src, dst, 16);
        self.cgb.hdma_source = ((src as u32 + 16) % 0x10000) as u16;
        self.cgb.hdma_dest = ((self.cgb.hdma_dest as u32 + 16) % 0x10000) as u16;
        if self.cgb.hdma_len == 0 {
            self.cgb.hdma_active = false;
            self.io[0x55] = 0xFF;
        } else {
            self.cgb.hdma_len = self.cgb.hdma_len - 1;
            self.io[0x55] = self.cgb.hdma_len;
        }
    }
}

/// Text of bytes read as UTF-8, each invalid sequence replaced by U+FFFD.
pub uninterp spec fn utf8_lossy(bytes: Seq<u8>) -> Seq<char>;

/// `String::from_utf8_lossy` followed by `to_string`: the text of `bytes`
/// with invalid sequences replaced; ASCII bytes come out as their characters.
#[verifier::external_body]
fn lossy_string(bytes: &[u8]) -> (r: String)
    ensures
        r@ == utf8_lossy(bytes@),
        (forall|i: int| 0 <= i < bytes@.len() ==> bytes@[i] < 0x80) ==> r@ == Seq::new(bytes@.len(), |i: int| bytes@[i] as char),
{
    String::from_utf8_lossy(bytes).to_string()
}

impl Memory {
    /// I/O register 0xFF00 + `offset` as stored, bypassing the GBC overlays.
    pub fn read_io_direct(&self, offset: u8) -> (r: u8)
        requires offset < 0x80, self.view().wf(),
        ensures r == self.io@[offset as int],
    {
        self.io[offset as usize]
    }

    /// Store I/O register 0xFF00 + `offset` directly (no side effects).
    pub fn write_io_direct(&mut self, offset: u8, value: u8)
        requires offset < 0x80, old(self).view().wf(),
        ensures
            final(self).view() == (MemView { io: old(self).view().io.update(offset as int, value), ..old(self).view() }),
            final(self).view().wf(),
    {
        self.io[offset as usize] = value;
    }

    pub fn get_ie(&self) -> (r: u8)
        ensures r == self.ie,
    {
        self.ie
    }

    pub fn get_oam(&self) -> (r: &[u8])
        ensures r@ == self.oam@,
    {
        self.oam.as_slice()
    }

    /// The cartridge save RAM.
    pub fn get_cartridge_ram(&self) -> (r: &[u8])
        ensures r@ == self.cartridge.ram_spec(),
    {
        self.cartridge.ram_data()
    }

    /// Load save data into the cartridge RAM (see [`Cartridge::load_ram`]).
    pub fn load_cartridge_ram(&mut self, data: &[u8])
        requires old(self).view().wf(),
        ensures
            final(self).cartridge.ram_spec() == (match old(self).cartridge {
                Cartridge::NoMbc(_) => Seq::empty(),
                Cartridge::Mbc7(_) => Seq::new(256, |i: int| if i < data@.len() { data@[i] } else { old(self).cartridge.ram_spec()[i] }),
                _ => crate::memory::cartridge::ram_loaded(old(self).cartridge.ram_spec(), data@),
            }),
            final(self).view().wf(),
            final(self).view() == (MemView { cart: final(self).view().cart, ..old(self).view() }),
            final(self).cartridge.rom_spec() == old(self).cartridge.rom_spec(),
            final(self).cartridge.mbc_type_spec() == old(self).cartridge.mbc_type_spec(),
    {
        self.cartridge.load_ram(data);
    }

    /// The camera, for a Pocket Camera cartridge.
    pub fn camera(&self) -> (r: Option<&Camera>)
        ensures
            match self.cartridge {
                Cartridge::PocketCamera(c) => r == Some(&c.camera),
                _ => r is None,
            },
    {
        self.cartridge.as_camera()
    }

    /// Camera register `index & 0x7F`, or 0xFF without a camera.
    pub fn camera_reg(&self, index: u8) -> (r: u8)
        ensures
            r == match self.view().camera() {
                Some(c) => c.regs[(index % 128) as int],
                None => 0xFFu8,
            },
    {
        match &self.cartridge {
            Cartridge::PocketCamera(c) => c.camera.reg(index),
            _ => 0xFF,
        }
    }

    /// Set or clear the camera exposure override (no camera: nothing).
    pub fn set_camera_exposure_override(&mut self, value: Option<u16>)
        requires old(self).view().wf(),
        ensures
            final(self).view() == match old(self).view().camera() {
                Some(c) => old(self).view().with_camera(CameraView { exposure_override: value, ..c }),
                None => old(self).view(),
            },
            final(self).view().wf(),
    {
        match &mut self.cartridge {
            Cartridge::PocketCamera(c) => c.camera.set_exposure_override(value),
            _ => {},
        }
    }

    /// The serial output as text (invalid UTF-8 replaced).
    pub fn get_serial_output_string(&self) -> (r: String)
        ensures
            r@ == utf8_lossy(self.serial_output@),
            (forall|i: int| 0 <= i < self.serial_output@.len() ==> self.serial_output@[i] < 0x80)
                ==> r@ == Seq::new(self.serial_output@.len(), |i: int| self.serial_output@[i] as char),
    {
        lossy_string(self.serial_output.as_slice())
    }

    /// Remove and return the oldest byte the serial port sent, if any.
    pub fn serial_take_output(&mut self) -> (r: Option<u8>)
        requires old(self).view().wf(),
        ensures
            old(self).view().serial.len() == 0 ==> r is None && final(self).view() == old(self).view(),
            old(self).view().serial.len() > 0 ==> r == Some(old(self).view().serial[0])
                && final(self).view() == (MemView { serial: old(self).view().serial.drop_first(), ..old(self).view() }),
            final(self).view().wf(),
    {
        if self.serial_output.len() == 0 {
            None
        } else {
            let b = self.serial_output.remove(0);
            assert(self.serial_output@ =~= old(self).view().serial.drop_first());
            Some(b)
        }
    }

    pub fn clear_serial_output(&mut self)
        requires old(self).view().wf(),
        ensures
            final(self).view() == (MemView { serial: Seq::empty(), ..old(self).view() }),
            final(self).view().wf(),
    {
        self.serial_output.clear();
    }

    /// Record wall-clock second `now` in an MBC3 clock without advancing it
    /// (nothing for other cartridges).
    pub fn set_rtc_clock(&mut self, now: u64)
        requires old(self).view().wf(),
        ensures
            final(self).view() == (MemView { cart: old(self).view().cart.rtc_clock_set(now), ..old(self).view() }),
            final(self).view().wf(),
            final(self).cartridge.rom_spec() == old(self).cartridge.rom_spec(),
            final(self).cartridge.ram_spec() == old(self).cartridge.ram_spec(),
            final(self).cartridge.mbc_type_spec() == old(self).cartridge.mbc_type_spec(),
    {
        self.cartridge.set_rtc_clock(now);
    }

    /// Advance an MBC3 clock to wall-clock second `now` (nothing for other
    /// cartridges).
    pub fn tick_rtc(&mut self, now: u64)
        requires old(self).view().wf(), old(self).cartridge.rtc_can_tick(now),
        ensures
            final(self).view() == (MemView { cart: old(self).view().cart.rtc_ticked(now), ..old(self).view() }),
            final(self).view().wf(),
            final(self).cartridge.rom_spec() == old(self).cartridge.rom_spec(),
            final(self).cartridge.ram_spec() == old(self).cartridge.ram_spec(),
            final(self).cartridge.mbc_type_spec() == old(self).cartridge.mbc_type_spec(),
            match (old(self).cartridge, final(self).cartridge) {
                (Cartridge::Mbc3(o), Cartridge::Mbc3(f)) => f.rtc == o.rtc.ticked(now)
                    && f.view() == (crate::memory::cartridge::mbc3::Mbc3View { rtc: f.rtc, ..o.view() }),
                (o, f) => f.view() == o.view(),
            },
    {
        self.cartridge.tick_rtc(now);
    }

    pub fn get_mbc_type(&self) -> (r: MbcType)
        ensures r == self.cartridge.mbc_type_spec(),
    {
        self.cartridge.mbc_type()
    }

    pub fn get_rom_bank_count(&self) -> (r: usize)
        ensures r == self.cartridge.rom_spec().len() / 0x4000,
    {
        self.cartridge.rom_bank_count()
    }

    /// Banking state of the cartridge.
    pub fn get_debug_state(&self) -> (r: MemoryDebugState)
        ensures
            r.mbc_type == self.cartridge.mbc_type_spec(),
            r.rom_bank == (match self.cartridge {
                Cartridge::NoMbc(_) => 1u16,
                Cartridge::Mbc1(c) => c.rom_bank,
                Cartridge::Mbc3(c) => c.rom_bank,
                Cartridge::Mbc5(c) => c.rom_bank,
                Cartridge::Mbc7(c) => c.rom_bank,
                Cartridge::PocketCamera(c) => c.rom_bank,
            }),
            r.ram_bank == (match self.cartridge {
                Cartridge::Mbc1(c) => c.ram_bank,
                Cartridge::Mbc3(c) => c.ram_bank,
                Cartridge::Mbc5(c) => c.ram_bank,
                Cartridge::PocketCamera(c) => c.ram_bank,
                _ => 0u8,
            }),
            r.ram_enabled == (match self.cartridge {
                Cartridge::Mbc1(c) => c.ram_enabled,
                Cartridge::Mbc3(c) => c.ram_enabled,
                Cartridge::Mbc5(c) => c.ram_enabled,
                Cartridge::Mbc7(c) => c.ram_gate1 && c.ram_gate2,
                _ => false,
            }),
    {
        MemoryDebugState {
            rom_bank: self.cartridge.current_rom_bank(),
            ram_bank: self.cartridge.current_ram_bank(),
            ram_enabled: self.cartridge.is_ram_enabled(),
            mbc_type: self.cartridge.mbc_type(),
        }
    }

    /// LCD, interrupt and scroll registers as stored.
    pub fn get_io_state(&self) -> (r: IoState)
        requires self.view().wf(),
        ensures
            r.lcdc == self.io@[0x40] && r.stat == self.io@[0x41] && r.ly == self.io@[0x44],
            r.ie == self.ie && r.if_reg == self.io@[0x0F],
            r.scy == self.io@[0x42] && r.scx == self.io@[0x43] && r.bgp == self.io@[0x47],
    {
        IoState {
            lcdc: self.io[0x40],
            stat: self.io[0x41],
            ly: self.io[0x44],
            ie: self.ie,
            if_reg: self.io[0x0F],
            scy: self.io[0x42],
            scx: self.io[0x43],
            bgp: self.io[0x47],
        }
    }

    /// LCDC bit 7.
    pub fn is_lcd_enabled(&self) -> (r: bool)
        requires self.view().wf(),
        ensures r == (self.io@[0x40] & 0x80 != 0),
    {
        self.io[0x40] & 0x80 != 0
    }

    pub fn is_cgb_mode(&self) -> (r: bool)
        ensures r == self.cgb.mode,
    {
        self.cgb.mode
    }

    /// KEY1 bit 0: a speed switch is requested for the next STOP.
    pub fn is_speed_armed(&self) -> (r: bool)
        ensures r == self.cgb.speed_armed,
    {
        self.cgb.speed_armed
    }

    pub fn is_double_speed(&self) -> (r: bool)
        ensures r == self.cgb.double_speed,
    {
        self.cgb.double_speed
    }

    /// Switch CPU speed (STOP with KEY1 armed).
    pub fn toggle_double_speed(&mut self)
        requires old(self).view().wf(),
        ensures
            final(self).view() == (MemView {
                cgb: CgbView { double_speed: !old(self).cgb.double_speed, speed_armed: false, ..old(self).view().cgb },
                ..old(self).view()
            }),
            final(self).view().wf(),
    {
        self.cgb.toggle_double_speed();
    }

    /// Byte of VRAM bank `bank & 1` at `addr`, whatever bank the CPU sees;
    /// 0xFF outside 0x8000-0x9FFF.
    pub fn read_vram_bank(&self, bank: usize, addr: u16) -> (r: u8)
        requires self.view().wf(),
        ensures
            r == if 0x8000 <= addr < 0xA000 { self.vram@[(bank % 2) * 0x2000 + (addr - 0x8000)] } else { 0xFFu8 },
    {
        if 0x8000 <= addr && addr < 0xA000 {
            self.vram[(bank % 2) * 0x2000 + (addr - 0x8000) as usize]
        } else {
            0xFF
        }
    }

    /// The two bytes (lo, hi) of colour `color` of BG palette `palette`.
    pub fn read_bg_palette(&self, palette: usize, color: usize) -> (r: (u8, u8))
        requires palette < 8, color < 4,
        ensures
            r == (self.cgb.bg_palette_ram@[palette * 8 + color * 2], self.cgb.bg_palette_ram@[palette * 8 + color * 2 + 1]),
    {
        self.cgb.read_bg_palette(palette, color)
    }

    /// The two bytes (lo, hi) of colour `color` of OBJ palette `palette`.
    pub fn read_obj_palette(&self, palette: usize, color: usize) -> (r: (u8, u8))
        requires palette < 8, color < 4,
        ensures
            r == (self.cgb.obj_palette_ram@[palette * 8 + color * 2], self.cgb.obj_palette_ram@[palette * 8 + color * 2 + 1]),
    {
        self.cgb.read_obj_palette(palette, color)
    }

    /// Give the camera its webcam image (128x112 greyscale); nothing without
    /// a camera.
    pub fn set_camera_image(&mut self, data: &[u8])
        requires
            old(self).view().wf(),
            old(self).view().camera() is Some ==> data@.len() >= 14336,
        ensures
            final(self).view() == match old(self).view().camera() {
                Some(c) => old(self).view().with_camera(CameraView { image: data@.subrange(0, 14336), image_ready: true, ..c }),
                None => old(self).view(),
            },
            final(self).view().wf(),
    {
        match &mut self.cartridge {
            Cartridge::PocketCamera(c) => c.camera.set_image(data),
            _ => {},
        }
    }

    pub fn is_camera_image_ready(&self) -> (r: bool)
        ensures r == match self.view().camera() { Some(c) => c.image_ready, None => false },
    {
        match &self.cartridge {
            Cartridge::PocketCamera(c) => c.camera.is_image_ready(),
            _ => false,
        }
    }

    pub fn is_camera_capture_dirty(&self) -> (r: bool)
        ensures r == match self.view().camera() { Some(c) => c.capture_dirty, None => false },
    {
        match &self.cartridge {
            Cartridge::PocketCamera(c) => c.camera.is_capture_dirty(),
            _ => false,
        }
    }

    pub fn clear_camera_capture_dirty(&mut self)
        requires old(self).view().wf(),
        ensures
            final(self).view() == match old(self).view().camera() {
                Some(c) => old(self).view().with_camera(CameraView { capture_dirty: false, ..c }),
                None => old(self).view(),
            },
            final(self).view().wf(),
    {
        match &mut self.cartridge {
            Cartridge::PocketCamera(c) => c.camera.clear_capture_dirty(),
            _ => {},
        }
    }

    /// The tile data of the active capture (empty without a camera).
    pub fn camera_capture_sram(&self) -> (r: &[u8])
        requires self.view().wf(),
        ensures
            r@ == match self.view().camera() {
                Some(c) => c.ram.subrange(0x100int, 0x100int + 3584),
                None => Seq::empty(),
            },
    {
        match &self.cartridge {
            Cartridge::PocketCamera(c) => c.camera.capture_sram(),
            _ => &[],
        }
    }

    /// Decode a camera photo slot to RGBA (empty without a camera).
    pub fn decode_camera_photo(&self, slot: u8) -> (r: Vec<u8>)
        ensures
            r@ == match self.view().camera() {
                Some(c) => crate::memory::camera::decoded_photo(c.ram, slot),
                None => Seq::empty(),
            },
    {
        match &self.cartridge {
            Cartridge::PocketCamera(c) => c.camera.decode_photo(slot),
            _ => Vec::new(),
        }
    }

    /// Encode RGBA pixels into a camera photo slot; false without a camera.
    pub fn encode_camera_photo(&mut self, slot: u8, rgba: &[u8]) -> (r: bool)
        requires old(self).view().wf(),
        ensures
            r == (old(self).view().camera() is Some && 1 <= slot <= 30 && rgba@.len() == 57344),
            r ==> final(self).view() == old(self).view().with_camera(CameraView {
                ram: crate::memory::camera::state_entry_set(
                    crate::memory::camera::tiles_stored(old(self).view().camera().unwrap().ram,
                        crate::memory::camera::slot_offset(slot), crate::memory::camera::rgba_colors(rgba@)),
                    slot, (slot - 1) as u8),
                ..old(self).view().camera().unwrap()
            }),
            !r ==> final(self).view() == old(self).view(),
            final(self).view().wf(),
    {
        match &mut self.cartridge {
            Cartridge::PocketCamera(c) => c.camera.encode_photo(slot, rgba),
            _ => false,
        }
    }

    /// Erase a camera photo slot (nothing without a camera).
    pub fn clear_camera_photo_slot(&mut self, slot: u8)
        requires old(self).view().wf(),
        ensures
            final(self).view() == match old(self).view().camera() {
                Some(c) => if 1 <= slot <= 30 {
                    old(self).view().with_camera(CameraView {
                        ram: crate::memory::camera::state_entry_set(
                            crate::memory::camera::tiles_cleared(c.ram, crate::memory::camera::slot_offset(slot)), slot, 0xFF),
                        ..c
                    })
                } else {
                    old(self).view()
                },
                None => old(self).view(),
            },
            final(self).view().wf(),
    {
        match &mut self.cartridge {
            Cartridge::PocketCamera(c) => c.camera.clear_photo_slot(slot),
            _ => {},
        }
    }

    /// Contrast level of the camera dither matrix; -1 without a camera.
    pub fn camera_contrast(&self) -> (r: i32)
        requires self.view().wf(),
        ensures
            r == match self.view().camera() {
                Some(c) => crate::memory::camera::contrast_of((
                    crate::memory::camera::min_threshold(c.regs, 0, 16),
                    crate::memory::camera::min_threshold(c.regs, 1, 16),
                    crate::memory::camera::min_threshold(c.regs, 2, 16))),
                None => -1,
            },
    {
        match &self.cartridge {
            Cartridge::PocketCamera(c) => c.camera.contrast(),
            _ => -1,
        }
    }

    /// Occupied camera photo slots; 0 without a camera.
    pub fn camera_photo_count(&self) -> (r: u8)
        requires self.view().wf(),
        ensures
            r == match self.view().camera() {
                Some(c) => crate::memory::camera::occupied_count(c.ram, 30),
                None => 0,
            },
    {
        match &self.cartridge {
            Cartridge::PocketCamera(c) => c.camera.photo_count(),
            _ => 0,
        }
    }

    /// Take the capture a camera register write has started, if any: the
    /// flag is whether the output is inverted.
    pub fn take_pending_capture(&mut self) -> (r: Option<bool>)
        requires old(self).view().wf(),
        ensures
            r == match old(self).view().camera() { Some(c) => c.pending_capture, None => None },
            final(self).view() == match old(self).view().camera() {
                Some(c) => old(self).view().with_camera(CameraView { pending_capture: None, ..c }),
                None => old(self).view(),
            },
            final(self).view().wf(),
    {
        match &mut self.cartridge {
            Cartridge::PocketCamera(c) => {
                let p = c.camera.pending_capture;
                c.camera.pending_capture = None;
                p
            },
            _ => None,
        }
    }

    /// Store the sensor output of a capture (see [`Camera::store_capture`]);
    /// nothing without a camera.
    pub fn store_camera_capture(&mut self, processed: &[u8], invert: bool)
        requires
            old(self).view().wf(),
            processed@.len() == 14336,
        ensures
            final(self).view() == match old(self).view().camera() {
                Some(c) => old(self).view().with_camera(CameraView {
                    ram: crate::memory::camera::captured_ram(c.ram, c.regs, processed@, invert),
                    ..c
                }),
                None => old(self).view(),
            },
            final(self).view().wf(),
    {
        match &mut self.cartridge {
            Cartridge::PocketCamera(c) => c.camera.store_capture(processed, invert),
            _ => {},
        }
    }

    /// Feed an accelerometer reading to an MBC7 cartridge (nothing for other
    /// cartridges; see [`Mbc7::set_accelerometer`]).
    pub fn set_accelerometer(&mut self, x: i32, y: i32)
        requires
            old(self).view().wf(),
            -0x1249249 <= x <= 0x1249249,
            -0x1249249 <= y <= 0x1249249,
        ensures
            final(self).view() == (MemView { cart: final(self).view().cart, ..old(self).view() }),
            final(self).view().wf(),
            match (old(self).cartridge, final(self).cartridge) {
                (Cartridge::Mbc7(o), Cartridge::Mbc7(f)) => f.view() == (crate::memory::cartridge::mbc7::Mbc7View {
                    accel_x: crate::memory::cartridge::mbc7::clamp16(0x81D0 + crate::memory::cartridge::mbc7::trunc_div(x * 0x70, 0x1000)),
                    accel_y: crate::memory::cartridge::mbc7::clamp16(0x81D0 + crate::memory::cartridge::mbc7::trunc_div(y * 0x70, 0x1000)),
                    ..o.view()
                }),
                (o, f) => f.view() == o.view(),
            },
    {
        match &mut self.cartridge {
            Cartridge::Mbc7(m) => m.set_accelerometer(x, y),
            _ => {},
        }
    }
}

} // verus!
