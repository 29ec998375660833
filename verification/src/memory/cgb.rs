//! Game Boy Color state: colour palette RAM, bank selection, double speed
//! and HDMA bookkeeping.

use vstd::prelude::*;

verus! {

/// All Game Boy Color–specific emulator state.
pub struct Cgb {
    /// GBC mode active (chosen by the caller at ROM load).
    pub mode: bool,
    /// BG colour palette RAM: 8 palettes x 4 colours x 2 bytes (RGB555 LE).
    pub bg_palette_ram: [u8; 64],
    /// OBJ colour palette RAM, same layout.
    pub obj_palette_ram: [u8; 64],
    /// FF68: BG palette index (bit 7 auto-increment, bits 5-0 address).
    pub bcps: u8,
    /// FF6A: OBJ palette index.
    pub ocps: u8,
    /// VRAM bank (0 or 1).
    pub vram_bank: usize,
    /// Switchable WRAM bank (1-7).
    pub wram_bank: usize,
    /// Double-speed CPU mode active.
    pub double_speed: bool,
    /// KEY1 bit 0: a speed switch is armed for the next STOP.
    pub speed_armed: bool,
    /// HDMA source address.
    pub hdma_source: u16,
    /// HDMA destination address.
    pub hdma_dest: u16,
    /// Remaining 16-byte blocks of the active H-blank DMA, minus one.
    pub hdma_len: u8,
    /// An HDMA transfer is in progress.
    pub hdma_active: bool,
    /// H-blank DMA (true) or general-purpose DMA (false).
    pub hdma_hblank: bool,
}

/// The GBC state as values.
pub struct CgbView {
    pub mode: bool,
    pub bg_palette_ram: Seq<u8>,
    pub obj_palette_ram: Seq<u8>,
    pub bcps: u8,
    pub ocps: u8,
    pub vram_bank: usize,
    pub wram_bank: usize,
    pub double_speed: bool,
    pub speed_armed: bool,
    pub hdma_source: u16,
    pub hdma_dest: u16,
    pub hdma_len: u8,
    pub hdma_active: bool,
    pub hdma_hblank: bool,
}

impl CgbView {
    /// Bank indices in range, 64 bytes of each palette RAM.
    pub open spec fn wf(self) -> bool {
        self.vram_bank < 2 && 1 <= self.wram_bank < 8 && self.bg_palette_ram.len() == 64
            && self.obj_palette_ram.len() == 64
    }
}

impl Cgb {
    pub open spec fn view(&self) -> CgbView {
        CgbView {
            mode: self.mode,
            bg_palette_ram: self.bg_palette_ram@,
            obj_palette_ram: self.obj_palette_ram@,
            bcps: self.bcps,
            ocps: self.ocps,
            vram_bank: self.vram_bank,
            wram_bank: self.wram_bank,
            double_speed: self.double_speed,
            speed_armed: self.speed_armed,
            hdma_source: self.hdma_source,
            hdma_dest: self.hdma_dest,
            hdma_len: self.hdma_len,
            hdma_active: self.hdma_active,
            hdma_hblank: self.hdma_hblank,
        }
    }

    /// Bank indices in range.
    pub open spec fn wf(self) -> bool {
        self.vram_bank < 2 && 1 <= self.wram_bank < 8
    }

    /// Power-on state.
    pub open spec fn is_initial(self) -> bool {
        &&& !self.mode
        &&& self.bg_palette_ram@ == Seq::new(64, |i: int| 0u8)
        &&& self.obj_palette_ram@ == Seq::new(64, |i: int| 0u8)
        &&& self.bcps == 0 && self.ocps == 0
        &&& self.vram_bank == 0 && self.wram_bank == 1
        &&& !self.double_speed && !self.speed_armed
        &&& self.hdma_source == 0 && self.hdma_dest == 0 && self.hdma_len == 0
        &&& !self.hdma_active && !self.hdma_hblank
    }

    /// Power-on state, with GBC mode `mode`.
    pub open spec fn is_initial_with_mode(self, mode: bool) -> bool {
        Cgb { mode: false, ..self }.is_initial() && self.mode == mode
    }

    pub fn new() -> (r: Self)
        ensures r.is_initial(), r.wf(),
    {
        let r = Cgb {
            mode: false,
            bg_palette_ram: [0; 64],
            obj_palette_ram: [0; 64],
            bcps: 0,
            ocps: 0,
            vram_bank: 0,
            wram_bank: 1,
            double_speed: false,
            speed_armed: false,
            hdma_source: 0,
            hdma_dest: 0,
            hdma_len: 0,
            hdma_active: false,
            hdma_hblank: false,
        };
        assert(r.bg_palette_ram@ =~= Seq::new(64, |i: int| 0u8));
        assert(r.obj_palette_ram@ =~= Seq::new(64, |i: int| 0u8));
        r
    }

    /// The two bytes (lo, hi) of colour `color` of BG palette `palette`.
    pub fn read_bg_palette(&self, palette: usize, color: usize) -> (r: (u8, u8))
        requires
            palette < 8,
            color < 4,
        ensures
            r == (self.bg_palette_ram@[palette * 8 + color * 2], self.bg_palette_ram@[palette * 8 + color * 2 + 1]),
    {
        let offset = palette * 8 + color * 2;
        (self.bg_palette_ram[offset], self.bg_palette_ram[offset + 1])
    }

    /// The two bytes (lo, hi) of colour `color` of OBJ palette `palette`.
    pub fn read_obj_palette(&self, palette: usize, color: usize) -> (r: (u8, u8))
        requires
            palette < 8,
            color < 4,
        ensures
            r == (self.obj_palette_ram@[palette * 8 + color * 2], self.obj_palette_ram@[palette * 8 + color * 2 + 1]),
    {
        let offset = palette * 8 + color * 2;
        (self.obj_palette_ram[offset], self.obj_palette_ram[offset + 1])
    }

    /// Switch CPU speed (STOP with KEY1 armed): flips double speed, disarms.
    pub fn toggle_double_speed(&mut self)
        ensures
            *final(self) == (Cgb { double_speed: !old(self).double_speed, speed_armed: false, ..*old(self) }),
    {
        self.double_speed = !self.double_speed;
        self.speed_armed = false;
    }
}

/// A 5-bit colour channel widened to 8 bits (its top bits repeated below).
pub open spec fn widen5(x: int) -> int {
    x * 8 + x / 4
}

/// RGB555 colour stored as little-endian bytes `lo`, `hi` (red in bits
/// 0-4, green 5-9, blue 10-14) as 0xRRGGBB.
pub open spec fn rgb888_of(lo: u8, hi: u8) -> int {
    let raw = lo + hi * 256;
    widen5(raw % 32) * 0x10000 + widen5((raw / 32) % 32) * 0x100 + widen5((raw / 1024) % 32)
}

/// Convert an RGB555 palette entry to 0xRRGGBB.
pub fn rgb555_to_rgb888(lo: u8, hi: u8) -> (r: u32)
    ensures r == rgb888_of(lo, hi),
{
    let raw: u16 = (lo as u16) | ((hi as u16) << 8);
    let r5 = (raw & 0x1F) as u32;
    let g5 = ((raw >> 5) & 0x1F) as u32;
    let b5 = ((raw >> 10) & 0x1F) as u32;
    let r8 = (r5 << 3) | (r5 >> 2);
    let g8 = (g5 << 3) | (g5 >> 2);
    let b8 = (b5 << 3) | (b5 >> 2);
    let out = (r8 << 16) | (g8 << 8) | b8;
    assert(raw == lo + hi * 256) by (bit_vector)
        requires raw == (lo as u16) | ((hi as u16) << 8);
    assert(r5 == raw % 32 && g5 == (raw / 32) % 32 && b5 == (raw / 1024) % 32) by (bit_vector)
        requires r5 == (raw & 0x1F) as u32, g5 == ((raw >> 5) & 0x1F) as u32, b5 == ((raw >> 10) & 0x1F) as u32;
    assert(out == (r5 * 8 + r5 / 4) * 0x10000 + (g5 * 8 + g5 / 4) * 0x100 + (b5 * 8 + b5 / 4)) by (bit_vector)
        requires
            r5 < 32, g5 < 32, b5 < 32,
            r8 == (r5 << 3) | (r5 >> 2),
            g8 == (g5 << 3) | (g5 >> 2),
            b8 == (b5 << 3) | (b5 >> 2),
            out == (r8 << 16) | (g8 << 8) | b8;
    out
}

/// Colour widening: each 5-bit channel of an RGB555 entry (red in bits
/// 0-4, green 5-9, blue 10-14 of `lo + 256 hi`) becomes the matching byte of
/// 0xRRGGBB with the 5-bit value in its top five bits and the value's top
/// three bits repeated below, so 0 stays 0 and 31 becomes 255.
pub proof fn law_rgb555_widening(lo: u8, hi: u8)
    ensures ({
        let raw = lo + 256 * hi;
        let c = rgb888_of(lo, hi);
        let (r5, g5, b5) = (raw % 32, (raw / 32) % 32, (raw / 1024) % 32);
        let (r8, g8, b8) = (c / 0x10000, (c / 0x100) % 0x100, c % 0x100);
        &&& r8 / 8 == r5 && r8 % 8 == r5 / 4
        &&& g8 / 8 == g5 && g8 % 8 == g5 / 4
        &&& b8 / 8 == b5 && b8 % 8 == b5 / 4
    }),
{
    let raw = lo + 256 * hi;
    let (r5, g5, b5) = (raw % 32, (raw / 32) % 32, (raw / 1024) % 32);
    lemma_widen5(r5);
    lemma_widen5(g5);
    lemma_widen5(b5);
    lemma_rgb_bytes(widen5(r5), widen5(g5), widen5(b5));
}

/// The widened channel keeps the value in its top five bits.
proof fn lemma_widen5(x: int)
    requires 0 <= x < 32,
    ensures 0 <= widen5(x) < 256, widen5(x) / 8 == x, widen5(x) % 8 == x / 4,
{
}

/// The bytes of 0xRRGGBB.
proof fn lemma_rgb_bytes(r: int, g: int, b: int)
    by (nonlinear_arith)
    requires 0 <= r < 256, 0 <= g < 256, 0 <= b < 256,
    ensures
        (r * 0x10000 + g * 0x100 + b) / 0x10000 == r,
        ((r * 0x10000 + g * 0x100 + b) / 0x100) % 0x100 == g,
        (r * 0x10000 + g * 0x100 + b) % 0x100 == b,
{
}

} // verus!
