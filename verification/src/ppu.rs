//! Pixel Processing Unit: the 160x144 display.
//!
//! Each scanline cycles through OAM scan (80 cycles), drawing (172) and
//! H-blank (204); lines 144-153 are V-blank (456 each). A line is rendered
//! when drawing ends: background, window, then up to 10 sprites.

use vstd::prelude::*;
use crate::bits::{lemma_u8_fields, lemma_bit_of};
use crate::interrupts::{Interrupt, InterruptController, requested};
use crate::memory::{Memory, MemView};
use crate::memory::camera::bit_of;

pub mod dmg;
pub mod cgb;

verus! {

pub const SCREEN_WIDTH: usize = 160;
pub const SCREEN_HEIGHT: usize = 144;
/// Bytes of the RGBA frame buffer.
pub const BUFFER_SIZE: usize = 92160;

/// An RGBA pixel.
pub type Rgba = (u8, u8, u8, u8);

/// PPU modes, as STAT bits 0-1 number them.
#[derive(Debug, Clone, Copy, PartialEq, Eq, Structural)]
pub enum PpuMode {
    HBlank,
    VBlank,
    OamScan,
    Drawing,
}

pub open spec fn mode_number(m: PpuMode) -> u8 {
    match m {
        PpuMode::HBlank => 0,
        PpuMode::VBlank => 1,
        PpuMode::OamScan => 2,
        PpuMode::Drawing => 3,
    }
}

impl PpuMode {
    /// STAT mode number.
    pub fn to_u8(self) -> (r: u8)
        ensures r == mode_number(self),
    {
        match self {
            PpuMode::HBlank => 0,
            PpuMode::VBlank => 1,
            PpuMode::OamScan => 2,
            PpuMode::Drawing => 3,
        }
    }

    pub fn name(self) -> (r: &'static str)
        ensures
            r@ == match self {
                PpuMode::HBlank => "HBLANK"@,
                PpuMode::VBlank => "VBLANK"@,
                PpuMode::OamScan => "OAM"@,
                PpuMode::Drawing => "DRAW"@,
            },
    {
        match self {
            PpuMode::HBlank => "HBLANK",
            PpuMode::VBlank => "VBLANK",
            PpuMode::OamScan => "OAM",
            PpuMode::Drawing => "DRAW",
        }
    }
}

/// PPU state for debugging.
pub struct PpuDebugState {
    pub mode: u8,
    pub mode_name: &'static str,
    pub line: u8,
    pub cycles: u32,
    pub window_line_counter: u8,
}

/// An OAM entry with the sprite height of the frame (8 or 16).
#[derive(Clone, Copy)]
pub struct Sprite {
    pub y: u8,
    pub x: u8,
    pub tile: u8,
    pub flags: u8,
    pub height: u8,
}

/// Address of row `row` of tile `idx`: unsigned from 0x8000 with LCDC bit
/// 4 set, else signed from 0x9000.
pub open spec fn tile_row_addr(lcdc: u8, idx: u8, row: int) -> u16 {
    if lcdc & 0x10 != 0 {
        (0x8000 + idx * 16 + row * 2) as u16
    } else {
        (0x9000 + (if idx < 128 { idx as int } else { idx - 256 }) * 16 + row * 2) as u16
    }
}

/// 2-bit colour index of pixel bit `bit` of a tile row.
pub open spec fn color_index(low: u8, high: u8, bit: u8) -> u8 {
    (bit_of(high, bit as int) * 2 + bit_of(low, bit as int)) as u8
}

/// Byte `addr` of VRAM bank `bank & 1`, 0xFF outside VRAM.
pub open spec fn vram_byte(m: MemView, bank: int, addr: u16) -> u8 {
    if 0x8000 <= addr < 0xA000 { m.vram[(bank % 2) * 0x2000 + (addr - 0x8000)] } else { 0xFF }
}

/// OAM entry `i` as a sprite of height `height`.
pub open spec fn sprite_at(oam: Seq<u8>, i: int, height: u8) -> Sprite {
    Sprite { y: oam[4 * i], x: oam[4 * i + 1], tile: oam[4 * i + 2], flags: oam[4 * i + 3], height }
}

/// Whether sprite `s` covers line `line`.
pub open spec fn covers(s: Sprite, line: int) -> bool {
    s.y - 16 <= line < s.y - 16 + s.height
}

/// The sprites of the line among the first `n` OAM entries, in OAM order,
/// at most 10.
pub open spec fn selected(oam: Seq<u8>, line: int, height: u8, n: int) -> Seq<Sprite>
    decreases n,
{
    if n <= 0 {
        Seq::empty()
    } else {
        let prev = selected(oam, line, height, n - 1);
        if prev.len() < 10 && covers(sprite_at(oam, n - 1, height), line) {
            prev.push(sprite_at(oam, n - 1, height))
        } else {
            prev
        }
    }
}

/// Colour index of sprite `s` at screen column `sx` of line `line`, with
/// vertical and horizontal flips; 8x16 sprites use tile pairs. GBC sprites
/// take their tile from the VRAM bank in flag bit 3.
pub open spec fn sprite_pixel_index(m: MemView, s: Sprite, line: int, sx: int, gbc: bool) -> u8 {
    let row0 = line - (s.y - 16);
    let row1 = if s.flags & 0x40 != 0 { s.height - 1 - row0 } else { row0 };
    let tile: int = if s.height == 16 { (s.tile & 0xFE) + (if row1 >= 8 { 1int } else { 0 }) } else { s.tile as int };
    let row2 = if s.height == 16 && row1 >= 8 { row1 - 8 } else { row1 };
    let addr = (0x8000 + tile * 16 + row2 * 2) as u16;
    let bank: int = if gbc { ((s.flags >> 3u8) & 1) as int } else { 0 };
    let pixel = sx - (s.x - 8);
    let bit = if s.flags & 0x20 != 0 { pixel } else { 7 - pixel };
    color_index(vram_byte(m, bank, addr), vram_byte(m, bank, (addr + 1) as u16), bit as u8)
}

/// The DMG sprite drawn at `sx` among the first `k` selected sprites, with
/// its colour: the lowest X wins, then the lowest OAM index.
pub open spec fn dmg_winner(m: MemView, sel: Seq<Sprite>, line: int, sx: int, info: u8, k: int) -> Option<(int, Rgba)>
    decreases k,
{
    if k <= 0 {
        None
    } else {
        let b = dmg_winner(m, sel, line, sx, info, k - 1);
        match crate::ppu::dmg::dmg_sprite_color(m, sel[k - 1], line, sx, info) {
            Some(c) => match b {
                None => Some((k - 1, c)),
                Some(w) => if sel[k - 1].x < sel[w.0].x { Some((k - 1, c)) } else { b },
            },
            None => b,
        }
    }
}

/// The GBC sprite colour at `sx` among the first `k` selected sprites: the
/// lowest OAM index wins.
pub open spec fn cgb_winner(m: MemView, sel: Seq<Sprite>, line: int, sx: int, info: u8, k: int) -> Option<Rgba>
    decreases k,
{
    if k <= 0 {
        None
    } else {
        let b = cgb_winner(m, sel, line, sx, info, k - 1);
        if b is Some { b } else { crate::ppu::cgb::cgb_sprite_color(m, sel[k - 1], line, sx, info) }
    }
}

/// DMG sprite priority: the sprite drawn at a pixel has the lowest X of
/// all sprites that draw there, and among equal X the lowest OAM index.
pub proof fn law_dmg_sprite_priority(m: MemView, sel: Seq<Sprite>, line: int, sx: int, info: u8, k: int)
    requires 0 <= k <= sel.len(),
    ensures
        match dmg_winner(m, sel, line, sx, info, k) {
            Some(w) => 0 <= w.0 < k
                && crate::ppu::dmg::dmg_sprite_color(m, sel[w.0], line, sx, info) == Some(w.1)
                && forall|i: int| 0 <= i < k && (#[trigger] crate::ppu::dmg::dmg_sprite_color(m, sel[i], line, sx, info)) is Some
                    ==> sel[w.0].x < sel[i].x || (sel[w.0].x == sel[i].x && w.0 <= i),
            None => forall|i: int| 0 <= i < k ==> (#[trigger] crate::ppu::dmg::dmg_sprite_color(m, sel[i], line, sx, info)) is None,
        },
    decreases k,
{
    if k > 0 {
        law_dmg_sprite_priority(m, sel, line, sx, info, k - 1);
    }
}

/// GBC sprite priority: the colour drawn at a pixel is that of the lowest
/// OAM index among the sprites that draw there.
pub proof fn law_cgb_sprite_priority(m: MemView, sel: Seq<Sprite>, line: int, sx: int, info: u8, k: int)
    requires 0 <= k <= sel.len(),
    ensures
        cgb_winner(m, sel, line, sx, info, k) is Some ==> exists|j: int| 0 <= j < k
            && crate::ppu::cgb::cgb_sprite_color(m, sel[j], line, sx, info) == cgb_winner(m, sel, line, sx, info, k)
            && forall|i: int| 0 <= i < j ==> (#[trigger] crate::ppu::cgb::cgb_sprite_color(m, sel[i], line, sx, info)) is None,
        cgb_winner(m, sel, line, sx, info, k) is None ==>
            forall|i: int| 0 <= i < k ==> (#[trigger] crate::ppu::cgb::cgb_sprite_color(m, sel[i], line, sx, info)) is None,
    decreases k,
{
    if k > 0 {
        law_cgb_sprite_priority(m, sel, line, sx, info, k - 1);
        if cgb_winner(m, sel, line, sx, info, k - 1) is None && crate::ppu::cgb::cgb_sprite_color(m, sel[k - 1], line, sx, info) is Some {
            assert(crate::ppu::cgb::cgb_sprite_color(m, sel[k - 1], line, sx, info) == cgb_winner(m, sel, line, sx, info, k));
        }
    }
}

/// Offset of pixel (`sx`, `line`) in the frame buffer.
pub open spec fn px_off(line: int, sx: int) -> int {
    (line * 160 + sx) * 4
}

/// Pixel (`sx`, `line`) of a frame buffer.
pub open spec fn pixel_at(buf: Seq<u8>, line: int, sx: int) -> Rgba {
    let o = px_off(line, sx);
    (buf[o], buf[o + 1], buf[o + 2], buf[o + 3])
}

/// Component `k` of a pixel.
pub open spec fn component(c: Rgba, k: int) -> u8 {
    if k == 0 { c.0 } else if k == 1 { c.1 } else if k == 2 { c.2 } else { c.3 }
}

pub struct Ppu {
    /// RGBA frame buffer, 160x144x4 bytes.
    pub buffer: Vec<u8>,
    /// Per pixel of the current line: bit 0 set for background colour 0,
    /// bit 1 for a GBC tile with priority.
    pub scanline_bg_info: [u8; 160],
    pub mode: PpuMode,
    pub cycles: u32,
    pub line: u8,
    pub window_line_counter: u8,
    pub frame_ready: bool,
    /// GBC colour mode, chosen at reset.
    pub cgb_mode: bool,
}

pub struct PpuView {
    pub buffer: Seq<u8>,
    pub bg_info: Seq<u8>,
    pub mode: PpuMode,
    pub cycles: u32,
    pub line: u8,
    pub window_line_counter: u8,
    pub frame_ready: bool,
    pub cgb_mode: bool,
}

impl PpuView {
    pub open spec fn wf(self) -> bool {
        &&& self.buffer.len() == 92160
        &&& self.bg_info.len() == 160
        &&& self.line <= 153
        &&& (self.mode != PpuMode::VBlank ==> self.line < 144)
    }

    /// Power-on state.
    pub open spec fn initial(cgb_mode: bool) -> PpuView {
        PpuView {
            buffer: Seq::new(92160, |i: int| 0u8),
            bg_info: Seq::new(160, |i: int| 0u8),
            mode: PpuMode::OamScan,
            cycles: 0,
            line: 0,
            window_line_counter: 0,
            frame_ready: false,
            cgb_mode,
        }
    }

    /// Screen column where the window starts (WX - 7).
    pub open spec fn window_x(m: MemView) -> int {
        m.io[0x4B] - 7
    }

    /// Whether the window is drawn on line `line`.
    pub open spec fn window_on(m: MemView, line: int) -> bool {
        m.io[0x40] & 0x20 != 0 && line >= m.io[0x4A] && PpuView::window_x(m) < 160
    }

    /// Background colour and info of pixel `sx` (white when the background
    /// is disabled).
    pub open spec fn bg_stage(self, m: MemView, sx: int) -> (Rgba, u8) {
        if m.io[0x40] & 0x01 != 0 {
            if self.cgb_mode {
                crate::ppu::cgb::cgb_bg(m, self.line as int, sx)
            } else {
                crate::ppu::dmg::dmg_bg(m, self.line as int, sx)
            }
        } else {
            ((0xFF, 0xFF, 0xFF, 0xFF), 1)
        }
    }

    /// Colour and info of pixel `sx` after the window.
    pub open spec fn window_stage(self, m: MemView, sx: int) -> (Rgba, u8) {
        let wx = PpuView::window_x(m);
        let start: int = if wx < 0 { 0 } else { wx };
        if PpuView::window_on(m, self.line as int) && sx >= start {
            if self.cgb_mode {
                crate::ppu::cgb::cgb_window(m, self.window_line_counter as int, start, sx)
            } else {
                crate::ppu::dmg::dmg_window(m, self.window_line_counter as int, wx, sx)
            }
        } else {
            self.bg_stage(m, sx)
        }
    }

    /// The sprites of the current line.
    pub open spec fn line_sprites(self, m: MemView) -> Seq<Sprite> {
        selected(m.oam, self.line as int, if m.io[0x40] & 0x04 != 0 { 16u8 } else { 8u8 }, 40)
    }

    /// Final colour of pixel `sx`.
    pub open spec fn sprite_stage(self, m: MemView, sx: int) -> Rgba {
        let (c, info) = self.window_stage(m, sx);
        if m.io[0x40] & 0x02 != 0 {
            let sel = self.line_sprites(m);
            if self.cgb_mode {
                match cgb_winner(m, sel, self.line as int, sx, info, sel.len() as int) {
                    Some(s) => s,
                    None => c,
                }
            } else {
                match dmg_winner(m, sel, self.line as int, sx, info, sel.len() as int) {
                    Some(w) => w.1,
                    None => c,
                }
            }
        } else {
            c
        }
    }

    /// The PPU after rendering its current line (lines 144 and up draw
    /// nothing).
    pub open spec fn rendered(self, m: MemView) -> PpuView {
        if self.line >= 144 {
            self
        } else {
            let line = self.line as int;
            PpuView {
                buffer: Seq::new(92160, |i: int|
                    if px_off(line, 0) <= i < px_off(line, 160) {
                        component(self.sprite_stage(m, (i - px_off(line, 0)) / 4), i % 4)
                    } else {
                        self.buffer[i]
                    }),
                bg_info: Seq::new(160, |sx: int| self.window_stage(m, sx).1),
                window_line_counter: if PpuView::window_on(m, line) {
                    ((self.window_line_counter + 1) % 256) as u8
                } else {
                    self.window_line_counter
                },
                ..self
            }
        }
    }
}

/// STAT after the LY=LYC comparison for line `line`: bit 2 set on a match,
/// which requests the LCD STAT interrupt when bit 6 is set.
pub open spec fn lyc_checked(m: MemView, line: u8) -> MemView {
    let stat = m.io[0x41];
    if line == m.io[0x45] {
        let s = stat | 0x04;
        let m1 = if s & 0x40 != 0 { requested(m, 0x02) } else { m };
        MemView { io: m1.io.update(0x41, s), ..m1 }
    } else {
        MemView { io: m.io.update(0x41, stat & 0xFB), ..m }
    }
}

/// The LCD STAT interrupt requested when STAT has `bit` set.
pub open spec fn stat_request(m: MemView, bit: u8) -> MemView {
    if m.io[0x41] & bit != 0 { requested(m, 0x02) } else { m }
}

/// Memory with LY set to `line`.
pub open spec fn ly_set(m: MemView, line: u8) -> MemView {
    MemView { io: m.io.update(0x44, line), ..m }
}

impl PpuView {
    /// The PPU and memory after `cycles` more cycles.
    ///
    /// With the LCD off (LCDC bit 7) the PPU waits in H-blank on line 0 and
    /// keeps the last frame. Otherwise the cycles accumulate and at most one
    /// mode change happens: OAM scan ends after 80 cycles; drawing after 172
    /// renders the line (STAT bit 3 requests LCD STAT); H-blank after 204
    /// moves to the next line and from line 144 on to V-blank (a finished
    /// frame, the V-blank interrupt, STAT bit 4) or else to OAM scan (STAT
    /// bit 5); each V-blank line takes 456 cycles and after line 153 the
    /// frame restarts (STAT bit 5). LY follows the line, STAT bit 2 its
    /// comparison with LYC, and STAT bits 0-1 the mode.
    #[verifier::opaque]
    pub open spec fn tick_spec(self, m: MemView, cycles: u32) -> (PpuView, MemView) {
        if m.io[0x40] & 0x80 == 0 {
            (PpuView { mode: PpuMode::HBlank, cycles: 0, line: 0, ..self }, ly_set(m, 0))
        } else {
            let c = (self.cycles + cycles) as u32;
            let p1 = PpuView { cycles: c, ..self };
            let (p2, m2) = match self.mode {
                PpuMode::OamScan => {
                    if c >= 80 { (PpuView { cycles: (c - 80) as u32, mode: PpuMode::Drawing, ..self }, m) } else { (p1, m) }
                },
                PpuMode::Drawing => {
                    if c >= 172 {
                        (PpuView { cycles: (c - 172) as u32, mode: PpuMode::HBlank, ..self }.rendered(m), stat_request(m, 0x08))
                    } else {
                        (p1, m)
                    }
                },
                PpuMode::HBlank => {
                    if c >= 204 {
                        let line = (self.line + 1) as u8;
                        let m1 = lyc_checked(ly_set(m, line), line);
                        let q = PpuView { cycles: (c - 204) as u32, line, ..self };
                        if line >= 144 {
                            (PpuView { mode: PpuMode::VBlank, window_line_counter: 0, frame_ready: true, ..q },
                                stat_request(requested(m1, 0x01), 0x10))
                        } else {
                            (PpuView { mode: PpuMode::OamScan, ..q }, stat_request(m1, 0x20))
                        }
                    } else {
                        (p1, m)
                    }
                },
                PpuMode::VBlank => {
                    if c >= 456 {
                        let next = (self.line + 1) as u8;
                        let (line, mode, m1): (u8, PpuMode, MemView) = if next >= 154 {
                            (0, PpuMode::OamScan, stat_request(m, 0x20))
                        } else {
                            (next, PpuMode::VBlank, m)
                        };
                        (PpuView { cycles: (c - 456) as u32, line, mode, ..self }, lyc_checked(ly_set(m1, line), line))
                    } else {
                        (p1, m)
                    }
                },
            };
            (p2, MemView { io: m2.io.update(0x41, (m2.io[0x41] & 0xFC) | mode_number(p2.mode)), ..m2 })
        }
    }
}

pub fn tile_addr(lcdc: u8, idx: u8, row: usize) -> (r: u16)
    requires row < 8,
    ensures r == tile_row_addr(lcdc, idx, row as int),
{
    if lcdc & 0x10 != 0 {
        0x8000 + idx as u16 * 16 + row as u16 * 2
    } else if idx < 128 {
        0x9000 + idx as u16 * 16 + row as u16 * 2
    } else {
        0x9000 - (256 - idx as u16) * 16 + row as u16 * 2
    }
}

pub fn pixel_index(low: u8, high: u8, bit: u8) -> (r: u8)
    requires bit < 8,
    ensures r == color_index(low, high, bit), r <= 3,
{
    proof { lemma_bit_of(low, bit); lemma_bit_of(high, bit); }
    ((high >> bit) & 1) * 2 + ((low >> bit) & 1)
}

/// Colour index of a sprite pixel (see [`sprite_pixel_index`]).
pub fn sprite_index(memory: &Memory, s: Sprite, line: usize, sx: usize, gbc: bool) -> (r: u8)
    requires
        memory.view().wf(),
        s.height == 8 || s.height == 16,
        covers(s, line as int),
        s.x <= sx + 8 < s.x + 8,
    ensures r == sprite_pixel_index(memory.view(), s, line as int, sx as int, gbc), r <= 3,
{
    proof { lemma_u8_fields(s.flags); lemma_u8_fields(s.tile); }
    let row0 = line + 16 - s.y as usize;
    let row1 = if s.flags & 0x40 != 0 { s.height as usize - 1 - row0 } else { row0 };
    let tile: u16 = if s.height == 16 {
        (s.tile & 0xFE) as u16 + (if row1 >= 8 { 1u16 } else { 0 })
    } else {
        s.tile as u16
    };
    let row2 = if s.height == 16 && row1 >= 8 { row1 - 8 } else { row1 };
    let addr = 0x8000 + tile * 16 + row2 as u16 * 2;
    let bank: usize = if gbc { ((s.flags >> 3u8) & 1) as usize } else { 0 };
    let pixel = sx + 8 - s.x as usize;
    let bit = if s.flags & 0x20 != 0 { pixel } else { 7 - pixel };
    let low = memory.read_vram_bank(bank, addr);
    let high = memory.read_vram_bank(bank, addr + 1);
    pixel_index(low, high, bit as u8)
}

impl Ppu {
    pub open spec fn view(&self) -> PpuView {
        PpuView {
            buffer: self.buffer@,
            bg_info: self.scanline_bg_info@,
            mode: self.mode,
            cycles: self.cycles,
            line: self.line,
            window_line_counter: self.window_line_counter,
            frame_ready: self.frame_ready,
            cgb_mode: self.cgb_mode,
        }
    }

    /// Power-on state: OAM scan of line 0, a black (all-zero) buffer.
    pub fn new() -> (r: Self)
        ensures r.view() == PpuView::initial(false), r.view().wf(),
    {
        let r = Ppu {
            buffer: vec![0u8; BUFFER_SIZE],
            scanline_bg_info: [0; 160],
            mode: PpuMode::OamScan,
            cycles: 0,
            line: 0,
            window_line_counter: 0,
            frame_ready: false,
            cgb_mode: false,
        };
        assert(r.buffer@ =~= Seq::new(92160, |i: int| 0u8));
        assert(r.scanline_bg_info@ =~= Seq::new(160, |i: int| 0u8));
        r
    }

    /// Back to the power-on state, in GBC mode or not.
    pub fn reset(&mut self, cgb_mode: bool)
        ensures final(self).view() == PpuView::initial(cgb_mode), final(self).view().wf(),
    {
        *self = Ppu::new();
        self.cgb_mode = cgb_mode;
    }

    /// Whether a frame was completed since the last call (and clear it).
    pub fn frame_ready(&mut self) -> (r: bool)
        ensures
            r == old(self).frame_ready,
            final(self).view() == (PpuView { frame_ready: false, ..old(self).view() }),
    {
        let r = self.frame_ready;
        self.frame_ready = false;
        r
    }

    /// The RGBA frame buffer.
    pub fn get_buffer(&self) -> (r: &[u8])
        ensures r@ == self.buffer@,
    {
        self.buffer.as_slice()
    }

    /// Mode, line, cycle count and window line for debugging.
    pub fn get_debug_state(&self) -> (r: PpuDebugState)
        ensures
            r.mode == mode_number(self.mode),
            r.line == self.line && r.cycles == self.cycles && r.window_line_counter == self.window_line_counter,
            r.mode_name@ == match self.mode {
                PpuMode::HBlank => "HBLANK"@,
                PpuMode::VBlank => "VBLANK"@,
                PpuMode::OamScan => "OAM"@,
                PpuMode::Drawing => "DRAW"@,
            },
    {
        PpuDebugState {
            mode: self.mode.to_u8(),
            mode_name: self.mode.name(),
            line: self.line,
            cycles: self.cycles,
            window_line_counter: self.window_line_counter,
        }
    }

    /// Number of non-zero bytes in the frame buffer.
    pub fn count_non_zero_pixels(&self) -> (r: usize)
        ensures r == count_non_zero(self.buffer@, self.buffer@.len() as int),
    {
        let mut n: usize = 0;
        let mut i: usize = 0;
        while i < self.buffer.len()
            invariant
                i <= self.buffer@.len(),
                n == count_non_zero(self.buffer@, i as int),
                n <= i,
            decreases self.buffer@.len() - i,
        {
            if self.buffer[i] != 0 {
                n = n + 1;
            }
            i = i + 1;
        }
        n
    }

    /// Store pixel `sx` of line `line`.
    fn put_pixel(&mut self, line: usize, sx: usize, c: Rgba)
        requires old(self).view().wf(), line < 144, sx < 160,
        ensures
            final(self).view() == (PpuView { buffer: final(self).buffer@, ..old(self).view() }),
            final(self).buffer@.len() == 92160,
            pixel_at(final(self).buffer@, line as int, sx as int) == c,
            forall|i: int| 0 <= i < 92160 && !(px_off(line as int, sx as int) <= i < px_off(line as int, sx as int) + 4)
                ==> final(self).buffer@[i] == old(self).buffer@[i],
            forall|s: int| 0 <= s < 160 && s != sx ==> #[trigger] pixel_at(final(self).buffer@, line as int, s)
                == pixel_at(old(self).buffer@, line as int, s),
    {
        let o = (line * 160 + sx) * 4;
        self.buffer.set(o, c.0);
        self.buffer.set(o + 1, c.1);
        self.buffer.set(o + 2, c.2);
        self.buffer.set(o + 3, c.3);
        assert forall|s: int| 0 <= s < 160 && s != sx implies #[trigger] pixel_at(self.buffer@, line as int, s)
            == pixel_at(old(self).buffer@, line as int, s) by {
            let q = px_off(line as int, s);
            assert(q + 3 < o || q >= o + 4);
        }
    }
}

/// Number of non-zero bytes among the first `n` of `buf`.
pub open spec fn count_non_zero(buf: Seq<u8>, n: int) -> int
    decreases n,
{
    if n <= 0 { 0 } else { count_non_zero(buf, n - 1) + if buf[n - 1] != 0 { 1int } else { 0 } }
}

/// The selected sprites all cover the line and have the frame's height.
pub proof fn lemma_selected(oam: Seq<u8>, line: int, height: u8, n: int)
    ensures
        selected(oam, line, height, n).len() <= 10,
        forall|k: int| 0 <= k < selected(oam, line, height, n).len() ==>
            covers(#[trigger] selected(oam, line, height, n)[k], line) && selected(oam, line, height, n)[k].height == height,
    decreases n,
{
    if n > 0 {
        lemma_selected(oam, line, height, n - 1);
    }
}

/// Once ten sprites are selected, later entries add none.
pub proof fn lemma_selected_full(oam: Seq<u8>, line: int, height: u8, n: int, m: int)
    requires n <= m, selected(oam, line, height, n).len() >= 10,
    ensures selected(oam, line, height, m) == selected(oam, line, height, n),
    decreases m - n,
{
    if n < m {
        lemma_selected_full(oam, line, height, n, m - 1);
    }
}

impl Ppu {
    /// Background pass of line `line` (see [`PpuView::bg_stage`]).
    fn render_background(&mut self, memory: &Memory, line: usize)
        requires old(self).view().wf(), memory.view().wf(), line == old(self).line, line < 144,
        ensures
            final(self).view() == (PpuView { buffer: final(self).buffer@, bg_info: final(self).scanline_bg_info@, ..old(self).view() }),
            final(self).view().wf(),
            forall|sx: int| 0 <= sx < 160 ==> pixel_at(final(self).buffer@, line as int, sx) == old(self).view().bg_stage(memory.view(), sx).0,
            forall|sx: int| 0 <= sx < 160 ==> final(self).scanline_bg_info@[sx] == old(self).view().bg_stage(memory.view(), sx).1,
            forall|i: int| 0 <= i < 92160 && !(px_off(line as int, 0) <= i < px_off(line as int, 160)) ==> final(self).buffer@[i] == old(self).buffer@[i],
    {
        let ghost p0 = self.view();
        let enabled = memory.read_io_direct(0x40) & 0x01 != 0;
        let mut sx: usize = 0;
        while sx < 160
            invariant
                sx <= 160,
                line == p0.line, line < 144,
                memory.view().wf(),
                p0.wf(),
                enabled == (memory.view().io[0x40] & 0x01 != 0),
                self.view() == (PpuView { buffer: self.buffer@, bg_info: self.scanline_bg_info@, ..p0 }),
                self.view().wf(),
                forall|s: int| 0 <= s < sx ==> pixel_at(self.buffer@, line as int, s) == p0.bg_stage(memory.view(), s).0,
                forall|s: int| 0 <= s < sx ==> self.scanline_bg_info@[s] == p0.bg_stage(memory.view(), s).1,
                forall|i: int| 0 <= i < 92160 && !(px_off(line as int, 0) <= i < px_off(line as int, 160)) ==> self.buffer@[i] == p0.buffer[i],
            decreases 160 - sx,
        {
            let (c, info) = if enabled {
                if self.cgb_mode {
                    crate::ppu::cgb::cgb_bg_pixel(memory, line, sx)
                } else {
                    crate::ppu::dmg::dmg_bg_pixel(memory, line, sx)
                }
            } else {
                ((0xFF, 0xFF, 0xFF, 0xFF), 1)
            };
            self.put_pixel(line, sx, c);
            self.scanline_bg_info[sx] = info;
            sx = sx + 1;
        }
    }

    /// Window pass of line `line` (see [`PpuView::window_stage`]).
    fn render_window(&mut self, memory: &Memory, line: usize)
        requires
            old(self).view().wf(), memory.view().wf(), line == old(self).line, line < 144,
            forall|sx: int| 0 <= sx < 160 ==> pixel_at(old(self).buffer@, line as int, sx) == old(self).view().bg_stage(memory.view(), sx).0,
            forall|sx: int| 0 <= sx < 160 ==> old(self).scanline_bg_info@[sx] == old(self).view().bg_stage(memory.view(), sx).1,
        ensures
            final(self).view() == (PpuView {
                buffer: final(self).buffer@,
                bg_info: final(self).scanline_bg_info@,
                window_line_counter: final(self).window_line_counter,
                ..old(self).view()
            }),
            final(self).view().wf(),
            final(self).window_line_counter == if PpuView::window_on(memory.view(), line as int) {
                ((old(self).window_line_counter + 1) % 256) as u8
            } else {
                old(self).window_line_counter
            },
            forall|sx: int| 0 <= sx < 160 ==> pixel_at(final(self).buffer@, line as int, sx) == old(self).view().window_stage(memory.view(), sx).0,
            forall|sx: int| 0 <= sx < 160 ==> final(self).scanline_bg_info@[sx] == old(self).view().window_stage(memory.view(), sx).1,
            forall|i: int| 0 <= i < 92160 && !(px_off(line as int, 0) <= i < px_off(line as int, 160)) ==> final(self).buffer@[i] == old(self).buffer@[i],
    {
        let ghost p0 = self.view();
        let lcdc = memory.read_io_direct(0x40);
        let wy = memory.read_io_direct(0x4A) as usize;
        let wx = memory.read_io_direct(0x4B) as i16 - 7;
        if lcdc & 0x20 == 0 || line < wy || wx >= 160 {
            return;
        }
        let start: usize = if wx < 0 { 0 } else { wx as usize };
        let wline = self.window_line_counter;
        let mut sx: usize = start;
        while sx < 160
            invariant
                start <= sx <= 160,
                start == (if PpuView::window_x(memory.view()) < 0 { 0 } else { PpuView::window_x(memory.view()) }),
                wx == PpuView::window_x(memory.view()),
                wline == p0.window_line_counter,
                PpuView::window_on(memory.view(), line as int),
                line == p0.line, line < 144,
                memory.view().wf(),
                p0.wf(),
                self.view() == (PpuView { buffer: self.buffer@, bg_info: self.scanline_bg_info@, ..p0 }),
                self.view().wf(),
                forall|s: int| 0 <= s < sx ==> pixel_at(self.buffer@, line as int, s) == p0.window_stage(memory.view(), s).0,
                forall|s: int| 0 <= s < sx ==> self.scanline_bg_info@[s] == p0.window_stage(memory.view(), s).1,
                forall|s: int| sx <= s < 160 ==> pixel_at(self.buffer@, line as int, s) == p0.bg_stage(memory.view(), s).0,
                forall|s: int| sx <= s < 160 ==> self.scanline_bg_info@[s] == p0.bg_stage(memory.view(), s).1,
                forall|i: int| 0 <= i < 92160 && !(px_off(line as int, 0) <= i < px_off(line as int, 160)) ==> self.buffer@[i] == p0.buffer[i],
            decreases 160 - sx,
        {
            let (c, info) = if self.cgb_mode {
                crate::ppu::cgb::cgb_window_pixel(memory, wline, start, sx)
            } else {
                crate::ppu::dmg::dmg_window_pixel(memory, wline, wx, sx)
            };
            self.put_pixel(line, sx, c);
            self.scanline_bg_info[sx] = info;
            sx = sx + 1;
        }
        self.window_line_counter = self.window_line_counter.wrapping_add(1);
    }

    /// The sprites of line `line` (see [`selected`]).
    fn select_sprites(memory: &Memory, line: usize, height: u8) -> (r: Vec<Sprite>)
        requires memory.view().wf(), line < 144,
        ensures r@ == selected(memory.view().oam, line as int, height, 40),
    {
        let oam = memory.get_oam();
        let mut sel: Vec<Sprite> = Vec::new();
        let mut i: usize = 0;
        while i < 40 && sel.len() < 10
            invariant
                i <= 40,
                oam@ == memory.view().oam,
                oam@.len() == 0xA0,
                line < 144,
                sel@ == selected(memory.view().oam, line as int, height, i as int),
            decreases 40 - i,
        {
            let s = Sprite { y: oam[i * 4], x: oam[i * 4 + 1], tile: oam[i * 4 + 2], flags: oam[i * 4 + 3], height };
            if s.y as usize <= line + 16 && line + 16 < s.y as usize + height as usize {
                sel.push(s);
            }
            i = i + 1;
        }
        proof {
            if i < 40 {
                lemma_selected_full(memory.view().oam, line as int, height, i as int, 40);
            }
        }
        sel
    }

    /// Sprite pass of line `line` (see [`PpuView::sprite_stage`]).
    fn render_sprites(&mut self, memory: &Memory, line: usize)
        requires
            old(self).view().wf(), memory.view().wf(), line == old(self).line, line < 144,
            memory.view().io[0x40] & 0x02 != 0,
        ensures
            final(self).view() == (PpuView { buffer: final(self).buffer@, ..old(self).view() }),
            final(self).view().wf(),
            forall|sx: int| 0 <= sx < 160 ==> pixel_at(final(self).buffer@, line as int, sx) == ({
                let sel = old(self).view().line_sprites(memory.view());
                let info = old(self).scanline_bg_info@[sx];
                if old(self).cgb_mode {
                    match cgb_winner(memory.view(), sel, line as int, sx, info, sel.len() as int) {
                        Some(c) => c,
                        None => pixel_at(old(self).buffer@, line as int, sx),
                    }
                } else {
                    match dmg_winner(memory.view(), sel, line as int, sx, info, sel.len() as int) {
                        Some(w) => w.1,
                        None => pixel_at(old(self).buffer@, line as int, sx),
                    }
                }
            }),
            forall|i: int| 0 <= i < 92160 && !(px_off(line as int, 0) <= i < px_off(line as int, 160)) ==> final(self).buffer@[i] == old(self).buffer@[i],
    {
        let ghost p0 = self.view();
        let ghost m = memory.view();
        let height: u8 = if memory.read_io_direct(0x40) & 0x04 != 0 { 16 } else { 8 };
        let sel = Ppu::select_sprites(memory, line, height);
        proof { lemma_selected(m.oam, line as int, height, 40); }
        let mut sx: usize = 0;
        while sx < 160
            invariant
                sx <= 160,
                line == p0.line, line < 144,
                m == memory.view(),
                m.wf(),
                p0.wf(),
                sel@ == p0.line_sprites(m),
                height == 8 || height == 16,
                sel@.len() <= 10,
                forall|k: int| 0 <= k < sel@.len() ==> covers(#[trigger] sel@[k], line as int) && sel@[k].height == height,
                self.view() == (PpuView { buffer: self.buffer@, ..p0 }),
                self.view().wf(),
                forall|s: int| 0 <= s < sx ==> pixel_at(self.buffer@, line as int, s) == ({
                    let info = p0.bg_info[s];
                    if p0.cgb_mode {
                        match cgb_winner(m, sel@, line as int, s, info, sel@.len() as int) {
                            Some(c) => c,
                            None => pixel_at(p0.buffer, line as int, s),
                        }
                    } else {
                        match dmg_winner(m, sel@, line as int, s, info, sel@.len() as int) {
                            Some(w) => w.1,
                            None => pixel_at(p0.buffer, line as int, s),
                        }
                    }
                }),
                forall|s: int| sx <= s < 160 ==> pixel_at(self.buffer@, line as int, s) == pixel_at(p0.buffer, line as int, s),
                forall|i: int| 0 <= i < 92160 && !(px_off(line as int, 0) <= i < px_off(line as int, 160)) ==> self.buffer@[i] == p0.buffer[i],
            decreases 160 - sx,
        {
            let info = self.scanline_bg_info[sx];
            let c = if self.cgb_mode {
                Ppu::cgb_best(memory, &sel, line, sx, info)
            } else {
                match Ppu::dmg_best(memory, &sel, line, sx, info) {
                    Some(w) => Some(w.1),
                    None => None,
                }
            };
            match c {
                Some(col) => self.put_pixel(line, sx, col),
                None => {},
            }
            sx = sx + 1;
        }
    }

    /// The DMG sprite drawn at `sx` (see [`dmg_winner`]).
    fn dmg_best(memory: &Memory, sel: &Vec<Sprite>, line: usize, sx: usize, info: u8) -> (r: Option<(usize, Rgba)>)
        requires
            memory.view().wf(), line < 144, sx < 160,
            forall|k: int| 0 <= k < sel@.len() ==> covers(#[trigger] sel@[k], line as int) && (sel@[k].height == 8 || sel@[k].height == 16),
        ensures
            match (r, dmg_winner(memory.view(), sel@, line as int, sx as int, info, sel@.len() as int)) {
                (None, None) => true,
                (Some(a), Some(b)) => a.0 == b.0 && a.1 == b.1,
                _ => false,
            },
    {
        let mut best: Option<(usize, Rgba)> = None;
        let mut k: usize = 0;
        while k < sel.len()
            invariant
                k <= sel@.len(),
                memory.view().wf(), line < 144, sx < 160,
                forall|j: int| 0 <= j < sel@.len() ==> covers(#[trigger] sel@[j], line as int) && (sel@[j].height == 8 || sel@[j].height == 16),
                match (best, dmg_winner(memory.view(), sel@, line as int, sx as int, info, k as int)) {
                    (None, None) => true,
                    (Some(a), Some(b)) => a.0 == b.0 && a.1 == b.1 && a.0 < k,
                    _ => false,
                },
            decreases sel@.len() - k,
        {
            let s = sel[k];
            match crate::ppu::dmg::dmg_sprite_pixel(memory, s, line, sx, info) {
                Some(c) => {
                    match best {
                        None => { best = Some((k, c)); },
                        Some(w) => {
                            if s.x < sel[w.0].x {
                                best = Some((k, c));
                            }
                        },
                    }
                },
                None => {},
            }
            k = k + 1;
        }
        best
    }

    /// The GBC sprite colour at `sx` (see [`cgb_winner`]).
    fn cgb_best(memory: &Memory, sel: &Vec<Sprite>, line: usize, sx: usize, info: u8) -> (r: Option<Rgba>)
        requires
            memory.view().wf(), line < 144, sx < 160,
            forall|k: int| 0 <= k < sel@.len() ==> covers(#[trigger] sel@[k], line as int) && (sel@[k].height == 8 || sel@[k].height == 16),
        ensures r == cgb_winner(memory.view(), sel@, line as int, sx as int, info, sel@.len() as int),
    {
        let mut best: Option<Rgba> = None;
        let mut k: usize = 0;
        while k < sel.len()
            invariant
                k <= sel@.len(),
                memory.view().wf(), line < 144, sx < 160,
                forall|j: int| 0 <= j < sel@.len() ==> covers(#[trigger] sel@[j], line as int) && (sel@[j].height == 8 || sel@[j].height == 16),
                best == cgb_winner(memory.view(), sel@, line as int, sx as int, info, k as int),
            decreases sel@.len() - k,
        {
            if best.is_none() {
                best = crate::ppu::cgb::cgb_sprite_pixel(memory, sel[k], line, sx, info);
            }
            k = k + 1;
        }
        best
    }

    /// Render the current line into the frame buffer (see [`PpuView::rendered`]).
    pub fn render_scanline(&mut self, memory: &Memory)
        requires old(self).view().wf(), memory.view().wf(),
        ensures
            final(self).view() == old(self).view().rendered(memory.view()),
            final(self).view().wf(),
    {
        let ghost p0 = self.view();
        let ghost m = memory.view();
        if self.line >= 144 {
            return;
        }
        let line = self.line as usize;
        self.render_background(memory, line);
        let ghost p1 = self.view();
        assert forall|sx: int| 0 <= sx < 160 implies p1.bg_stage(m, sx) == p0.bg_stage(m, sx) by {}
        self.render_window(memory, line);
        let ghost p2 = self.view();
        assert forall|sx: int| 0 <= sx < 160 implies p1.window_stage(m, sx) == p0.window_stage(m, sx) by {}
        if memory.read_io_direct(0x40) & 0x02 != 0 {
            self.render_sprites(memory, line);
            assert(p2.line_sprites(m) == p0.line_sprites(m));
        }
        proof {
            let r = p0.rendered(m);
            assert forall|i: int| 0 <= i < 92160 implies self.buffer@[i] == r.buffer[i] by {
                if px_off(line as int, 0) <= i < px_off(line as int, 160) {
                    let sx = (i - px_off(line as int, 0)) / 4;
                    assert(px_off(line as int, sx) + i % 4 == i);
                    assert(pixel_at(self.buffer@, line as int, sx) == p0.sprite_stage(m, sx));
                }
            }
            assert(self.buffer@ =~= r.buffer);
            assert(self.scanline_bg_info@ =~= r.bg_info);
        }
    }
}

impl Ppu {
    /// Compare LY with LYC for line `line` (see [`lyc_checked`]).
    fn check_lyc_coincidence(&self, memory: &mut Memory, interrupts: &InterruptController)
        requires old(memory).view().wf(),
        ensures
            final(memory).view() == lyc_checked(old(memory).view(), self.line),
            final(memory).view().wf(),
    {
        let lyc = memory.read_io_direct(0x45);
        let stat = memory.read_io_direct(0x41);
        if self.line == lyc {
            let s = stat | 0x04;
            if s & 0x40 != 0 {
                interrupts.request(Interrupt::LcdStat, memory);
            }
            memory.write_io_direct(0x41, s);
        } else {
            memory.write_io_direct(0x41, stat & 0xFB);
        }
    }

    /// Request LCD STAT when STAT has `bit` set (see [`stat_request`]).
    fn stat_interrupt(memory: &mut Memory, interrupts: &InterruptController, bit: u8)
        requires old(memory).view().wf(),
        ensures
            final(memory).view() == stat_request(old(memory).view(), bit),
            final(memory).view().wf(),
    {
        if memory.read_io_direct(0x41) & bit != 0 {
            interrupts.request(Interrupt::LcdStat, memory);
        }
    }

    /// Advance by `cycles` cycles (see [`PpuView::tick_spec`]).
    pub fn tick(&mut self, cycles: u32, memory: &mut Memory, interrupts: &InterruptController)
        requires
            old(self).view().wf(),
            old(memory).view().wf(),
            old(self).cycles + cycles <= u32::MAX,
        ensures
            (final(self).view(), final(memory).view()) == old(self).view().tick_spec(old(memory).view(), cycles),
            final(self).view().wf(),
            final(memory).view().wf(),
    {
        reveal(PpuView::tick_spec);
        let lcdc = memory.read_io_direct(0x40);
        if lcdc & 0x80 == 0 {
            self.mode = PpuMode::HBlank;
            self.cycles = 0;
            self.line = 0;
            memory.write_io_direct(0x44, 0);
            return;
        }
        self.cycles = self.cycles + cycles;
        match self.mode {
            PpuMode::OamScan => {
                if self.cycles >= 80 {
                    self.cycles = self.cycles - 80;
                    self.mode = PpuMode::Drawing;
                }
            },
            PpuMode::Drawing => {
                if self.cycles >= 172 {
                    self.cycles = self.cycles - 172;
                    self.mode = PpuMode::HBlank;
                    self.render_scanline(memory);
                    Ppu::stat_interrupt(memory, interrupts, 0x08);
                }
            },
            PpuMode::HBlank => {
                if self.cycles >= 204 {
                    self.cycles = self.cycles - 204;
                    self.line = self.line + 1;
                    memory.write_io_direct(0x44, self.line);
                    self.check_lyc_coincidence(memory, interrupts);
                    if self.line >= 144 {
                        self.mode = PpuMode::VBlank;
                        self.window_line_counter = 0;
                        self.frame_ready = true;
                        interrupts.request(Interrupt::VBlank, memory);
                        Ppu::stat_interrupt(memory, interrupts, 0x10);
                    } else {
                        self.mode = PpuMode::OamScan;
                        Ppu::stat_interrupt(memory, interrupts, 0x20);
                    }
                }
            },
            PpuMode::VBlank => {
                if self.cycles >= 456 {
                    self.cycles = self.cycles - 456;
                    self.line = self.line + 1;
                    if self.line >= 154 {
                        self.line = 0;
                        self.mode = PpuMode::OamScan;
                        Ppu::stat_interrupt(memory, interrupts, 0x20);
                    }
                    memory.write_io_direct(0x44, self.line);
                    self.check_lyc_coincidence(memory, interrupts);
                }
            },
        }
        let stat = memory.read_io_direct(0x41);
        memory.write_io_direct(0x41, (stat & 0xFC) | self.mode.to_u8());
    }
}

/// With fewer than 456 cycles pending and at most 24 more, a tick leaves
/// fewer than 456 pending.
pub proof fn lemma_tick_cycles_bound(p: PpuView, m: MemView, n: u32)
    requires p.cycles < 456, n <= 24,
    ensures p.tick_spec(m, n).0.cycles < 456,
{
    reveal(PpuView::tick_spec);
}

/// With the LCD off a tick keeps the last picture, puts the PPU at line 0 in
/// H-blank and sets LY to 0.
pub proof fn law_lcd_off_keeps_picture(p: PpuView, m: MemView, n: u32)
    requires m.wf(), m.io[0x40] & 0x80 == 0,
    ensures
        p.tick_spec(m, n).0.buffer == p.buffer,
        p.tick_spec(m, n).0.line == 0,
        p.tick_spec(m, n).0.mode == PpuMode::HBlank,
        p.tick_spec(m, n).1.io[0x44] == 0,
{
    reveal(PpuView::tick_spec);
}

/// Tile data addressing: with LCDC bit 4 set, row `row` of tile `idx` is at
/// 0x8000 + 16 idx + 2 row; with it clear, tiles 0-127 lie in 0x9000-0x97FF
/// and tiles 128-255 in 0x8800-0x8FFF. Tiles 128-255 are the same in both
/// modes, and tiles 0-127 of the second mode sit 0x1000 above those of the
/// first.
pub proof fn law_tile_data_addressing(lcdc: u8, idx: u8, row: int)
    requires 0 <= row < 8,
    ensures
        lcdc & 0x10 != 0 ==> tile_row_addr(lcdc, idx, row) == 0x8000 + 16 * idx + 2 * row,
        lcdc & 0x10 == 0 && idx < 128 ==> tile_row_addr(lcdc, idx, row) == 0x9000 + 16 * idx + 2 * row,
        lcdc & 0x10 == 0 && idx >= 128 ==> tile_row_addr(lcdc, idx, row) == 0x8800 + 16 * (idx - 128) + 2 * row,
        0x8000 <= tile_row_addr(lcdc, idx, row) < 0x9800,
        idx >= 128 ==> tile_row_addr(lcdc | 0x10, idx, row) == tile_row_addr(lcdc & 0xEF, idx, row),
        idx < 128 ==> tile_row_addr(lcdc & 0xEF, idx, row) == tile_row_addr(lcdc | 0x10, idx, row) + 0x1000,
{
    assert((lcdc | 0x10) & 0x10 != 0 && (lcdc & 0xEF) & 0x10 == 0) by (bit_vector);
}

/// A visible line takes 456 cycles: with the LCD on, OAM scan lasts 80
/// cycles, drawing 172 and H-blank 204, one cycle fewer leaving the mode
/// unchanged; H-blank then moves to OAM scan of the next line (LY follows),
/// or after line 143 to V-blank with a finished frame. A V-blank line also
/// lasts 456 cycles, and after line 153 the frame restarts at line 0.
pub proof fn law_ppu_line_timing(p: PpuView, m: MemView)
    requires m.io[0x40] & 0x80 != 0, m.io.len() == 0x80, p.cycles == 0, p.line < 154,
    ensures
        p.mode == PpuMode::OamScan ==> {
            &&& p.tick_spec(m, 79).0.mode == PpuMode::OamScan
            &&& p.tick_spec(m, 80).0.mode == PpuMode::Drawing && p.tick_spec(m, 80).0.cycles == 0
        },
        p.mode == PpuMode::Drawing ==> {
            &&& p.tick_spec(m, 171).0.mode == PpuMode::Drawing
            &&& p.tick_spec(m, 172).0.mode == PpuMode::HBlank && p.tick_spec(m, 172).0.cycles == 0
            &&& p.tick_spec(m, 172).0.line == p.line
        },
        p.mode == PpuMode::HBlank ==> {
            let (q, mq) = p.tick_spec(m, 204);
            &&& p.tick_spec(m, 203).0.mode == PpuMode::HBlank
            &&& q.line == p.line + 1 && q.cycles == 0 && mq.io[0x44] == p.line + 1
            &&& p.line + 1 < 144 ==> q.mode == PpuMode::OamScan
            &&& p.line + 1 >= 144 ==> q.mode == PpuMode::VBlank && q.frame_ready
        },
        p.mode == PpuMode::VBlank ==> {
            let (q, mq) = p.tick_spec(m, 456);
            &&& p.tick_spec(m, 455).0.mode == PpuMode::VBlank
            &&& q.cycles == 0
            &&& p.line < 153 ==> q.mode == PpuMode::VBlank && q.line == p.line + 1 && mq.io[0x44] == p.line + 1
            &&& p.line == 153 ==> q.mode == PpuMode::OamScan && q.line == 0 && mq.io[0x44] == 0
        },
{
    reveal(PpuView::tick_spec);
}

/// The colour index of a tile pixel takes its high bit from the second
/// byte of the tile row and its low bit from the first, both at bit
/// position `bit` (bit 7 is the leftmost pixel).
pub proof fn law_color_index(low: u8, high: u8, bit: u8)
    requires bit < 8,
    ensures
        color_index(low, high, bit) == 2 * ((high as nat / vstd::arithmetic::power2::pow2(bit as nat)) % 2)
            + (low as nat / vstd::arithmetic::power2::pow2(bit as nat)) % 2,
{
    vstd::bits::lemma_u8_shr_is_div(low, bit);
    vstd::bits::lemma_u8_shr_is_div(high, bit);
    crate::bits::lemma_byte_fields(low >> bit, high >> bit, 0);
    crate::bits::lemma_byte_fields(high >> bit, high >> bit, 0);
}

} // verus!
