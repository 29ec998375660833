//! Pixel colours of the monochrome Game Boy (DMG): four greys through the BGP,
//! OBP0 and OBP1 palettes.

use vstd::prelude::*;
use crate::memory::{Memory, MemView};
use crate::bits::lemma_u8_fields;
use crate::ppu::{Rgba, tile_row_addr, color_index, Sprite, sprite_pixel_index};

verus! {

/// Grey of a DMG shade (0 white .. 3 black).
pub open spec fn gray(shade: u8) -> u8 {
    if shade == 0 { 0xFF } else if shade == 1 { 0xAA } else if shade == 2 { 0x55 } else { 0x00 }
}

/// Shade of colour index `ci` through palette register `pal`.
pub open spec fn shade(pal: u8, ci: u8) -> u8 {
    (pal >> (ci * 2)) & 0x03
}

/// Opaque grey pixel.
pub open spec fn gray_rgba(g: u8) -> Rgba {
    (g, g, g, 255)
}

/// Background pixel `sx` of line `line`: its colour and whether it is
/// colour 0 (sprites show through colour 0).
pub open spec fn dmg_bg(m: MemView, line: int, sx: int) -> (Rgba, u8) {
    let lcdc = m.io[0x40];
    let y = (line + m.io[0x42]) % 256;
    let x = (sx + m.io[0x43]) % 256;
    let map: int = (if lcdc & 0x08 != 0 { 0x9C00int } else { 0x9800 }) + (y / 8) * 32 + x / 8;
    let idx = m.read(map as u16);
    let addr = tile_row_addr(lcdc, idx, y % 8);
    let ci = color_index(m.read(addr), m.read((addr + 1) as u16), (7 - x % 8) as u8);
    (gray_rgba(gray(shade(m.io[0x47], ci))), if ci == 0 { 1u8 } else { 0 })
}

/// Window pixel `sx` on window line `wline`, the window starting at screen
/// column `wx` (WX - 7).
pub open spec fn dmg_window(m: MemView, wline: int, wx: int, sx: int) -> (Rgba, u8) {
    let lcdc = m.io[0x40];
    let window_x = sx - wx;
    let map: int = (if lcdc & 0x40 != 0 { 0x9C00int } else { 0x9800 }) + (wline / 8) * 32 + window_x / 8;
    let idx = m.read(map as u16);
    let addr = tile_row_addr(lcdc, idx, wline % 8);
    let ci = color_index(m.read(addr), m.read((addr + 1) as u16), (7 - window_x % 8) as u8);
    (gray_rgba(gray(shade(m.io[0x47], ci))), if ci == 0 { 1u8 } else { 0 })
}

/// A DMG sprite's colour at `sx`, if it draws there: an opaque pixel, not
/// behind a non-zero background pixel when it has BG priority.
pub open spec fn dmg_sprite_color(m: MemView, s: Sprite, line: int, sx: int, info: u8) -> Option<Rgba> {
    let ci = sprite_pixel_index(m, s, line, sx, false);
    if !(s.x - 8 <= sx < s.x) || ci == 0 || (s.flags & 0x80 != 0 && info & 0x01 == 0) {
        None
    } else {
        let pal = if s.flags & 0x10 != 0 { m.io[0x49] } else { m.io[0x48] };
        Some(gray_rgba(gray(shade(pal, ci))))
    }
}

pub fn gray_of(shade: u8) -> (r: u8)
    ensures r == gray(shade),
{
    if shade == 0 { 0xFF } else if shade == 1 { 0xAA } else if shade == 2 { 0x55 } else { 0x00 }
}

/// Shade through a palette register.
pub fn palette_shade(pal: u8, ci: u8) -> (r: u8)
    requires ci <= 3,
    ensures r == shade(pal, ci), r <= 3,
{
    let s = (pal >> (ci * 2)) & 0x03;
    proof { lemma_u8_fields(pal >> (ci * 2)); }
    s
}

/// Background pixel (see [`dmg_bg`]).
pub fn dmg_bg_pixel(memory: &Memory, line: usize, sx: usize) -> (r: (Rgba, u8))
    requires memory.view().wf(), line < 144, sx < 160,
    ensures r == dmg_bg(memory.view(), line as int, sx as int),
{
    let lcdc = memory.read_io_direct(0x40);
    let y = (line + memory.read_io_direct(0x42) as usize) % 256;
    let x = (sx + memory.read_io_direct(0x43) as usize) % 256;
    let base: usize = if lcdc & 0x08 != 0 { 0x9C00 } else { 0x9800 };
    let map = base + (y / 8) * 32 + x / 8;
    let idx = memory.read(map as u16);
    let addr = crate::ppu::tile_addr(lcdc, idx, y % 8);
    let low = memory.read(addr);
    let high = memory.read(addr + 1);
    let ci = crate::ppu::pixel_index(low, high, (7 - x % 8) as u8);
    let g = gray_of(palette_shade(memory.read_io_direct(0x47), ci));
    ((g, g, g, 255), if ci == 0 { 1 } else { 0 })
}

/// Window pixel (see [`dmg_window`]).
pub fn dmg_window_pixel(memory: &Memory, wline: u8, wx: i16, sx: usize) -> (r: (Rgba, u8))
    requires memory.view().wf(), sx < 160, -7 <= wx < 160, wx <= sx,
    ensures r == dmg_window(memory.view(), wline as int, wx as int, sx as int),
{
    let lcdc = memory.read_io_direct(0x40);
    let window_x = (sx as i16 - wx) as usize;
    let base: usize = if lcdc & 0x40 != 0 { 0x9C00 } else { 0x9800 };
    let map = base + (wline as usize / 8) * 32 + window_x / 8;
    let idx = memory.read(map as u16);
    let addr = crate::ppu::tile_addr(lcdc, idx, wline as usize % 8);
    let low = memory.read(addr);
    let high = memory.read(addr + 1);
    let ci = crate::ppu::pixel_index(low, high, (7 - window_x % 8) as u8);
    let g = gray_of(palette_shade(memory.read_io_direct(0x47), ci));
    ((g, g, g, 255), if ci == 0 { 1 } else { 0 })
}

/// A sprite's pixel (see [`dmg_sprite_color`]).
pub fn dmg_sprite_pixel(memory: &Memory, s: Sprite, line: usize, sx: usize, info: u8) -> (r: Option<Rgba>)
    requires memory.view().wf(), line < 144, sx < 160, s.height == 8 || s.height == 16,
        s.y - 16 <= line < s.y - 16 + s.height,
    ensures r == dmg_sprite_color(memory.view(), s, line as int, sx as int, info),
{
    if !(s.x as usize <= sx + 8 && sx < s.x as usize) {
        return None;
    }
    let ci = crate::ppu::sprite_index(memory, s, line, sx, false);
    if ci == 0 || (s.flags & 0x80 != 0 && info & 0x01 == 0) {
        return None;
    }
    let pal = if s.flags & 0x10 != 0 { memory.read_io_direct(0x49) } else { memory.read_io_direct(0x48) };
    let g = gray_of(palette_shade(pal, ci));
    Some((g, g, g, 255))
}

/// A DMG palette register holds four 2-bit shades, colour index `ci` taking
/// bits 2ci and 2ci + 1; shade 0 is white (0xFF) and each step darkens by
/// 0x55 down to black.
pub proof fn law_dmg_palette(pal: u8, ci: u8)
    requires ci <= 3,
    ensures
        shade(pal, ci) == ((pal as int) / (if ci == 0 { 1int } else if ci == 1 { 4 } else if ci == 2 { 16 } else { 64 })) % 4,
        gray(shade(pal, ci)) == 255 - 0x55 * shade(pal, ci),
{
    let sh: u8 = (ci * 2) as u8;
    vstd::bits::lemma_u8_shr_is_div(pal, sh);
    vstd::arithmetic::power2::lemma2_to64();
    let x = pal >> sh;
    crate::bits::lemma_byte_fields(x, x, x);
}

/// Horizontal scrolling: raising SCX by one shifts the background one
/// pixel left, so pixel `sx` before is pixel `sx - 1` after; likewise
/// raising SCY by one moves line `line` of the background up to line
/// `line - 1`.
pub proof fn law_dmg_scroll(m: MemView, line: int, sx: int)
    requires m.wf(), 0 <= line, 0 <= sx,
    ensures
        sx >= 1 ==> dmg_bg(m, line, sx)
            == dmg_bg(MemView { io: m.io.update(0x43, ((m.io[0x43] + 1) % 256) as u8), ..m }, line, sx - 1),
        line >= 1 ==> dmg_bg(m, line, sx)
            == dmg_bg(MemView { io: m.io.update(0x42, ((m.io[0x42] + 1) % 256) as u8), ..m }, line - 1, sx),
{
    let m2 = MemView { io: m.io.update(0x43, ((m.io[0x43] + 1) % 256) as u8), ..m };
    let m3 = MemView { io: m.io.update(0x42, ((m.io[0x42] + 1) % 256) as u8), ..m };
    assert((sx - 1 + (m.io[0x43] + 1) % 256) % 256 == (sx + m.io[0x43]) % 256);
    assert((line - 1 + (m.io[0x42] + 1) % 256) % 256 == (line + m.io[0x42]) % 256);
    assert forall|a: u16| 0x8000 <= a < 0xA000 implies #[trigger] m2.read(a) == m.read(a) && m3.read(a) == m.read(a) by {
    }
}

} // verus!
