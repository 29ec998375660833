//! Pixel colours of the Game Boy Color: tile attributes from VRAM bank 1,
//! RGB555 palettes and the GBC sprite priority rules.

use vstd::prelude::*;
use crate::memory::{Memory, MemView};
use crate::bits::lemma_u8_fields;
use crate::ppu::{Rgba, tile_row_addr, color_index, vram_byte, Sprite, sprite_pixel_index};

verus! {

/// A 5-bit channel widened to 8 bits.
pub open spec fn widen5(c: u8) -> u8 {
    (c << 3u8) | (c >> 2u8)
}

/// RGBA of a little-endian RGB555 colour.
pub open spec fn rgb555(lo: u8, hi: u8) -> Rgba {
    let r5 = lo & 0x1F;
    let g5 = ((lo >> 5u8) | (hi << 3u8)) & 0x1F;
    let b5 = (hi >> 2u8) & 0x1F;
    (widen5(r5), widen5(g5), widen5(b5), 255)
}

/// Colour `ci` of BG palette `p`.
pub open spec fn bg_color(m: MemView, p: int, ci: int) -> Rgba {
    rgb555(m.cgb.bg_palette_ram[p * 8 + ci * 2], m.cgb.bg_palette_ram[p * 8 + ci * 2 + 1])
}

/// Colour `ci` of OBJ palette `p`.
pub open spec fn obj_color(m: MemView, p: int, ci: int) -> Rgba {
    rgb555(m.cgb.obj_palette_ram[p * 8 + ci * 2], m.cgb.obj_palette_ram[p * 8 + ci * 2 + 1])
}

/// A tile map pixel with attributes: `map` is the map entry's address,
/// `row` and `col` the pixel within the tile before flipping. The info byte
/// has bit 0 for colour 0 and bit 1 for the tile's priority flag.
pub open spec fn cgb_tile_pixel(m: MemView, map: u16, row: int, col: int) -> (Rgba, u8) {
    let lcdc = m.io[0x40];
    let idx = vram_byte(m, 0, map);
    let attr = vram_byte(m, 1, map);
    let bank = ((attr >> 3u8) & 1) as int;
    let actual_row = if attr & 0x40 != 0 { 7 - row } else { row };
    let addr = tile_row_addr(lcdc, idx, actual_row);
    let bit = if attr & 0x20 != 0 { col } else { 7 - col };
    let ci = color_index(vram_byte(m, bank, addr), vram_byte(m, bank, (addr + 1) as u16), bit as u8);
    (bg_color(m, (attr & 0x07) as int, ci as int),
        (if ci == 0 { 1u8 } else { 0 }) | (if attr & 0x80 != 0 { 2u8 } else { 0 }))
}

/// Background pixel `sx` of line `line`.
pub open spec fn cgb_bg(m: MemView, line: int, sx: int) -> (Rgba, u8) {
    let lcdc = m.io[0x40];
    let y = (line + m.io[0x42]) % 256;
    let x = (sx + m.io[0x43]) % 256;
    let map: int = (if lcdc & 0x08 != 0 { 0x9C00int } else { 0x9800 }) + (y / 8) * 32 + x / 8;
    cgb_tile_pixel(m, map as u16, y % 8, x % 8)
}

/// Window pixel `sx` on window line `wline`, the window drawn from column
/// `start_x`.
pub open spec fn cgb_window(m: MemView, wline: int, start_x: int, sx: int) -> (Rgba, u8) {
    let lcdc = m.io[0x40];
    let window_x = sx - start_x;
    let map: int = (if lcdc & 0x40 != 0 { 0x9C00int } else { 0x9800 }) + (wline / 8) * 32 + window_x / 8;
    cgb_tile_pixel(m, map as u16, wline % 8, window_x % 8)
}

/// A GBC sprite's colour at `sx`, if it shows: an opaque pixel that wins
/// unless the background is enabled and either the tile has priority or
/// the sprite has BG priority, over a non-zero background pixel.
pub open spec fn cgb_sprite_color(m: MemView, s: Sprite, line: int, sx: int, info: u8) -> Option<Rgba> {
    let ci = sprite_pixel_index(m, s, line, sx, true);
    let show = if m.io[0x40] & 0x01 == 0 {
        true
    } else if info & 0x02 != 0 {
        info & 0x01 != 0
    } else if s.flags & 0x80 != 0 {
        info & 0x01 != 0
    } else {
        true
    };
    if !(s.x - 8 <= sx < s.x) || ci == 0 || !show {
        None
    } else {
        Some(obj_color(m, (s.flags & 0x07) as int, ci as int))
    }
}

/// Convert a little-endian RGB555 pair to RGBA.
pub fn rgb555_to_rgba(lo: u8, hi: u8) -> (r: Rgba)
    ensures r == rgb555(lo, hi),
{
    let r5 = lo & 0x1F;
    let g5 = ((lo >> 5u8) | (hi << 3u8)) & 0x1F;
    let b5 = (hi >> 2u8) & 0x1F;
    ((r5 << 3u8) | (r5 >> 2u8), (g5 << 3u8) | (g5 >> 2u8), (b5 << 3u8) | (b5 >> 2u8), 255)
}

fn cgb_tile_pixel_exec(memory: &Memory, map: u16, row: usize, col: usize) -> (r: (Rgba, u8))
    requires memory.view().wf(), row < 8, col < 8,
    ensures r == cgb_tile_pixel(memory.view(), map, row as int, col as int),
{
    let lcdc = memory.read_io_direct(0x40);
    let idx = memory.read_vram_bank(0, map);
    let attr = memory.read_vram_bank(1, map);
    proof { lemma_u8_fields(attr); }
    let bank = ((attr >> 3u8) & 1) as usize;
    let actual_row = if attr & 0x40 != 0 { 7 - row } else { row };
    let addr = crate::ppu::tile_addr(lcdc, idx, actual_row);
    let bit = if attr & 0x20 != 0 { col } else { 7 - col };
    let low = memory.read_vram_bank(bank, addr);
    let high = memory.read_vram_bank(bank, addr + 1);
    let ci = crate::ppu::pixel_index(low, high, bit as u8);
    let (lo, hi) = memory.read_bg_palette((attr & 0x07) as usize, ci as usize);
    let c0: u8 = if ci == 0 { 1 } else { 0 };
    let pr: u8 = if attr & 0x80 != 0 { 2 } else { 0 };
    (rgb555_to_rgba(lo, hi), c0 | pr)
}

/// Background pixel (see [`cgb_bg`]).
pub fn cgb_bg_pixel(memory: &Memory, line: usize, sx: usize) -> (r: (Rgba, u8))
    requires memory.view().wf(), line < 144, sx < 160,
    ensures r == cgb_bg(memory.view(), line as int, sx as int),
{
    let lcdc = memory.read_io_direct(0x40);
    let y = (line + memory.read_io_direct(0x42) as usize) % 256;
    let x = (sx + memory.read_io_direct(0x43) as usize) % 256;
    let base: usize = if lcdc & 0x08 != 0 { 0x9C00 } else { 0x9800 };
    let map = base + (y / 8) * 32 + x / 8;
    cgb_tile_pixel_exec(memory, map as u16, y % 8, x % 8)
}

/// Window pixel (see [`cgb_window`]).
pub fn cgb_window_pixel(memory: &Memory, wline: u8, start_x: usize, sx: usize) -> (r: (Rgba, u8))
    requires memory.view().wf(), start_x <= sx < 160,
    ensures r == cgb_window(memory.view(), wline as int, start_x as int, sx as int),
{
    let lcdc = memory.read_io_direct(0x40);
    let window_x = sx - start_x;
    let base: usize = if lcdc & 0x40 != 0 { 0x9C00 } else { 0x9800 };
    let map = base + (wline as usize / 8) * 32 + window_x / 8;
    cgb_tile_pixel_exec(memory, map as u16, wline as usize % 8, window_x % 8)
}

/// A sprite's pixel (see [`cgb_sprite_color`]).
pub fn cgb_sprite_pixel(memory: &Memory, s: Sprite, line: usize, sx: usize, info: u8) -> (r: Option<Rgba>)
    requires memory.view().wf(), line < 144, sx < 160, s.height == 8 || s.height == 16,
        s.y - 16 <= line < s.y - 16 + s.height,
    ensures r == cgb_sprite_color(memory.view(), s, line as int, sx as int, info),
{
    if !(s.x as usize <= sx + 8 && sx < s.x as usize) {
        return None;
    }
    let ci = crate::ppu::sprite_index(memory, s, line, sx, true);
    let show = if memory.read_io_direct(0x40) & 0x01 == 0 {
        true
    } else if info & 0x02 != 0 {
        info & 0x01 != 0
    } else if s.flags & 0x80 != 0 {
        info & 0x01 != 0
    } else {
        true
    };
    if ci == 0 || !show {
        return None;
    }
    proof { lemma_u8_fields(s.flags); }
    let (lo, hi) = memory.read_obj_palette((s.flags & 0x07) as usize, ci as usize);
    Some(rgb555_to_rgba(lo, hi))
}

} // verus!
