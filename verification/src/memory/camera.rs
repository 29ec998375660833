//! Game Boy Camera (Pocket Camera) sensor registers and photo storage.
//!
//! SRAM layout (128 KB = 16 banks of 8 KB):
//! - 0x00100-0x00EFF: active capture (slot 0), 128x112 pixels as 2bpp tiles
//! - 0x011B2-0x011CF: state vector, one byte per saved slot (0xFF = empty)
//! - 0x011D5-0x011D6: state vector checksum (byte sum, byte xor)
//! - 0x02000-0x1FFFF: photo slots 1-30, 4 KB each, two per bank
//!
//! The analogue part of a capture (exposure, gain, voltage offset and edge
//! enhancement of the webcam image) is computed by the host; this module
//! dithers the resulting grey levels with the register matrix and stores the
//! tiles.

use vstd::prelude::*;
use crate::bits::{lemma_u8_fields, lemma_bit_of, lemma_unpack8, lemma_two_bits};

verus! {

pub const RAM_BANK_SIZE: usize = 0x2000;
/// Size of the cartridge RAM.
pub const CAMERA_RAM_SIZE: usize = 0x20000;
/// Start of the 30-byte state vector in SRAM bank 0.
pub const STATE_VECTOR_OFFSET: usize = 0x11B2;
pub const NUM_PHOTO_SLOTS: usize = 30;
pub const CHECKSUM_OFFSET: usize = 0x11D5;
/// Width and height of a photo in pixels.
pub const PHOTO_WIDTH: usize = 128;
pub const PHOTO_HEIGHT: usize = 112;
/// Number of pixels of a photo.
pub const PHOTO_PIXELS: usize = 14336;
/// Bytes of 2bpp tile data of a photo (16 x 14 tiles of 16 bytes).
pub const PHOTO_BYTES: usize = 3584;
/// Bytes of an RGBA photo.
pub const PHOTO_RGBA_BYTES: usize = 57344;

/// Game Boy Camera sensor state, hardware registers and photo storage.
pub struct Camera {
    /// Hardware registers A000-A07F (selected by RAM bank 0x10 and up).
    pub regs: [u8; 0x80],
    /// Raw 8-bit greyscale webcam image, 128x112 pixels (0 = black).
    pub image: Vec<u8>,
    pub image_ready: bool,
    pub capture_dirty: bool,
    /// When set, replaces the exposure programmed in registers A002-A003.
    pub exposure_override: Option<u16>,
    /// A capture was started by register A000 and awaits its sensor image;
    /// the flag is whether the output is inverted.
    pub pending_capture: Option<bool>,
    /// 128 KB cartridge RAM.
    pub ram: Vec<u8>,
}

/// SRAM offset of photo slot `slot` (0 = active capture).
pub open spec fn slot_offset(slot: u8) -> int {
    if slot == 0 {
        0x100
    } else {
        ((slot - 1) / 2 + 1) * 0x2000 + ((slot - 1) % 2) * 0x1000
    }
}

/// State vector entry of slot `slot` (1-30).
pub open spec fn state_index(slot: u8) -> int {
    0x11B2 + slot - 1
}

/// Bit `k` (0 = least significant) of `b`.
pub open spec fn bit_of(b: u8, k: int) -> u8 {
    (b >> (k as u8)) & 1
}

/// 2-bit colour of pixel (`px`, `py`) of the photo whose tiles start at `off`.
pub open spec fn tile_color(ram: Seq<u8>, off: int, px: int, py: int) -> u8 {
    let base = off + ((py / 8) * 16 + px / 8) * 16 + (py % 8) * 2;
    let k = 7 - px % 8;
    (bit_of(ram[base + 1], k) * 2 + bit_of(ram[base], k)) as u8
}

/// Grey level shown for a 2-bit colour.
pub open spec fn gray_of(color: u8) -> u8 {
    if color == 0 { 0xFF } else if color == 1 { 0xAA } else if color == 2 { 0x55 } else { 0x00 }
}

/// 2-bit colour nearest to a grey level (0xC0 and up white, below 0x40 black).
pub open spec fn color_of_gray(gray: u8) -> u8 {
    if gray >= 0xC0 { 0 } else if gray >= 0x80 { 1 } else if gray >= 0x40 { 2 } else { 3 }
}

/// The RGBA image of a photo: each pixel's grey in R, G and B, alpha 255.
pub open spec fn photo_rgba(ram: Seq<u8>, off: int) -> Seq<u8> {
    Seq::new(57344, |i: int| {
        let p = i / 4;
        if i % 4 == 3 { 255u8 } else { gray_of(tile_color(ram, off, p % 128, p / 128)) }
    })
}

/// What `decode_photo` returns: nothing for an erased slot 1-30 or a slot
/// beyond the RAM, else the RGBA image.
pub open spec fn decoded_photo(ram: Seq<u8>, slot: u8) -> Seq<u8> {
    if 1 <= slot <= 30 && state_index(slot) < ram.len() && ram[state_index(slot)] == 0xFF {
        Seq::empty()
    } else if slot_offset(slot) + 3584 > ram.len() {
        Seq::empty()
    } else {
        photo_rgba(ram, slot_offset(slot))
    }
}

/// Bits `0..n` of the row of eight pixels starting at (`px0`, `py`) on bit
/// plane `plane` of their 2-bit colours, packed most significant first.
pub open spec fn packed_bits(colors: spec_fn(int, int) -> u8, px0: int, py: int, plane: int, n: int) -> int
    decreases n,
{
    if n <= 0 {
        0
    } else {
        packed_bits(colors, px0, py, plane, n - 1) * 2 + bit_of(colors(px0 + n - 1, py), plane)
    }
}

/// Byte `b` (0..3584) of the tile data of an image given by per-pixel colours.
pub open spec fn tile_byte(colors: spec_fn(int, int) -> u8, b: int) -> u8 {
    let tile = b / 16;
    packed_bits(colors, (tile % 16) * 8, (tile / 16) * 8 + (b % 16) / 2, b % 2, 8) as u8
}

/// 2-bit colour of RGBA pixel (`px`, `py`), taken from its red channel.
pub open spec fn rgba_color(rgba: Seq<u8>, px: int, py: int) -> u8 {
    color_of_gray(rgba[(py * 128 + px) * 4])
}

/// Number of non-erased entries among the first `n` of the state vector.
pub open spec fn occupied_count(ram: Seq<u8>, n: int) -> int
    decreases n,
{
    if n <= 0 {
        0
    } else {
        occupied_count(ram, n - 1) + if ram[0x11B2 + n - 1] != 0xFF { 1int } else { 0 }
    }
}

/// Byte sum (mod 256) of the first `n` state vector entries.
pub open spec fn state_sum(ram: Seq<u8>, n: int) -> u8
    decreases n,
{
    if n <= 0 { 0 } else { ((state_sum(ram, n - 1) + ram[0x11B2 + n - 1]) % 256) as u8 }
}

/// Byte xor of the first `n` state vector entries.
pub open spec fn state_xor(ram: Seq<u8>, n: int) -> u8
    decreases n,
{
    if n <= 0 { 0 } else { state_xor(ram, n - 1) ^ ram[0x11B2 + n - 1] }
}

/// RAM with the state vector checksum brought up to date.
pub open spec fn with_checksum(ram: Seq<u8>) -> Seq<u8> {
    ram.update(0x11D5, state_sum(ram, 30)).update(0x11D6, state_xor(ram, 30))
}

/// RAM after state vector entry `slot` is set to `value` (checksum updated).
pub open spec fn state_entry_set(ram: Seq<u8>, slot: u8, value: u8) -> Seq<u8> {
    if slot == 0 || slot > 30 { ram } else { with_checksum(ram.update(state_index(slot), value)) }
}

/// Smallest of the 16 dither thresholds of channel `ch` at positions `0..n`,
/// starting from 0xFF.
pub open spec fn min_threshold(regs: Seq<u8>, ch: int, n: int) -> u8
    decreases n,
{
    if n <= 0 {
        0xFF
    } else {
        let prev = min_threshold(regs, ch, n - 1);
        let v = regs[6 + (n - 1) * 3 + ch];
        if v < prev { v } else { prev }
    }
}

/// First three thresholds of contrast level `level` of the low-light table.
pub open spec fn low_light(level: int) -> (u8, u8, u8) {
    if level == 0 { (0x80, 0x94, 0xDC) }
    else if level == 1 { (0x82, 0x95, 0xD2) }
    else if level == 2 { (0x84, 0x96, 0xCA) }
    else if level == 3 { (0x86, 0x96, 0xC4) }
    else if level == 4 { (0x88, 0x97, 0xBE) }
    else if level == 5 { (0x8A, 0x97, 0xB8) }
    else if level == 6 { (0x8B, 0x98, 0xB2) }
    else if level == 7 { (0x8C, 0x98, 0xAC) }
    else if level == 8 { (0x8D, 0x98, 0xAA) }
    else if level == 9 { (0x8E, 0x98, 0xA8) }
    else if level == 10 { (0x8F, 0x98, 0xA6) }
    else if level == 11 { (0x90, 0x98, 0xA4) }
    else if level == 12 { (0x92, 0x98, 0xA1) }
    else if level == 13 { (0x94, 0x98, 0x9D) }
    else if level == 14 { (0x96, 0x98, 0x99) }
    else { (0x98, 0x98, 0x98) }
}

/// First three thresholds of contrast level `level` of the high-light table.
pub open spec fn high_light(level: int) -> (u8, u8, u8) {
    if level == 0 { (0x80, 0x8F, 0xD0) }
    else if level == 1 { (0x82, 0x90, 0xC8) }
    else if level == 2 { (0x84, 0x90, 0xC0) }
    else if level == 3 { (0x85, 0x91, 0xB8) }
    else if level == 4 { (0x86, 0x91, 0xB1) }
    else if level == 5 { (0x87, 0x92, 0xAA) }
    else if level == 6 { (0x88, 0x92, 0xA5) }
    else if level == 7 { (0x89, 0x92, 0xA2) }
    else if level == 8 { (0x8A, 0x92, 0xA1) }
    else if level == 9 { (0x8B, 0x92, 0xA0) }
    else if level == 10 { (0x8C, 0x92, 0x9E) }
    else if level == 11 { (0x8D, 0x92, 0x9C) }
    else if level == 12 { (0x8E, 0x92, 0x9B) }
    else if level == 13 { (0x8F, 0x92, 0x99) }
    else if level == 14 { (0x90, 0x92, 0x97) }
    else { (0x92, 0x92, 0x92) }
}

/// First level at or after `level` whose table row matches `t`, or -1.
pub open spec fn find_level(t: (u8, u8, u8), low: bool, level: int) -> int
    decreases 16 - level,
{
    if level >= 16 || level < 0 {
        -1
    } else if (if low { low_light(level) } else { high_light(level) }) == t {
        level
    } else {
        find_level(t, low, level + 1)
    }
}

/// The contrast level of minimum thresholds `t`: low-light table first.
pub open spec fn contrast_of(t: (u8, u8, u8)) -> int {
    if find_level(t, true, 0) >= 0 { find_level(t, true, 0) } else { find_level(t, false, 0) }
}

/// Dither threshold `t` (0-2) at matrix position `pos` (0-15).
pub open spec fn threshold(regs: Seq<u8>, pos: int, t: int) -> u8 {
    regs[6 + pos * 3 + t]
}

/// Whether any of the 48 dither thresholds is non-zero.
pub open spec fn dither_active(regs: Seq<u8>) -> bool {
    exists|i: int| 6 <= i < 0x36 && regs[i] != 0
}

/// 2-bit colour of a processed grey level at matrix position `pos`.
///
/// With an active dither matrix the thresholds of that position split the
/// range; otherwise the inverted level is divided into four bands. Negative
/// output (register A001 bit 1, or `invert`) swaps the colours.
pub open spec fn dithered_color(regs: Seq<u8>, pixel: u8, pos: int, invert: bool) -> u8 {
    let c: u8 = if dither_active(regs) {
        if pixel < threshold(regs, pos, 0) { 0 }
        else if pixel < threshold(regs, pos, 1) { 1 }
        else if pixel < threshold(regs, pos, 2) { 2 }
        else { 3 }
    } else {
        let inv = 255 - pixel;
        if inv / 64 < 3 { (inv / 64) as u8 } else { 3 }
    };
    if regs[1] & 0x02 != 0 || invert { (3 - c) as u8 } else { c }
}

/// Camera SRAM `ram` after a capture of `processed` with registers `regs`:
/// the 3584 tile bytes at 0x0100 hold the dithered image, the rest is kept.
pub open spec fn captured_ram(ram: Seq<u8>, regs: Seq<u8>, processed: Seq<u8>, invert: bool) -> Seq<u8> {
    Seq::new(0x20000, |i: int|
        if 0x100 <= i < 0x100 + 3584 {
            tile_byte(capture_colors(regs, processed, invert), i - 0x100)
        } else {
            ram[i]
        })
}

/// Colours of the pixels of a captured image.
pub open spec fn capture_colors(regs: Seq<u8>, processed: Seq<u8>, invert: bool) -> spec_fn(int, int) -> u8 {
    |px: int, py: int| dithered_color(regs, processed[py * 128 + px], (py % 4) * 4 + px % 4, invert)
}

/// 2-bit colours of the pixels of an RGBA image, by the grey of the red channel.
pub open spec fn rgba_color_seq(rgba: Seq<u8>) -> Seq<u8> {
    Seq::new(14336, |i: int| color_of_gray(rgba[i * 4]))
}

/// Colours of the pixels of an RGBA image.
pub open spec fn rgba_colors(rgba: Seq<u8>) -> spec_fn(int, int) -> u8 {
    seq_colors(rgba_color_seq(rgba))
}

/// Colours of the pixels of a 128-pixel-wide image stored row by row.
pub open spec fn seq_colors(colors: Seq<u8>) -> spec_fn(int, int) -> u8 {
    |px: int, py: int| colors[py * 128 + px]
}

/// RAM with `tiles` (3584 bytes of tile data) stored at `off`.
pub open spec fn tiles_stored(ram: Seq<u8>, off: int, colors: spec_fn(int, int) -> u8) -> Seq<u8> {
    Seq::new(ram.len(), |i: int| if off <= i < off + 3584 { tile_byte(colors, i - off) } else { ram[i] })
}

/// RAM with the 3584 bytes at `off` zeroed.
pub open spec fn tiles_cleared(ram: Seq<u8>, off: int) -> Seq<u8> {
    Seq::new(ram.len(), |i: int| if off <= i < off + 3584 { 0u8 } else { ram[i] })
}

/// 2 to the power `n`, for the byte-building loops.
pub open spec fn pow2_u8(n: int) -> int
    decreases n,
{
    if n <= 0 { 1 } else { 2 * pow2_u8(n - 1) }
}

proof fn lemma_pow2_le(n: int)
    requires 0 <= n <= 7,
    ensures pow2_u8(n) <= 128,
{
    reveal_with_fuel(pow2_u8, 8);
}

pub struct CameraView {
    pub regs: Seq<u8>,
    pub image: Seq<u8>,
    pub image_ready: bool,
    pub capture_dirty: bool,
    pub exposure_override: Option<u16>,
    pub pending_capture: Option<bool>,
    pub ram: Seq<u8>,
}

impl CameraView {
    pub open spec fn wf(self) -> bool {
        self.regs.len() == 0x80 && self.image.len() == 14336 && self.ram.len() == 0x20000
    }
}

/// Grey level of a 2-bit colour.
pub fn gray_value(color: u8) -> (r: u8)
    ensures r == gray_of(color),
{
    if color == 0 { 0xFF } else if color == 1 { 0xAA } else if color == 2 { 0x55 } else { 0x00 }
}

/// 2-bit colour of a grey level.
pub fn gray_color(gray: u8) -> (r: u8)
    ensures r == color_of_gray(gray), r <= 3,
{
    if gray >= 0xC0 { 0 } else if gray >= 0x80 { 1 } else if gray >= 0x40 { 2 } else { 3 }
}

/// Store the tiles of a 128x112 image of 2-bit colours at `off` in `ram`.
fn pack_tiles(ram: &mut Vec<u8>, off: usize, colors: &Vec<u8>)
    requires
        off + 3584 <= old(ram)@.len(),
        off <= 0x20000,
        colors@.len() == 14336,
        forall|i: int| 0 <= i < 14336 ==> colors@[i] <= 3,
    ensures
        final(ram)@ == tiles_stored(old(ram)@, off as int, seq_colors(colors@)),
{
    let ghost cf = seq_colors(colors@);
    let mut b: usize = 0;
    while b < PHOTO_BYTES
        invariant
            b <= 3584,
            off <= 0x20000,
            off + 3584 <= ram@.len(),
            ram@.len() == old(ram)@.len(),
            colors@.len() == 14336,
            forall|i: int| 0 <= i < 14336 ==> colors@[i] <= 3,
            cf == seq_colors(colors@),
            forall|j: int| 0 <= j < b ==> ram@[off + j] == tile_byte(cf, j),
            forall|j: int| 0 <= j < ram@.len() && !(off <= j < off + b) ==> ram@[j] == old(ram)@[j],
        decreases 3584 - b,
    {
        let tile = b / 16;
        let py = (tile / 16) * 8 + (b % 16) / 2;
        let px0 = (tile % 16) * 8;
        let plane = (b % 2) as u8;
        let mut byte: u8 = 0;
        let mut c: usize = 0;
        while c < 8
            invariant
                c <= 8,
                py < 112,
                px0 + 8 <= 128,
                plane <= 1,
                colors@.len() == 14336,
                byte == packed_bits(cf, px0 as int, py as int, plane as int, c as int),
                byte < pow2_u8(c as int),
                cf == seq_colors(colors@),
            decreases 8 - c,
        {
            let color = colors[py * PHOTO_WIDTH + px0 + c];
            proof { lemma_bit_of(color, plane); lemma_pow2_le(c as int); }
            let bit = (color >> plane) & 1;
            assert(bit == bit_of(cf(px0 + c, py as int), plane as int));
            byte = byte * 2 + bit;
            c = c + 1;
        }
        assert(byte == tile_byte(cf, b as int));
        ram.set(off + b, byte);
        b = b + 1;
    }
    assert(ram@ =~= tiles_stored(old(ram)@, off as int, cf));
}

/// An erased slot decodes to nothing.
pub proof fn law_cleared_slot_decodes_empty(ram: Seq<u8>, slot: u8)
    requires ram.len() == 0x20000, 1 <= slot <= 30,
    ensures decoded_photo(state_entry_set(tiles_cleared(ram, slot_offset(slot)), slot, 0xFF), slot) == Seq::<u8>::empty(),
{
    let r1 = tiles_cleared(ram, slot_offset(slot));
    let r2 = r1.update(state_index(slot), 0xFF);
    assert(with_checksum(r2)[state_index(slot)] == 0xFF);
}

/// Bit `7 - c` of a packed tile row byte is bit `plane` of pixel `c`.
proof fn lemma_unpack_row(colors: spec_fn(int, int) -> u8, px0: int, py: int, plane: int, c: int)
    requires 0 <= c < 8, 0 <= plane <= 1,
    ensures
        0 <= packed_bits(colors, px0, py, plane, 8) < 256,
        bit_of(packed_bits(colors, px0, py, plane, 8) as u8, 7 - c) == bit_of(colors(px0 + c, py), plane),
{
    let bb = |j: int| bit_of(colors(px0 + j, py), plane);
    assert forall|j: int| 0 <= j < 8 implies #[trigger] bb(j) <= 1 by {
        lemma_bit_of(colors(px0 + j, py), plane as u8);
    }
    assert(bb(0) <= 1 && bb(1) <= 1 && bb(2) <= 1 && bb(3) <= 1 && bb(4) <= 1 && bb(5) <= 1 && bb(6) <= 1 && bb(7) <= 1);
    reveal_with_fuel(packed_bits, 9);
    let pi = packed_bits(colors, px0, py, plane, 8);
    assert(pi == ((((((bb(0) * 2 + bb(1)) * 2 + bb(2)) * 2 + bb(3)) * 2 + bb(4)) * 2 + bb(5)) * 2 + bb(6)) * 2 + bb(7));
    let p = pi as u8;
    lemma_unpack8(bb(0), bb(1), bb(2), bb(3), bb(4), bb(5), bb(6), bb(7), p);
}

/// Decoding a slot just encoded gives each pixel the grey of the colour its
/// red channel was quantized to.
pub proof fn law_encode_then_decode(ram: Seq<u8>, slot: u8, rgba: Seq<u8>)
    requires ram.len() == 0x20000, 1 <= slot <= 30, rgba.len() == 57344,
    ensures
        decoded_photo(state_entry_set(tiles_stored(ram, slot_offset(slot), rgba_colors(rgba)), slot, (slot - 1) as u8), slot)
            == Seq::new(57344, |i: int| if i % 4 == 3 { 255u8 } else { gray_of(color_of_gray(rgba[(i / 4) * 4])) }),
{
    let off = slot_offset(slot);
    let colors = rgba_colors(rgba);
    let r1 = tiles_stored(ram, off, colors);
    let r2 = state_entry_set(r1, slot, (slot - 1) as u8);
    assert(r2[state_index(slot)] == (slot - 1) as u8);
    assert(0x2000 <= off && off + 3584 <= 0x20000);
    assert forall|i: int| off <= i < off + 3584 implies r2[i] == r1[i] by {}
    let expected = Seq::new(57344, |i: int| if i % 4 == 3 { 255u8 } else { gray_of(color_of_gray(rgba[(i / 4) * 4])) });
    assert forall|i: int| 0 <= i < 57344 implies #[trigger] photo_rgba(r2, off)[i] == expected[i] by {
        if i % 4 != 3 {
            let p = i / 4;
            let px = p % 128;
            let py = p / 128;
            let tile = (py / 8) * 16 + px / 8;
            let b = tile * 16 + (py % 8) * 2;
            assert(0 <= b && b + 1 < 3584);
            assert(b / 16 == tile && (b % 16) / 2 == py % 8 && b % 2 == 0);
            assert((b + 1) / 16 == tile && ((b + 1) % 16) / 2 == py % 8 && (b + 1) % 2 == 1);
            assert((tile % 16) * 8 + px % 8 == px);
            assert((tile / 16) * 8 + py % 8 == py);
            lemma_unpack_row(colors, (tile % 16) * 8, py, 0, px % 8);
            lemma_unpack_row(colors, (tile % 16) * 8, py, 1, px % 8);
            let c = colors(px, py);
            assert(c == color_of_gray(rgba[p * 4]));
            lemma_two_bits(c);
        }
    }
    assert(decoded_photo(r2, slot) =~= expected);
}

/// A contrast lookup row, as an executable value.
fn low_light_row(level: usize) -> (r: (u8, u8, u8))
    ensures r == low_light(level as int),
{
    match level {
        0 => (0x80, 0x94, 0xDC),
        1 => (0x82, 0x95, 0xD2),
        2 => (0x84, 0x96, 0xCA),
        3 => (0x86, 0x96, 0xC4),
        4 => (0x88, 0x97, 0xBE),
        5 => (0x8A, 0x97, 0xB8),
        6 => (0x8B, 0x98, 0xB2),
        7 => (0x8C, 0x98, 0xAC),
        8 => (0x8D, 0x98, 0xAA),
        9 => (0x8E, 0x98, 0xA8),
        10 => (0x8F, 0x98, 0xA6),
        11 => (0x90, 0x98, 0xA4),
        12 => (0x92, 0x98, 0xA1),
        13 => (0x94, 0x98, 0x9D),
        14 => (0x96, 0x98, 0x99),
        _ => (0x98, 0x98, 0x98),
    }
}

fn high_light_row(level: usize) -> (r: (u8, u8, u8))
    ensures r == high_light(level as int),
{
    match level {
        0 => (0x80, 0x8F, 0xD0),
        1 => (0x82, 0x90, 0xC8),
        2 => (0x84, 0x90, 0xC0),
        3 => (0x85, 0x91, 0xB8),
        4 => (0x86, 0x91, 0xB1),
        5 => (0x87, 0x92, 0xAA),
        6 => (0x88, 0x92, 0xA5),
        7 => (0x89, 0x92, 0xA2),
        8 => (0x8A, 0x92, 0xA1),
        9 => (0x8B, 0x92, 0xA0),
        10 => (0x8C, 0x92, 0x9E),
        11 => (0x8D, 0x92, 0x9C),
        12 => (0x8E, 0x92, 0x9B),
        13 => (0x8F, 0x92, 0x99),
        14 => (0x90, 0x92, 0x97),
        _ => (0x92, 0x92, 0x92),
    }
}

/// SRAM offset of a photo slot (0 = active capture).
pub fn photo_offset(slot: u8) -> (r: usize)
    ensures r == slot_offset(slot),
{
    if slot == 0 {
        0x100
    } else {
        let adjusted = (slot - 1) as usize;
        (adjusted / 2 + 1) * RAM_BANK_SIZE + (adjusted % 2) * 0x1000
    }
}

impl Camera {
    pub open spec fn view(&self) -> CameraView {
        CameraView {
            regs: self.regs@,
            image: self.image@,
            image_ready: self.image_ready,
            capture_dirty: self.capture_dirty,
            exposure_override: self.exposure_override,
            pending_capture: self.pending_capture,
            ram: self.ram@,
        }
    }

    /// Registers, image and RAM all zero; nothing captured.
    pub open spec fn new_view() -> CameraView {
        CameraView {
            regs: Seq::new(0x80, |i: int| 0u8),
            image: Seq::new(14336, |i: int| 0u8),
            image_ready: false,
            capture_dirty: false,
            exposure_override: None,
            pending_capture: None,
            ram: Seq::new(0x20000, |i: int| 0u8),
        }
    }

    pub fn new() -> (r: Self)
        ensures
            r.view() == Camera::new_view(),
            r.view().wf(),
    {
        let r = Camera {
            regs: [0; 0x80],
            image: vec![0u8; PHOTO_PIXELS],
            image_ready: false,
            capture_dirty: false,
            exposure_override: None,
            pending_capture: None,
            ram: vec![0u8; CAMERA_RAM_SIZE],
        };
        assert(r.regs@ =~= Seq::new(0x80, |i: int| 0u8));
        assert(r.image@ =~= Seq::new(14336, |i: int| 0u8));
        assert(r.ram@ =~= Seq::new(0x20000, |i: int| 0u8));
        r
    }

    /// Set the webcam image (128x112 greyscale; extra bytes are ignored).
    pub fn set_image(&mut self, data: &[u8])
        requires
            old(self).view().wf(),
            data@.len() >= 14336,
        ensures
            final(self).view() == (CameraView {
                image: data@.subrange(0, 14336), image_ready: true, ..old(self).view()
            }),
    {
        let mut i: usize = 0;
        while i < PHOTO_PIXELS
            invariant
                data@.len() >= 14336,
                i <= 14336,
                self.image@.len() == 14336,
                forall|j: int| 0 <= j < i ==> self.image@[j] == data@[j],
                self.view() == (CameraView { image: self.image@, ..old(self).view() }),
            decreases 14336 - i,
        {
            self.image.set(i, data[i]);
            i = i + 1;
        }
        self.image_ready = true;
        assert(self.image@ =~= data@.subrange(0, 14336));
    }

    /// Camera register `index & 0x7F`.
    pub fn reg(&self, index: u8) -> (r: u8)
        ensures r == self.regs@[(index % 128) as int],
    {
        proof { lemma_u8_fields(index); }
        self.regs[(index & 0x7F) as usize]
    }

    pub fn set_exposure_override(&mut self, value: Option<u16>)
        ensures final(self).view() == (CameraView { exposure_override: value, ..old(self).view() }),
    {
        self.exposure_override = value;
    }

    pub fn is_image_ready(&self) -> (r: bool)
        ensures r == self.image_ready,
    {
        self.image_ready
    }

    pub fn is_capture_dirty(&self) -> (r: bool)
        ensures r == self.capture_dirty,
    {
        self.capture_dirty
    }

    pub fn clear_capture_dirty(&mut self)
        ensures final(self).view() == (CameraView { capture_dirty: false, ..old(self).view() }),
    {
        self.capture_dirty = false;
    }

    /// The 3584 bytes of tile data of the active capture (SRAM 0x0100).
    pub fn capture_sram(&self) -> (r: &[u8])
        requires self.view().wf(),
        ensures r@ == self.ram@.subrange(0x100int, 0x100int + 3584),
    {
        vstd::slice::slice_subrange(self.ram.as_slice(), 0x100, 0x100 + PHOTO_BYTES)
    }

    /// Whether any dither threshold register (A006-A035) is non-zero.
    pub fn is_dither_active(&self) -> (r: bool)
        ensures r == dither_active(self.regs@),
    {
        let mut i: usize = 6;
        while i < 0x36
            invariant
                6 <= i <= 0x36,
                self.regs@.len() == 0x80,
                forall|j: int| 6 <= j < i ==> self.regs@[j] == 0,
            decreases 0x36 - i,
        {
            if self.regs[i] != 0 {
                return true;
            }
            i = i + 1;
        }
        false
    }

    /// Colour of a processed grey level at dither position `pos`
    /// (see [`dithered_color`]).
    pub fn dither(&self, pixel: u8, pos: usize, active: bool, invert: bool) -> (r: u8)
        requires
            pos < 16,
            active == dither_active(self.regs@),
        ensures
            r == dithered_color(self.regs@, pixel, pos as int, invert),
            r <= 3,
    {
        let c: u8 = if active {
            if pixel < self.regs[6 + pos * 3] {
                0
            } else if pixel < self.regs[6 + pos * 3 + 1] {
                1
            } else if pixel < self.regs[6 + pos * 3 + 2] {
                2
            } else {
                3
            }
        } else {
            let inv = 255 - pixel;
            if inv / 64 < 3 { inv / 64 } else { 3 }
        };
        if self.regs[1] & 0x02 != 0 || invert { 3 - c } else { c }
    }

    /// Store a capture: dither the sensor output `processed` (128x112 grey
    /// levels) with the register matrix and write its tiles to SRAM 0x0100.
    pub fn store_capture(&mut self, processed: &[u8], invert: bool)
        requires
            old(self).view().wf(),
            processed@.len() == 14336,
        ensures
            final(self).view() == (CameraView {
                ram: captured_ram(old(self).ram@, old(self).regs@, processed@, invert),
                ..old(self).view()
            }),
    {
        let active = self.is_dither_active();
        let ghost colors = capture_colors(old(self).regs@, processed@, invert);
        let mut b: usize = 0;
        while b < PHOTO_BYTES
            invariant
                b <= 3584,
                processed@.len() == 14336,
                active == dither_active(old(self).regs@),
                colors == capture_colors(old(self).regs@, processed@, invert),
                self.ram@.len() == 0x20000,
                self.view() == (CameraView { ram: self.ram@, ..old(self).view() }),
                forall|j: int| 0 <= j < b ==> self.ram@[0x100 + j] == tile_byte(colors, j),
                forall|j: int| 0 <= j < 0x20000 && !(0x100 <= j < 0x100 + b) ==> self.ram@[j] == old(self).ram@[j],
            decreases 3584 - b,
        {
            let tile = b / 16;
            let py = (tile / 16) * 8 + (b % 16) / 2;
            let px0 = (tile % 16) * 8;
            let plane = (b % 2) as u8;
            let mut byte: u8 = 0;
            let mut c: usize = 0;
            while c < 8
                invariant
                    c <= 8,
                    py < 112,
                    px0 + 8 <= 128,
                    plane <= 1,
                    processed@.len() == 14336,
                    active == dither_active(self.regs@),
                    self.regs@ == old(self).regs@,
                    self.regs@.len() == 0x80,
                    byte == packed_bits(colors, px0 as int, py as int, plane as int, c as int),
                    byte < pow2_u8(c as int),
                    colors == capture_colors(old(self).regs@, processed@, invert),
                decreases 8 - c,
            {
                let px = px0 + c;
                let pos = (py % 4) * 4 + px % 4;
                let color = self.dither(processed[py * PHOTO_WIDTH + px], pos, active, invert);
                proof { lemma_bit_of(color, plane); lemma_pow2_le(c as int); }
                let bit = (color >> plane) & 1;
                assert(bit == bit_of(colors(px0 + c, py as int), plane as int));
                byte = byte * 2 + bit;
                c = c + 1;
            }
            assert(byte == tile_byte(colors, b as int));
            self.ram.set(0x100 + b, byte);
            b = b + 1;
        }
        assert(self.ram@ =~= captured_ram(old(self).ram@, old(self).regs@, processed@, invert));
    }
    /// Decode photo slot `slot` (0 = active capture, 1-30 = saved photos) to
    /// 128x112 RGBA pixels; empty for an erased slot (see [`decoded_photo`]).
    pub fn decode_photo(&self, slot: u8) -> (r: Vec<u8>)
        ensures r@ == decoded_photo(self.ram@, slot),
    {
        if 1 <= slot && slot <= 30 {
            let idx = STATE_VECTOR_OFFSET + (slot - 1) as usize;
            if idx < self.ram.len() && self.ram[idx] == 0xFF {
                return Vec::new();
            }
        }
        let off = photo_offset(slot);
        if off + PHOTO_BYTES > self.ram.len() {
            return Vec::new();
        }
        let mut rgba: Vec<u8> = Vec::new();
        let mut p: usize = 0;
        while p < PHOTO_PIXELS
            invariant
                p <= 14336,
                off <= 0x101000,
                off + 3584 <= self.ram@.len(),
                rgba@.len() == 4 * p,
                forall|i: int| 0 <= i < 4 * p ==> rgba@[i] == photo_rgba(self.ram@, off as int)[i],
            decreases 14336 - p,
        {
            let px = p % PHOTO_WIDTH;
            let py = p / PHOTO_WIDTH;
            let base = off + ((py / 8) * 16 + px / 8) * 16 + (py % 8) * 2;
            let k = (7 - px % 8) as u8;
            let lo = self.ram[base];
            let hi = self.ram[base + 1];
            proof { lemma_bit_of(lo, k); lemma_bit_of(hi, k); }
            let color = ((hi >> k) & 1) * 2 + ((lo >> k) & 1);
            let gray = gray_value(color);
            assert(gray == gray_of(tile_color(self.ram@, off as int, px as int, py as int)));
            rgba.push(gray);
            rgba.push(gray);
            rgba.push(gray);
            rgba.push(255);
            p = p + 1;
        }
        assert(rgba@ =~= photo_rgba(self.ram@, off as int));
        rgba
    }

    /// Encode 128x112 RGBA pixels into saved slot `slot` (1-30) and mark it
    /// occupied (entry `slot - 1`); false, with nothing changed, for another
    /// slot or a buffer of another size.
    pub fn encode_photo(&mut self, slot: u8, rgba: &[u8]) -> (r: bool)
        requires old(self).view().wf(),
        ensures
            r == (1 <= slot <= 30 && rgba@.len() == 57344),
            r ==> final(self).view() == (CameraView {
                ram: state_entry_set(
                    tiles_stored(old(self).ram@, slot_offset(slot), rgba_colors(rgba@)), slot, (slot - 1) as u8),
                ..old(self).view()
            }),
            !r ==> final(self).view() == old(self).view(),
            final(self).view().wf(),
    {
        if slot == 0 || slot > 30 || rgba.len() != PHOTO_RGBA_BYTES {
            return false;
        }
        let off = photo_offset(slot);
        let mut colors: Vec<u8> = Vec::new();
        let mut p: usize = 0;
        while p < PHOTO_PIXELS
            invariant
                p <= 14336,
                rgba@.len() == 57344,
                colors@.len() == p,
                forall|i: int| 0 <= i < p ==> colors@[i] == color_of_gray(rgba@[i * 4]),
                forall|i: int| 0 <= i < p ==> colors@[i] <= 3,
            decreases 14336 - p,
        {
            let c = gray_color(rgba[p * 4]);
            colors.push(c);
            p = p + 1;
        }
        assert(colors@ =~= rgba_color_seq(rgba@));
        pack_tiles(&mut self.ram, off, &colors);
        self.set_state_vector_entry(slot, slot - 1);
        true
    }

    /// Zero the tile data of saved slot `slot` (1-30) and mark it erased.
    pub fn clear_photo_slot(&mut self, slot: u8)
        requires old(self).view().wf(),
        ensures
            1 <= slot <= 30 ==> final(self).view() == (CameraView {
                ram: state_entry_set(tiles_cleared(old(self).ram@, slot_offset(slot)), slot, 0xFF),
                ..old(self).view()
            }),
            !(1 <= slot <= 30) ==> final(self).view() == old(self).view(),
            final(self).view().wf(),
    {
        if slot == 0 || slot > 30 {
            return;
        }
        let off = photo_offset(slot);
        let mut i: usize = 0;
        while i < PHOTO_BYTES
            invariant
                i <= 3584,
                off == slot_offset(slot),
                off + 3584 <= 0x20000,
                self.ram@.len() == 0x20000,
                self.view() == (CameraView { ram: self.ram@, ..old(self).view() }),
                forall|j: int| 0 <= j < 0x20000 ==> self.ram@[j] == (if off <= j < off + i { 0u8 } else { old(self).ram@[j] }),
            decreases 3584 - i,
        {
            self.ram.set(off + i, 0);
            i = i + 1;
        }
        assert(self.ram@ =~= tiles_cleared(old(self).ram@, off as int));
        self.set_state_vector_entry(slot, 0xFF);
    }

    /// Contrast level (0-15) of the dither matrix: the per-channel minimum
    /// thresholds looked up in the low-light, then the high-light table; -1
    /// when neither matches.
    pub fn contrast(&self) -> (r: i32)
        requires self.view().wf(),
        ensures
            r == contrast_of((min_threshold(self.regs@, 0, 16), min_threshold(self.regs@, 1, 16),
                min_threshold(self.regs@, 2, 16))),
    {
        let mut t0: u8 = 0xFF;
        let mut t1: u8 = 0xFF;
        let mut t2: u8 = 0xFF;
        let mut pos: usize = 0;
        while pos < 16
            invariant
                pos <= 16,
                self.regs@.len() == 0x80,
                t0 == min_threshold(self.regs@, 0, pos as int),
                t1 == min_threshold(self.regs@, 1, pos as int),
                t2 == min_threshold(self.regs@, 2, pos as int),
            decreases 16 - pos,
        {
            let v0 = self.regs[6 + pos * 3];
            let v1 = self.regs[6 + pos * 3 + 1];
            let v2 = self.regs[6 + pos * 3 + 2];
            if v0 < t0 { t0 = v0; }
            if v1 < t1 { t1 = v1; }
            if v2 < t2 { t2 = v2; }
            pos = pos + 1;
        }
        let ghost t = (t0, t1, t2);
        assert(t == (min_threshold(self.regs@, 0, 16), min_threshold(self.regs@, 1, 16), min_threshold(self.regs@, 2, 16)));
        let mut level: usize = 0;
        while level < 16
            invariant
                level <= 16,
                t == (t0, t1, t2),
                t == (min_threshold(self.regs@, 0, 16), min_threshold(self.regs@, 1, 16), min_threshold(self.regs@, 2, 16)),
                find_level(t, true, 0) == find_level(t, true, level as int),
            decreases 16 - level,
        {
            let row = low_light_row(level);
            if row.0 == t0 && row.1 == t1 && row.2 == t2 {
                assert(low_light(level as int) == t);
                assert(find_level(t, true, level as int) == level as int);
                return level as i32;
            }
            level = level + 1;
        }
        level = 0;
        while level < 16
            invariant
                level <= 16,
                t == (t0, t1, t2),
                t == (min_threshold(self.regs@, 0, 16), min_threshold(self.regs@, 1, 16), min_threshold(self.regs@, 2, 16)),
                find_level(t, true, 0) == -1,
                find_level(t, false, 0) == find_level(t, false, level as int),
            decreases 16 - level,
        {
            let row = high_light_row(level);
            if row.0 == t0 && row.1 == t1 && row.2 == t2 {
                assert(high_light(level as int) == t);
                assert(find_level(t, false, level as int) == level as int);
                return level as i32;
            }
            level = level + 1;
        }
        -1
    }

    /// Number of occupied photo slots (state vector entries other than 0xFF).
    pub fn photo_count(&self) -> (r: u8)
        requires self.view().wf(),
        ensures r == occupied_count(self.ram@, 30),
    {
        let mut n: u8 = 0;
        let mut j: usize = 0;
        while j < NUM_PHOTO_SLOTS
            invariant
                j <= 30,
                self.ram@.len() == 0x20000,
                n == occupied_count(self.ram@, j as int),
                n <= j,
            decreases 30 - j,
        {
            if self.ram[STATE_VECTOR_OFFSET + j] != 0xFF {
                n = n + 1;
            }
            j = j + 1;
        }
        n
    }

    /// Set state vector entry `slot` (1-30) and update the checksum.
    fn set_state_vector_entry(&mut self, slot: u8, value: u8)
        requires old(self).ram@.len() == 0x20000,
        ensures
            final(self).view() == (CameraView { ram: state_entry_set(old(self).ram@, slot, value), ..old(self).view() }),
    {
        if slot == 0 || slot as usize > NUM_PHOTO_SLOTS {
            return;
        }
        let idx = STATE_VECTOR_OFFSET + (slot - 1) as usize;
        self.ram.set(idx, value);
        self.update_state_vector_checksum();
    }

    /// Store the byte sum and byte xor of the state vector after it.
    fn update_state_vector_checksum(&mut self)
        requires old(self).ram@.len() == 0x20000,
        ensures
            final(self).view() == (CameraView { ram: with_checksum(old(self).ram@), ..old(self).view() }),
    {
        let mut sum: u8 = 0;
        let mut xor: u8 = 0;
        let mut j: usize = 0;
        while j < NUM_PHOTO_SLOTS
            invariant
                j <= 30,
                self.ram@.len() == 0x20000,
                sum == state_sum(self.ram@, j as int),
                xor == state_xor(self.ram@, j as int),
            decreases 30 - j,
        {
            let b = self.ram[STATE_VECTOR_OFFSET + j];
            sum = ((sum as u16 + b as u16) % 256) as u8;
            xor = xor ^ b;
            j = j + 1;
        }
        self.ram.set(CHECKSUM_OFFSET, sum);
        self.ram.set(CHECKSUM_OFFSET + 1, xor);
    }
}


/// The bits of `3 - c` are those of `c` flipped, for a 2-bit colour `c`.
proof fn lemma_complement_bits(c: u8, plane: int)
    requires c <= 3, 0 <= plane <= 1,
    ensures bit_of((3 - c) as u8, plane) == 1 - bit_of(c, plane),
{
    let d = (3 - c) as u8;
    let k = plane as u8;
    assert((d >> k) & 1 == 1 - ((c >> k) & 1)) by (bit_vector)
        requires c <= 3, d == 3 - c, k <= 1;
}

/// `n` bits all set.
pub open spec fn all_ones(n: int) -> int
    decreases n,
{
    if n <= 0 { 0 } else { all_ones(n - 1) * 2 + 1 }
}

/// Packing the complemented colours gives the complemented bits.
proof fn lemma_packed_complement(c1: spec_fn(int, int) -> u8, c2: spec_fn(int, int) -> u8, px0: int, py: int, plane: int, n: int)
    requires
        0 <= plane <= 1,
        forall|px: int| px0 <= px < px0 + n ==> #[trigger] c1(px, py) <= 3 && c2(px, py) == (3 - c1(px, py)) as u8,
    ensures
        packed_bits(c2, px0, py, plane, n) == all_ones(n) - packed_bits(c1, px0, py, plane, n),
    decreases n,
{
    if n > 0 {
        lemma_packed_complement(c1, c2, px0, py, plane, n - 1);
        lemma_complement_bits(c1(px0 + n - 1, py), plane);
    }
}

/// With the output not negative (register A001 bit 1 clear), capturing
/// with `invert` stores every tile byte of the plain capture with all its
/// bits flipped (colour `c` becomes `3 - c`).
pub proof fn law_invert_flips_capture(regs: Seq<u8>, processed: Seq<u8>, b: int)
    requires regs[1] & 0x02 == 0,
    ensures
        tile_byte(capture_colors(regs, processed, true), b)
            == 255 - tile_byte(capture_colors(regs, processed, false), b),
{
    let c1 = capture_colors(regs, processed, false);
    let c2 = capture_colors(regs, processed, true);
    let tile = b / 16;
    let px0 = (tile % 16) * 8;
    let py = (tile / 16) * 8 + (b % 16) / 2;
    assert forall|px: int| px0 <= px < px0 + 8 implies #[trigger] c1(px, py) <= 3 && c2(px, py) == (3 - c1(px, py)) as u8 by {
        let pixel = processed[py * 128 + px];
        let inv = 255 - pixel;
        assert(inv / 64 <= 3);
    }
    lemma_packed_complement(c1, c2, px0, py, b % 2, 8);
    reveal_with_fuel(all_ones, 9);
    lemma_packed_bound(c1, px0, py, b % 2, 8);
}

/// With the output not negative (register A001 bit 1 clear), the SRAM
/// after a capture with `invert` differs from the SRAM after the same
/// capture without it exactly in the tile bytes, each of which has all its
/// bits flipped.
pub proof fn law_inverted_capture_ram(ram: Seq<u8>, regs: Seq<u8>, processed: Seq<u8>, i: int)
    requires regs[1] & 0x02 == 0, 0 <= i < 0x20000,
    ensures
        0x100 <= i < 0x100 + 3584 ==> captured_ram(ram, regs, processed, true)[i]
            == 255 - captured_ram(ram, regs, processed, false)[i],
        !(0x100 <= i < 0x100 + 3584) ==> captured_ram(ram, regs, processed, true)[i]
            == captured_ram(ram, regs, processed, false)[i] && captured_ram(ram, regs, processed, true)[i] == ram[i],
{
    if 0x100 <= i < 0x100 + 3584 {
        law_invert_flips_capture(regs, processed, i - 0x100);
    }
}

/// Packed bits fit in `n` bits.
proof fn lemma_packed_bound(c: spec_fn(int, int) -> u8, px0: int, py: int, plane: int, n: int)
    requires 0 <= plane <= 1,
    ensures 0 <= packed_bits(c, px0, py, plane, n) <= all_ones(n),
    decreases n,
{
    if n > 0 {
        lemma_packed_bound(c, px0, py, plane, n - 1);
        crate::bits::lemma_bit_of(c(px0 + n - 1, py), plane as u8);
    }
}

} // verus!
