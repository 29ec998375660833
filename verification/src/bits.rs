//! Bit-level facts about fixed-width integers used throughout the emulator.

use vstd::prelude::*;

verus! {

/// Bounds of the masked and shifted fields of a byte.
pub proof fn lemma_u8_fields(x: u8)
    by (bit_vector)
    ensures
        x & 0x01 <= 1,
        x & 0x03 <= 3,
        x & 0x07 <= 7,
        x & 0x0F <= 15,
        x & 0x1F <= 31,
        x & 0x3F <= 63,
        x & 0x7F <= 127,
        x & 0xF8 == 0 <==> x <= 7,
        x & 0x80 != 0 <==> x >= 0x80,
        x & 0x80 == 0 <==> x < 0x80,
        x >> 1 <= 127,
        x >> 2 <= 63,
        x >> 3 <= 31,
        x >> 4 <= 15,
        x >> 5 <= 7,
        x >> 6 <= 3,
        x >> 7 <= 1,
        (x >> 4) & 0x07 <= 7,
        (x >> 4) & 0x0F <= 15,
        (x >> 5) & 0x03 <= 3,
        (x >> 6) & 0x03 <= 3,
        x & 0x7F == x % 128,
        x & 0x3F == x % 64,
        x & 0x1F == x % 32,
        x & 0x0F == x % 16,
        x & 0x07 == x % 8,
        x & 0x03 == x % 4,
        x & 0x01 == x % 2,
        x >> 1 == x / 2,
        x >> 4 == x / 16,
{
}

/// Bounds of the masked and shifted fields of a 16-bit word.
pub proof fn lemma_u16_fields(x: u16)
    by (bit_vector)
    ensures
        x & 0x07 <= 7,
        x & 0x07 == x % 8,
        x & 0xFF <= 0xFF,
        x & 0x0FFF <= 0x0FFF,
        x & 0x1FFF <= 0x1FFF,
        x >> 8 <= 0xFF,
        x & 0xFF == x % 256,
        x >> 8 == x / 256,
        x & 0x1FFF == x % 8192,
        (x & 0x07) << 8 <= 0x700,
        x & 1 <= 1,
        x >> 1 <= 0x7FFF,
{
}

/// An 11-bit frequency assembled from a 3-bit high part and a byte.
pub proof fn lemma_freq11(hi: u8, lo: u8)
    by (bit_vector)
    ensures
        ((hi as u16 & 0x07) << 8) | lo as u16 <= 2047,
{
}

/// Powers of two that fit the noise channel's timer period.
pub proof fn lemma_small_shifts(s: u32)
    by (bit_vector)
    requires
        1 <= s <= 16,
    ensures
        2 <= 1u32 << s <= 0x10000,
        8 <= 4u32 << s <= 0x40000,
        4u32 << s == 4 * (1u32 << s),
{
}

/// Assembling little-endian bytes with shifts and ors is positional arithmetic.
pub proof fn lemma_le_join(b0: u8, b1: u8, b2: u8, b3: u8, lo: u32, hi: u32)
    by (bit_vector)
    ensures
        (b0 as u16 | ((b1 as u16) << 8)) == b0 as u16 + 256 * (b1 as u16),
        (b0 as u32 | ((b1 as u32) << 8) | ((b2 as u32) << 16) | ((b3 as u32) << 24))
            == b0 as u32 + 256 * (b1 as u32 + 256 * (b2 as u32 + 256 * (b3 as u32))),
        (lo as u64 | ((hi as u64) << 32)) == lo as u64 + 0x1_0000_0000 * (hi as u64),
{
}

/// A single bit of a byte is 0 or 1.
pub proof fn lemma_bit_of(b: u8, k: u8)
    by (bit_vector)
    requires
        k < 8,
    ensures
        (b >> k) & 1 <= 1,
{
}

/// The bits of a byte assembled most significant first read back.
pub proof fn lemma_unpack8(b0: u8, b1: u8, b2: u8, b3: u8, b4: u8, b5: u8, b6: u8, b7: u8, p: u8)
    by (bit_vector)
    requires
        b0 <= 1, b1 <= 1, b2 <= 1, b3 <= 1, b4 <= 1, b5 <= 1, b6 <= 1, b7 <= 1,
        p == ((((((b0 * 2 + b1) * 2 + b2) * 2 + b3) * 2 + b4) * 2 + b5) * 2 + b6) * 2 + b7,
    ensures
        (p >> 7u8) & 1 == b0, (p >> 6u8) & 1 == b1, (p >> 5u8) & 1 == b2, (p >> 4u8) & 1 == b3,
        (p >> 3u8) & 1 == b4, (p >> 2u8) & 1 == b5, (p >> 1u8) & 1 == b6, (p >> 0u8) & 1 == b7,
{
}

/// A 2-bit value is its two bits.
pub proof fn lemma_two_bits(c: u8)
    by (bit_vector)
    requires c <= 3,
    ensures ((c >> 1u8) & 1) * 2 + ((c >> 0u8) & 1) == c,
{
}

/// Register fields as numbers: the nibbles, bits 5-6, the low one, two,
/// three and six bits, and the 11-bit sound frequency from a control byte
/// `hi` (stored with bit 7 cleared) and a low byte `lo`.
pub proof fn lemma_byte_fields(x: u8, hi: u8, lo: u8)
    by (bit_vector)
    ensures
        (x >> 4) & 0x0F == x / 16,
        x & 0x0F == x % 16,
        (x >> 5) & 0x03 == (x / 32) % 4,
        x & 0x07 == x % 8,
        x & 0x03 == x % 4,
        x & 0x01 == x % 2,
        x & 0x3F == x % 64,
        (((hi & 0x7F) as u16 & 0x07) << 8) | lo as u16 == (hi % 8) * 256 + lo,
        (hi & 0x7F) & 0x40 == hi & 0x40,
{
}

} // verus!
