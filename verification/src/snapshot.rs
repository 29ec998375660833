//! Binary codec for emulator save-states.
//!
//! Values are written little-endian; booleans as one byte (0 or 1). The
//! reader fails with `"snapshot truncated"` when the data runs out.

use vstd::prelude::*;
use crate::bits::lemma_le_join;

verus! {

/// Little-endian bytes of a 16-bit value.
pub open spec fn le16(v: u16) -> Seq<u8> {
    seq![(v % 256) as u8, (v / 256) as u8]
}

/// Little-endian bytes of a 32-bit value.
pub open spec fn le32(v: u32) -> Seq<u8> {
    le16((v % 0x10000) as u16) + le16((v / 0x10000) as u16)
}

/// Little-endian bytes of a 64-bit value.
pub open spec fn le64(v: u64) -> Seq<u8> {
    le32((v % 0x1_0000_0000) as u32) + le32((v / 0x1_0000_0000) as u32)
}

/// The value of little-endian bytes `b[i..i + n]`.
pub open spec fn decode_le(b: Seq<u8>, i: int, n: nat) -> int
    decreases n,
{
    if n == 0 { 0 } else { b[i] + 256 * decode_le(b, i + 1, (n - 1) as nat) }
}

/// Decoding `m + n` bytes is decoding the first `m` plus `256^m` times the rest.
pub proof fn lemma_decode_le_split(b: Seq<u8>, i: int, m: nat, n: nat)
    ensures
        decode_le(b, i, m + n) == decode_le(b, i, m) + pow256(m) * decode_le(b, i + m, n),
    decreases m,
{
    if m > 0 {
        lemma_decode_le_split(b, i + 1, (m - 1) as nat, n);
        assert(decode_le(b, i, m + n) == b[i] + 256 * decode_le(b, i + 1, (m - 1 + n) as nat));
        assert(pow256(m) == 256 * pow256((m - 1) as nat));
        assert(256 * (decode_le(b, i + 1, (m - 1) as nat) + pow256((m - 1) as nat) * decode_le(b, i + 1 + (m - 1), n))
            == 256 * decode_le(b, i + 1, (m - 1) as nat) + (256 * pow256((m - 1) as nat)) * decode_le(b, i + m, n))
            by (nonlinear_arith);
    }
}

/// Decoded values fit in `n` bytes.
pub proof fn lemma_decode_le_bound(b: Seq<u8>, i: int, n: nat)
    ensures
        0 <= decode_le(b, i, n) < pow256(n),
    decreases n,
{
    if n > 0 {
        lemma_decode_le_bound(b, i + 1, (n - 1) as nat);
        let d = decode_le(b, i + 1, (n - 1) as nat);
        let p = pow256((n - 1) as nat);
        assert(b[i] + 256 * d < 256 * p) by (nonlinear_arith)
            requires 0 <= b[i] < 256, 0 <= d < p, d <= p - 1;
    }
}

/// `256^n`.
pub open spec fn pow256(n: nat) -> int
    decreases n,
{
    if n == 0 { 1 } else { 256 * pow256((n - 1) as nat) }
}

/// A 16-bit value written is the value read back at the same position.
pub proof fn law_u16_roundtrip(before: Seq<u8>, v: u16, after: Seq<u8>)
    ensures decode_le(before + le16(v) + after, before.len() as int, 2) == v,
{
    let b = before + le16(v) + after;
    reveal_with_fuel(decode_le, 3);
    assert(b[before.len() as int] == (v % 256) as u8);
    assert(b[before.len() as int + 1] == (v / 256) as u8);
}

/// A 32-bit value written is the value read back at the same position.
pub proof fn law_u32_roundtrip(before: Seq<u8>, v: u32, after: Seq<u8>)
    ensures decode_le(before + le32(v) + after, before.len() as int, 4) == v,
{
    let b = before + le32(v) + after;
    let i = before.len() as int;
    let lo = (v % 0x10000) as u16;
    let hi = (v / 0x10000) as u16;
    lemma_decode_le_split(b, i, 2, 2);
    law_u16_roundtrip(before, lo, le16(hi) + after);
    assert(before + le16(lo) + (le16(hi) + after) =~= b);
    law_u16_roundtrip(before + le16(lo), hi, after);
    assert(before + le16(lo) + le16(hi) + after =~= b);
    assert(pow256(2) == 65536) by { reveal_with_fuel(pow256, 3); }
    assert(decode_le(b, i, 2) == lo);
    assert(decode_le(b, i + 2, 2) == hi);
    assert(v == lo + 65536 * hi);
}

/// A 64-bit value written is the value read back at the same position.
pub proof fn law_u64_roundtrip(before: Seq<u8>, v: u64, after: Seq<u8>)
    ensures decode_le(before + le64(v) + after, before.len() as int, 8) == v,
{
    let b = before + le64(v) + after;
    let i = before.len() as int;
    let lo = (v % 0x1_0000_0000) as u32;
    let hi = (v / 0x1_0000_0000) as u32;
    lemma_decode_le_split(b, i, 4, 4);
    law_u32_roundtrip(before, lo, le32(hi) + after);
    assert(before + le32(lo) + (le32(hi) + after) =~= b);
    law_u32_roundtrip(before + le32(lo), hi, after);
    assert(before + le32(lo) + le32(hi) + after =~= b);
    assert(pow256(4) == 0x1_0000_0000) by { reveal_with_fuel(pow256, 5); }
    assert(decode_le(b, i, 4) == lo);
    assert(decode_le(b, i + 4, 4) == hi);
    assert(v == lo + 0x1_0000_0000 * hi);
}

/// Accumulating writer.
pub struct SnapWriter {
    pub buf: Vec<u8>,
}

impl SnapWriter {
    pub fn new() -> (r: Self)
        ensures r.buf@ == Seq::<u8>::empty(),
    {
        SnapWriter { buf: Vec::new() }
    }

    pub fn u8(&mut self, v: u8)
        ensures final(self).buf@ == old(self).buf@.push(v),
    {
        self.buf.push(v);
    }

    pub fn u16(&mut self, v: u16)
        ensures final(self).buf@ == old(self).buf@ + le16(v),
    {
        self.buf.push((v % 256) as u8);
        self.buf.push((v / 256) as u8);
        assert(final(self).buf@ =~= old(self).buf@ + le16(v));
    }

    pub fn u32(&mut self, v: u32)
        ensures final(self).buf@ == old(self).buf@ + le32(v),
    {
        self.u16((v % 0x10000) as u16);
        self.u16((v / 0x10000) as u16);
        assert(final(self).buf@ =~= old(self).buf@ + le32(v));
    }

    pub fn u64(&mut self, v: u64)
        ensures final(self).buf@ == old(self).buf@ + le64(v),
    {
        self.u32((v % 0x1_0000_0000) as u32);
        self.u32((v / 0x1_0000_0000) as u32);
        assert(final(self).buf@ =~= old(self).buf@ + le64(v));
    }

    pub fn bool(&mut self, v: bool)
        ensures final(self).buf@ == old(self).buf@.push(if v { 1u8 } else { 0u8 }),
    {
        self.u8(if v { 1 } else { 0 });
    }

    pub fn bytes(&mut self, v: &[u8])
        ensures final(self).buf@ == old(self).buf@ + v@,
    {
        let mut i: usize = 0;
        while i < v.len()
            invariant
                i <= v@.len(),
                self.buf@ == old(self).buf@ + v@.subrange(0, i as int),
            decreases v.len() - i,
        {
            self.buf.push(v[i]);
            i = i + 1;
            assert(self.buf@ =~= old(self).buf@ + v@.subrange(0, i as int));
        }
        assert(v@.subrange(0, v@.len() as int) =~= v@);
    }

    pub fn into_vec(self) -> (r: Vec<u8>)
        ensures r@ == self.buf@,
    {
        self.buf
    }
}

/// Cursor over a byte slice.
pub struct SnapReader<'a> {
    pub data: &'a [u8],
    pub pos: usize,
}

impl<'a> SnapReader<'a> {
    pub fn new(data: &'a [u8]) -> (r: Self)
        ensures r.data@ == data@, r.pos == 0,
    {
        SnapReader { data, pos: 0 }
    }

    /// Next byte; fails without moving when none is left.
    pub fn u8(&mut self) -> (r: Result<u8, &'static str>)
        ensures
            final(self).data@ == old(self).data@,
            r is Ok <==> old(self).pos < old(self).data@.len(),
            r is Ok ==> r == Ok::<u8, &'static str>(old(self).data@[old(self).pos as int])
                && final(self).pos == old(self).pos + 1,
            r is Err ==> final(self).pos == old(self).pos,
    {
        if self.pos >= self.data.len() {
            return Err("snapshot truncated");
        }
        let v = self.data[self.pos];
        self.pos += 1;
        Ok(v)
    }

    /// Next two bytes as a little-endian value.
    pub fn u16(&mut self) -> (r: Result<u16, &'static str>)
        ensures
            final(self).data@ == old(self).data@,
            r is Ok <==> old(self).pos + 2 <= old(self).data@.len(),
            r is Ok ==> r == Ok::<u16, &'static str>(decode_le(old(self).data@, old(self).pos as int, 2) as u16)
                && final(self).pos == old(self).pos + 2,
            r is Err ==> final(self).pos == if old(self).pos < old(self).data@.len() { old(self).data@.len() as usize } else { old(self).pos },
    {
        let lo = self.u8()?;
        let hi = self.u8()?;
        proof {
            lemma_le_join(lo, hi, 0, 0, 0, 0);
            reveal_with_fuel(decode_le, 3);
        }
        Ok(lo as u16 | ((hi as u16) << 8))
    }

    /// Next four bytes as a little-endian value.
    pub fn u32(&mut self) -> (r: Result<u32, &'static str>)
        ensures
            final(self).data@ == old(self).data@,
            r is Ok <==> old(self).pos + 4 <= old(self).data@.len(),
            r is Ok ==> r == Ok::<u32, &'static str>(decode_le(old(self).data@, old(self).pos as int, 4) as u32)
                && final(self).pos == old(self).pos + 4,
            r is Err ==> final(self).pos == if old(self).pos < old(self).data@.len() { old(self).data@.len() as usize } else { old(self).pos },
    {
        let b0 = self.u8()?;
        let b1 = self.u8()?;
        let b2 = self.u8()?;
        let b3 = self.u8()?;
        proof {
            lemma_le_join(b0, b1, b2, b3, 0, 0);
            reveal_with_fuel(decode_le, 5);
        }
        Ok(b0 as u32 | ((b1 as u32) << 8) | ((b2 as u32) << 16) | ((b3 as u32) << 24))
    }

    /// Next eight bytes as a little-endian value.
    pub fn u64(&mut self) -> (r: Result<u64, &'static str>)
        ensures
            final(self).data@ == old(self).data@,
            r is Ok <==> old(self).pos + 8 <= old(self).data@.len(),
            r is Ok ==> r == Ok::<u64, &'static str>(decode_le(old(self).data@, old(self).pos as int, 8) as u64)
                && final(self).pos == old(self).pos + 8,
            r is Err ==> final(self).pos == if old(self).pos < old(self).data@.len() { old(self).data@.len() as usize } else { old(self).pos },
    {
        let ghost p0 = old(self).pos as int;
        let lo = self.u32()?;
        let hi = self.u32()?;
        proof {
            lemma_le_join(0, 0, 0, 0, lo, hi);
            lemma_decode_le_split(self.data@, p0, 4, 4);
            lemma_decode_le_bound(self.data@, p0, 4);
            lemma_decode_le_bound(self.data@, p0 + 4, 4);
            reveal_with_fuel(pow256, 5);
        }
        Ok(lo as u64 | ((hi as u64) << 32))
    }

    /// Next byte as a boolean (any non-zero byte is true).
    pub fn bool(&mut self) -> (r: Result<bool, &'static str>)
        ensures
            final(self).data@ == old(self).data@,
            r is Ok <==> old(self).pos < old(self).data@.len(),
            r is Ok ==> r == Ok::<bool, &'static str>(old(self).data@[old(self).pos as int] != 0)
                && final(self).pos == old(self).pos + 1,
            r is Err ==> final(self).pos == old(self).pos,
    {
        Ok(self.u8()? != 0)
    }

    /// Next `n` bytes; fails without moving when fewer are left.
    pub fn bytes(&mut self, n: usize) -> (r: Result<&'a [u8], &'static str>)
        requires
            old(self).pos + n <= usize::MAX,
        ensures
            final(self).data@ == old(self).data@,
            r is Ok <==> old(self).pos + n <= old(self).data@.len(),
            r matches Ok(s) ==> s@ == old(self).data@.subrange(old(self).pos as int, old(self).pos + n)
                && final(self).pos == old(self).pos + n,
            r is Err ==> final(self).pos == old(self).pos,
    {
        let end = self.pos + n;
        if end > self.data.len() {
            return Err("snapshot truncated");
        }
        let slice = &self.data[self.pos..end];
        self.pos = end;
        Ok(slice)
    }
}

} // verus!
