//! ALU and rotate/shift operations: each takes operands and F and gives the
//! result and the new F.

use vstd::prelude::*;

verus! {

/// Flag bits for Z, N, H, C.
pub open spec fn flag_bits(z: bool, n: bool, h: bool, c: bool) -> u8 {
    (if z { 0x80u8 } else { 0 }) | (if n { 0x40u8 } else { 0 }) | (if h { 0x20u8 } else { 0 }) | (if c { 0x10u8 } else { 0 })
}

/// F with all four flags replaced (the low nibble kept).
pub open spec fn all_flags(f: u8, z: bool, n: bool, h: bool, c: bool) -> u8 {
    (f & 0x0F) | flag_bits(z, n, h, c)
}

/// F with Z, N, H replaced and C kept.
pub open spec fn znh_flags(f: u8, z: bool, n: bool, h: bool) -> u8 {
    (f & 0x1F) | flag_bits(z, n, h, false)
}

pub open spec fn carry_in(f: u8) -> int {
    if f & 0x10 != 0 { 1 } else { 0 }
}

/// INC: Z, N clear, H on a carry out of bit 3; C kept.
pub open spec fn inc_spec(v: u8, f: u8) -> (u8, u8) {
    let r = ((v + 1) % 256) as u8;
    (r, znh_flags(f, r == 0, false, v % 16 == 15))
}

/// DEC: Z, N set, H on a borrow from bit 4; C kept.
pub open spec fn dec_spec(v: u8, f: u8) -> (u8, u8) {
    let r = ((v + 255) % 256) as u8;
    (r, znh_flags(f, r == 0, true, v % 16 == 0))
}

/// ALU operation `op` on A and `v`: ADD, ADC, SUB, SBC, AND, XOR, OR, CP
/// (CP leaves A unchanged).
pub open spec fn alu_spec(op: int, a: u8, v: u8, f: u8) -> (u8, u8) {
    let cy = carry_in(f);
    if op == 0 {
        let r = a + v;
        ((r % 256) as u8, all_flags(f, r % 256 == 0, false, a % 16 + v % 16 > 15, r > 255))
    } else if op == 1 {
        let r = a + v + cy;
        ((r % 256) as u8, all_flags(f, r % 256 == 0, false, a % 16 + v % 16 + cy > 15, r > 255))
    } else if op == 2 {
        let r = ((a - v + 256) % 256) as u8;
        (r, all_flags(f, r == 0, true, a % 16 < v % 16, a < v))
    } else if op == 3 {
        let r = ((a - v - cy + 512) % 256) as u8;
        (r, all_flags(f, r == 0, true, a % 16 < v % 16 + cy, a < v + cy))
    } else if op == 4 {
        let r = a & v;
        (r, all_flags(f, r == 0, false, true, false))
    } else if op == 5 {
        let r = a ^ v;
        (r, all_flags(f, r == 0, false, false, false))
    } else if op == 6 {
        let r = a | v;
        (r, all_flags(f, r == 0, false, false, false))
    } else {
        (a, all_flags(f, a == v, true, a % 16 < v % 16, a < v))
    }
}

/// ADD HL, rr: N clear, H on a carry out of bit 11, C on a carry out of
/// bit 15; Z kept.
pub open spec fn add_hl_spec(hl: u16, v: u16, f: u8) -> (u16, u8) {
    let r = hl + v;
    ((r % 0x10000) as u16, (f & 0x8F) | flag_bits(false, false, hl % 0x1000 + v % 0x1000 > 0xFFF, r > 0xFFFF))
}

/// DAA: decimal adjust A after a BCD addition or subtraction.
pub open spec fn daa_spec(a: u8, f: u8) -> (u8, u8) {
    let n = f & 0x40 != 0;
    let h = f & 0x20 != 0;
    let c = f & 0x10 != 0;
    if n {
        let adjust: int = (if c { 0x60int } else { 0 }) + (if h { 6int } else { 0 });
        let r = ((a - adjust + 256) % 256) as u8;
        (r, (f & 0x4F) | flag_bits(r == 0, false, false, c))
    } else {
        let carry = c || a > 0x99;
        let adjust: int = (if carry { 0x60int } else { 0 }) + (if h || a % 16 > 9 { 6int } else { 0 });
        let r = ((a + adjust) % 256) as u8;
        (r, (f & 0x4F) | flag_bits(r == 0, false, false, carry))
    }
}

/// Rotate/shift `op` of the CB table on `v`: RLC, RRC, RL, RR, SLA, SRA,
/// SWAP, SRL. Z from the result, N and H clear, C the bit shifted out
/// (clear for SWAP).
pub open spec fn shift_spec(op: int, v: u8, f: u8) -> (u8, u8) {
    let cy: u8 = if f & 0x10 != 0 { 1 } else { 0 };
    let (r, c): (u8, bool) = if op == 0 {
        ((v << 1u8) | (v >> 7u8), v >> 7u8 == 1)
    } else if op == 1 {
        ((v >> 1u8) | ((v & 1) << 7u8), v & 1 == 1)
    } else if op == 2 {
        ((v << 1u8) | cy, v >> 7u8 == 1)
    } else if op == 3 {
        ((v >> 1u8) | (cy << 7u8), v & 1 == 1)
    } else if op == 4 {
        (v << 1u8, v >> 7u8 == 1)
    } else if op == 5 {
        ((v >> 1u8) | (v & 0x80), v & 1 == 1)
    } else if op == 6 {
        ((v << 4u8) | (v >> 4u8), false)
    } else {
        (v >> 1u8, v & 1 == 1)
    };
    (r, all_flags(f, r == 0, false, false, c))
}

/// CP sets the flags SUB would and leaves A alone.
pub proof fn law_cp_is_sub_without_result(a: u8, v: u8, f: u8)
    ensures alu_spec(7, a, v, f) == (a, alu_spec(2, a, v, f).1),
{
}

/// SUB undoes ADD of the same value (modulo 256).
pub proof fn law_sub_undoes_add(a: u8, v: u8, f: u8, g: u8)
    ensures alu_spec(2, alu_spec(0, a, v, f).0, v, g).0 == a,
{
}

/// DEC undoes INC.
pub proof fn law_dec_undoes_inc(v: u8, f: u8, g: u8)
    ensures dec_spec(inc_spec(v, f).0, g).0 == v,
{
}

/// XOR of A with itself clears A and sets Z.
pub proof fn law_xor_self(a: u8, f: u8)
    ensures alu_spec(5, a, a, f).0 == 0, alu_spec(5, a, a, f).1 & 0x80 != 0,
{
    assert(a ^ a == 0) by (bit_vector);
    assert(((f & 0x0F) | (0x80u8 | 0u8 | 0u8 | 0u8)) & 0x80 != 0) by (bit_vector);
}

/// RRC undoes RLC, RR undoes RL with the carry RL produced, and SWAP twice
/// is the identity.
pub proof fn law_rotations_invert(v: u8, f: u8)
    ensures
        shift_spec(1, shift_spec(0, v, f).0, f).0 == v,
        shift_spec(3, shift_spec(2, v, f).0, shift_spec(2, v, f).1).0 == v,
        shift_spec(6, shift_spec(6, v, f).0, f).0 == v,
{
    let cy: u8 = if f & 0x10 != 0 { 1 } else { 0 };
    let r = (v << 1u8) | (v >> 7u8);
    assert((r >> 1u8) | ((r & 1) << 7u8) == v) by (bit_vector) requires r == (v << 1u8) | (v >> 7u8);
    let r2 = (v << 1u8) | cy;
    let f2 = all_flags(f, r2 == 0, false, false, v >> 7u8 == 1);
    let cy2: u8 = if f2 & 0x10 != 0 { 1 } else { 0 };
    assert(cy2 == v >> 7u8) by (bit_vector)
        requires
            f2 == (f & 0x0F) | ((if r2 == 0 { 0x80u8 } else { 0 }) | 0 | 0 | (if v >> 7u8 == 1 { 0x10u8 } else { 0 })),
            cy2 == (if f2 & 0x10 != 0 { 1u8 } else { 0 }),
    ;
    assert((r2 >> 1u8) | (cy2 << 7u8) == v) by (bit_vector)
        requires r2 == (v << 1u8) | cy, cy <= 1, cy2 == v >> 7u8;
    let s1 = (v << 4u8) | (v >> 4u8);
    assert((s1 << 4u8) | (s1 >> 4u8) == v) by (bit_vector) requires s1 == (v << 4u8) | (v >> 4u8);
}

/// ADD and ADC: A becomes A + v (+ the carry flag, F bit 4, for ADC)
/// modulo 256; Z is set for a zero result, N is clear, H is set on a carry
/// out of the low nibble and C on a carry out of bit 7. With the carry
/// flag set ADC gives one more than ADD, with it clear the same.
pub proof fn law_add_adc(a: u8, v: u8, f: u8)
    ensures ({
        let c: int = if f & 0x10 != 0 { 1 } else { 0 };
        let (r0, f0) = alu_spec(0, a, v, f);
        let (r1, f1) = alu_spec(1, a, v, f);
        &&& r0 == (a + v) % 256
        &&& r1 == (a + v + c) % 256
        &&& r1 == (r0 + c) % 256
        &&& (f0 & 0x80 != 0) == (r0 == 0) && (f1 & 0x80 != 0) == (r1 == 0)
        &&& f0 & 0x40 == 0 && f1 & 0x40 == 0
        &&& (f0 & 0x20 != 0) == ((a & 0x0F) + (v & 0x0F) > 0x0F)
        &&& (f1 & 0x20 != 0) == ((a & 0x0F) + (v & 0x0F) + c > 0x0F)
        &&& (f0 & 0x10 != 0) == (a + v > 0xFF)
        &&& (f1 & 0x10 != 0) == (a + v + c > 0xFF)
    }),
{
    let c: int = if f & 0x10 != 0 { 1 } else { 0 };
    lemma_low_nibble(a, v);
    lemma_flag_bits(f, (a + v) % 256 == 0, false, a % 16 + v % 16 > 15, a + v > 255);
    lemma_flag_bits(f, (a + v + c) % 256 == 0, false, a % 16 + v % 16 + c > 15, a + v + c > 255);
}

/// SUB and SBC: A becomes A - v (- the carry flag for SBC) modulo 256; Z
/// is set for a zero result, N is set, H is set on a borrow from the high
/// nibble and C on a borrow out of bit 7. With the carry flag set SBC gives
/// one less than SUB, with it clear the same.
pub proof fn law_sub_sbc(a: u8, v: u8, f: u8)
    ensures ({
        let c: int = if f & 0x10 != 0 { 1 } else { 0 };
        let (r0, f0) = alu_spec(2, a, v, f);
        let (r1, f1) = alu_spec(3, a, v, f);
        &&& r0 == (a - v + 256) % 256
        &&& r1 == (a - v - c + 512) % 256
        &&& r1 == (r0 - c + 256) % 256
        &&& (f0 & 0x80 != 0) == (r0 == 0) && (f1 & 0x80 != 0) == (r1 == 0)
        &&& f0 & 0x40 != 0 && f1 & 0x40 != 0
        &&& (f0 & 0x20 != 0) == ((a & 0x0F) < (v & 0x0F))
        &&& (f1 & 0x20 != 0) == ((a & 0x0F) < (v & 0x0F) + c)
        &&& (f0 & 0x10 != 0) == (a < v)
        &&& (f1 & 0x10 != 0) == (a < v + c)
    }),
{
    let c: int = if f & 0x10 != 0 { 1 } else { 0 };
    lemma_low_nibble(a, v);
    let r0 = ((a - v + 256) % 256) as u8;
    let r1 = ((a - v - c + 512) % 256) as u8;
    lemma_flag_bits(f, r0 == 0, true, a % 16 < v % 16, a < v);
    lemma_flag_bits(f, r1 == 0, true, a % 16 < v % 16 + c, a < v + c);
}

/// The low nibble by mask is the remainder modulo 16.
proof fn lemma_low_nibble(a: u8, v: u8)
    ensures a & 0x0F == a % 16, v & 0x0F == v % 16,
{
    assert(a & 0x0F == a % 16 && v & 0x0F == v % 16) by (bit_vector);
}

/// The flags that `znh_flags` writes read back; C is kept.
pub proof fn lemma_znh_bits(f: u8, z: bool, n: bool, h: bool)
    ensures
        (znh_flags(f, z, n, h) & 0x80 != 0) == z,
        (znh_flags(f, z, n, h) & 0x40 != 0) == n,
        (znh_flags(f, z, n, h) & 0x20 != 0) == h,
        znh_flags(f, z, n, h) & 0x10 == f & 0x10,
{
    let zb: u8 = if z { 0x80 } else { 0 };
    let nb: u8 = if n { 0x40 } else { 0 };
    let hb: u8 = if h { 0x20 } else { 0 };
    assert(
        (((f & 0x1F) | (zb | nb | hb | 0)) & 0x80 != 0) == (zb == 0x80)
        && (((f & 0x1F) | (zb | nb | hb | 0)) & 0x40 != 0) == (nb == 0x40)
        && (((f & 0x1F) | (zb | nb | hb | 0)) & 0x20 != 0) == (hb == 0x20)
        && ((f & 0x1F) | (zb | nb | hb | 0)) & 0x10 == f & 0x10
    ) by (bit_vector)
        requires zb == 0 || zb == 0x80, nb == 0 || nb == 0x40, hb == 0 || hb == 0x20;
}

/// INC and DEC: the operand plus or minus one modulo 256; Z for a zero
/// result; N clear for INC and set for DEC; H on a carry out of (INC: low
/// nibble 0xF) or borrow into (DEC: low nibble 0) the low nibble; C kept.
pub proof fn law_inc_dec(v: u8, f: u8)
    ensures ({
        let (ri, fi) = inc_spec(v, f);
        let (rd, fd) = dec_spec(v, f);
        &&& ri == (v + 1) % 256 && rd == (v + 255) % 256
        &&& (fi & 0x80 != 0) == (ri == 0) && (fd & 0x80 != 0) == (rd == 0)
        &&& fi & 0x40 == 0 && fd & 0x40 != 0
        &&& (fi & 0x20 != 0) == (v & 0x0F == 0x0F) && (fd & 0x20 != 0) == (v & 0x0F == 0)
        &&& fi & 0x10 == f & 0x10 && fd & 0x10 == f & 0x10
    }),
{
    lemma_low_nibble(v, v);
    lemma_znh_bits(f, (v + 1) % 256 == 0, false, v % 16 == 15);
    lemma_znh_bits(f, (v + 255) % 256 == 0, true, v % 16 == 0);
}

/// AND, XOR and OR: Z for a zero result, N and C clear, H set for AND only.
/// CP leaves A alone and sets Z exactly when A equals the operand.
pub proof fn law_logic_flags(a: u8, v: u8, f: u8)
    ensures
        forall|op: int| 4 <= op <= 6 ==> {
            let (r, g) = #[trigger] alu_spec(op, a, v, f);
            &&& (g & 0x80 != 0) == (r == 0)
            &&& g & 0x40 == 0
            &&& (g & 0x20 != 0) == (op == 4)
            &&& g & 0x10 == 0
        },
        alu_spec(7, a, v, f).0 == a,
        (alu_spec(7, a, v, f).1 & 0x80 != 0) == (a == v),
{
    lemma_flag_bits(f, a & v == 0, false, true, false);
    lemma_flag_bits(f, a ^ v == 0, false, false, false);
    lemma_flag_bits(f, a | v == 0, false, false, false);
    lemma_flag_bits(f, a == v, true, a % 16 < v % 16, a < v);
}

/// The CB rotates and shifts as arithmetic on the operand: RLC, RRC, RL
/// and RR rotate (RL and RR through the carry flag), SLA doubles, SRA
/// halves keeping bit 7, SWAP exchanges the nibbles and SRL halves. C is
/// the bit shifted out (clear for SWAP), Z is set for a zero result, N and
/// H are clear.
pub proof fn law_shifts(v: u8, f: u8)
    ensures ({
        let c: int = if f & 0x10 != 0 { 1 } else { 0 };
        &&& shift_spec(0, v, f).0 == (2 * v + v / 128) % 256
        &&& shift_spec(1, v, f).0 == v / 2 + (v % 2) * 128
        &&& shift_spec(2, v, f).0 == (2 * v + c) % 256
        &&& shift_spec(3, v, f).0 == v / 2 + c * 128
        &&& shift_spec(4, v, f).0 == (2 * v) % 256
        &&& shift_spec(5, v, f).0 == v / 2 + (v / 128) * 128
        &&& shift_spec(6, v, f).0 == (v % 16) * 16 + v / 16
        &&& shift_spec(7, v, f).0 == v / 2
        &&& forall|op: int| 0 <= op <= 7 ==> {
            let (r, g) = #[trigger] shift_spec(op, v, f);
            &&& (g & 0x80 != 0) == (r == 0)
            &&& g & 0x40 == 0 && g & 0x20 == 0
            &&& (g & 0x10 != 0) == (if op == 6 { false } else if op % 2 == 0 { v >= 128 } else { v % 2 == 1 })
        }
    }),
{
    let cy: u8 = if f & 0x10 != 0 { 1 } else { 0 };
    assert(
        ((v << 1u8) | (v >> 7u8)) == (2 * v + v / 128) % 256
        && ((v >> 1u8) | ((v & 1) << 7u8)) == v / 2 + (v % 2) * 128
        && ((v << 1u8) | cy) == (2 * v + cy) % 256
        && ((v >> 1u8) | (cy << 7u8)) == v / 2 + cy * 128
        && (v << 1u8) == (2 * v) % 256
        && ((v >> 1u8) | (v & 0x80)) == v / 2 + (v / 128) * 128
        && ((v << 4u8) | (v >> 4u8)) == (v % 16) * 16 + v / 16
        && (v >> 1u8) == v / 2
        && ((v >> 7u8 == 1) == (v >= 128))
        && ((v & 1 == 1) == (v % 2 == 1))
    ) by (bit_vector)
        requires cy <= 1;
    assert forall|op: int| 0 <= op <= 7 implies {
        let (r, g) = #[trigger] shift_spec(op, v, f);
        &&& (g & 0x80 != 0) == (r == 0)
        &&& g & 0x40 == 0 && g & 0x20 == 0
        &&& (g & 0x10 != 0) == (if op == 6 { false } else if op % 2 == 0 { v >= 128 } else { v % 2 == 1 })
    } by {
        let (r, g) = shift_spec(op, v, f);
        let cb = g & 0x10 != 0;
        let (r2, c2): (u8, bool) = if op == 0 {
            ((v << 1u8) | (v >> 7u8), v >> 7u8 == 1)
        } else if op == 1 {
            ((v >> 1u8) | ((v & 1) << 7u8), v & 1 == 1)
        } else if op == 2 {
            ((v << 1u8) | cy, v >> 7u8 == 1)
        } else if op == 3 {
            ((v >> 1u8) | (cy << 7u8), v & 1 == 1)
        } else if op == 4 {
            (v << 1u8, v >> 7u8 == 1)
        } else if op == 5 {
            ((v >> 1u8) | (v & 0x80), v & 1 == 1)
        } else if op == 6 {
            ((v << 4u8) | (v >> 4u8), false)
        } else {
            (v >> 1u8, v & 1 == 1)
        };
        assert(r == r2 && g == all_flags(f, r2 == 0, false, false, c2));
        lemma_flag_bits(f, r2 == 0, false, false, c2);
    }
}

/// ADD HL, rr: HL + rr modulo 0x10000; N clear, H on a carry out of bit
/// 11, C on a carry out of bit 15; Z kept.
pub proof fn law_add_hl(hl: u16, v: u16, f: u8)
    ensures ({
        let (r, g) = add_hl_spec(hl, v, f);
        &&& r == (hl + v) % 0x10000
        &&& g & 0x80 == f & 0x80
        &&& g & 0x40 == 0
        &&& (g & 0x20 != 0) == ((hl & 0x0FFF) + (v & 0x0FFF) > 0x0FFF)
        &&& (g & 0x10 != 0) == (hl + v > 0xFFFF)
    }),
{
    let hb: u8 = if hl % 0x1000 + v % 0x1000 > 0xFFF { 0x20 } else { 0 };
    let cb: u8 = if hl + v > 0xFFFF { 0x10 } else { 0 };
    assert(
        hl & 0x0FFF == hl % 0x1000 && v & 0x0FFF == v % 0x1000
        && ((f & 0x8F) | (0u8 | 0u8 | hb | cb)) & 0x80 == f & 0x80
        && ((f & 0x8F) | (0u8 | 0u8 | hb | cb)) & 0x40 == 0
        && (((f & 0x8F) | (0u8 | 0u8 | hb | cb)) & 0x20 != 0) == (hb == 0x20)
        && (((f & 0x8F) | (0u8 | 0u8 | hb | cb)) & 0x10 != 0) == (cb == 0x10)
    ) by (bit_vector)
        requires hb == 0 || hb == 0x20, cb == 0 || cb == 0x10;
}

/// Both nibbles of `x` are decimal digits.
pub open spec fn is_bcd(x: u8) -> bool {
    x % 16 <= 9 && x / 16 <= 9
}

/// The number (0-99) a packed BCD byte stands for.
pub open spec fn bcd_value(x: u8) -> int {
    (x / 16) * 10 + x % 16
}

/// The packed BCD byte of `n` (0-99).
pub open spec fn bcd_of(n: int) -> u8 {
    ((n / 10) * 16 + n % 10) as u8
}

/// The flags that `all_flags` and the DAA flag update write read back.
proof fn lemma_flag_bits(f: u8, z: bool, n: bool, h: bool, c: bool)
    ensures
        (all_flags(f, z, n, h, c) & 0x80 != 0) == z,
        (all_flags(f, z, n, h, c) & 0x40 != 0) == n,
        (all_flags(f, z, n, h, c) & 0x20 != 0) == h,
        (all_flags(f, z, n, h, c) & 0x10 != 0) == c,
        ((f & 0x4F) | flag_bits(z, false, false, c)) & 0x80 != 0 <==> z,
        ((f & 0x4F) | flag_bits(z, false, false, c)) & 0x40 == f & 0x40,
        ((f & 0x4F) | flag_bits(z, false, false, c)) & 0x20 == 0,
        ((f & 0x4F) | flag_bits(z, false, false, c)) & 0x10 != 0 <==> c,
{
    let zb: u8 = if z { 0x80 } else { 0 };
    let nb: u8 = if n { 0x40 } else { 0 };
    let hb: u8 = if h { 0x20 } else { 0 };
    let cb: u8 = if c { 0x10 } else { 0 };
    assert(
        (((f & 0x0F) | (zb | nb | hb | cb)) & 0x80 != 0) == (zb == 0x80)
        && (((f & 0x0F) | (zb | nb | hb | cb)) & 0x40 != 0) == (nb == 0x40)
        && (((f & 0x0F) | (zb | nb | hb | cb)) & 0x20 != 0) == (hb == 0x20)
        && (((f & 0x0F) | (zb | nb | hb | cb)) & 0x10 != 0) == (cb == 0x10)
        && ((((f & 0x4F) | (zb | 0 | 0 | cb)) & 0x80 != 0) == (zb == 0x80))
        && (((f & 0x4F) | (zb | 0 | 0 | cb)) & 0x40 == f & 0x40)
        && (((f & 0x4F) | (zb | 0 | 0 | cb)) & 0x20 == 0)
        && ((((f & 0x4F) | (zb | 0 | 0 | cb)) & 0x10 != 0) == (cb == 0x10))
    ) by (bit_vector)
        requires
            zb == 0 || zb == 0x80, nb == 0 || nb == 0x40, hb == 0 || hb == 0x20, cb == 0 || cb == 0x10;
}

/// ADD of two packed BCD bytes followed by DAA gives the BCD sum modulo
/// 100 with the carry set exactly when the sum exceeds 99; Z follows the
/// result, N and H are clear.
pub proof fn law_daa_after_add(x: u8, y: u8, f: u8)
    requires is_bcd(x), is_bcd(y),
    ensures ({
        let (r, f1) = alu_spec(0, x, y, f);
        let (d, f2) = daa_spec(r, f1);
        &&& d == bcd_of((bcd_value(x) + bcd_value(y)) % 100)
        &&& (f2 & 0x10 != 0) == (bcd_value(x) + bcd_value(y) > 99)
        &&& (f2 & 0x80 != 0) == (d == 0)
        &&& f2 & 0x40 == 0
        &&& f2 & 0x20 == 0
    }),
{
    let (r, f1) = alu_spec(0, x, y, f);
    lemma_flag_bits(f, (x + y) % 256 == 0, false, x % 16 + y % 16 > 15, x + y > 255);
    lemma_daa_add_arith((x / 16) as u16, (x % 16) as u16, (y / 16) as u16, (y % 16) as u16);
    let (d, f2) = daa_spec(r, f1);
    lemma_flag_bits(f1, d == 0, false, false, f1 & 0x10 != 0 || r > 0x99);
}

/// The arithmetic of BCD addition and its decimal adjustment, on the
/// digits `xh xl` and `yh yl`.
proof fn lemma_daa_add_arith(xh: u16, xl: u16, yh: u16, yl: u16)
    by (bit_vector)
    requires xh <= 9, xl <= 9, yh <= 9, yl <= 9,
    ensures
        ({
            let v: u16 = (16 * xh + xl + 16 * yh + yl) as u16;
            let r: u16 = v % 256;
            let carry = v > 255 || r > 0x99;
            let adj: u16 = ((if carry { 0x60u16 } else { 0u16 }) + (if xl + yl > 15 || r % 16 > 9 { 6u16 } else { 0u16 })) as u16;
            let s: u16 = (xh * 10 + xl + yh * 10 + yl) as u16;
            &&& (r + adj) % 256 == ((s % 100) / 10) * 16 + (s % 100) % 10
            &&& carry == (s > 99)
        }),
{
}

/// SUB of two packed BCD bytes followed by DAA gives the BCD difference
/// modulo 100 with the carry set exactly when `x < y`; Z follows the
/// result, N is set and H clear.
pub proof fn law_daa_after_sub(x: u8, y: u8, f: u8)
    requires is_bcd(x), is_bcd(y),
    ensures ({
        let (r, f1) = alu_spec(2, x, y, f);
        let (d, f2) = daa_spec(r, f1);
        &&& d == bcd_of((bcd_value(x) - bcd_value(y) + 100) % 100)
        &&& (f2 & 0x10 != 0) == (x < y)
        &&& (f2 & 0x80 != 0) == (d == 0)
        &&& f2 & 0x40 != 0
        &&& f2 & 0x20 == 0
    }),
{
    let (r, f1) = alu_spec(2, x, y, f);
    lemma_flag_bits(f, r == 0, true, x % 16 < y % 16, x < y);
    lemma_daa_sub_arith((x / 16) as u16, (x % 16) as u16, (y / 16) as u16, (y % 16) as u16);
    let (d, f2) = daa_spec(r, f1);
    lemma_flag_bits(f1, d == 0, false, false, x < y);
}

/// The arithmetic of BCD subtraction and its decimal adjustment, on the
/// digits `xh xl` and `yh yl`.
proof fn lemma_daa_sub_arith(xh: u16, xl: u16, yh: u16, yl: u16)
    by (bit_vector)
    requires xh <= 9, xl <= 9, yh <= 9, yl <= 9,
    ensures
        ({
            let x: u16 = (16 * xh + xl) as u16;
            let y: u16 = (16 * yh + yl) as u16;
            let r: u16 = ((x + 256 - y) % 256) as u16;
            let adj: u16 = ((if x < y { 0x60u16 } else { 0u16 }) + (if xl < yl { 6u16 } else { 0u16 })) as u16;
            let s: u16 = (xh * 10 + xl + 100 - yh * 10 - yl) as u16;
            (r + 256 - adj) % 256 == ((s % 100) / 10) * 16 + (s % 100) % 10
        }),
{
}

pub fn flags_of(f: u8, z: bool, n: bool, h: bool, c: bool) -> (r: u8)
    ensures r == all_flags(f, z, n, h, c),
{
    let zb: u8 = if z { 0x80 } else { 0 };
    let nb: u8 = if n { 0x40 } else { 0 };
    let hb: u8 = if h { 0x20 } else { 0 };
    let cb: u8 = if c { 0x10 } else { 0 };
    (f & 0x0F) | (zb | nb | hb | cb)
}

pub fn inc(v: u8, f: u8) -> (r: (u8, u8))
    ensures r == inc_spec(v, f),
{
    let r = v.wrapping_add(1);
    let zb: u8 = if r == 0 { 0x80 } else { 0 };
    let hb: u8 = if v % 16 == 15 { 0x20 } else { 0 };
    (r, (f & 0x1F) | (zb | 0 | hb | 0))
}

pub fn dec(v: u8, f: u8) -> (r: (u8, u8))
    ensures r == dec_spec(v, f),
{
    let r = v.wrapping_sub(1);
    let zb: u8 = if r == 0 { 0x80 } else { 0 };
    let hb: u8 = if v % 16 == 0 { 0x20 } else { 0 };
    (r, (f & 0x1F) | (zb | 0x40 | hb | 0))
}

/// ALU operation `op` (see [`alu_spec`]).
#[verifier::rlimit(40)]
#[verifier::spinoff_prover]
pub fn alu(op: u8, a: u8, v: u8, f: u8) -> (r: (u8, u8))
    requires op < 8,
    ensures r == alu_spec(op as int, a, v, f),
{
    let cy: u8 = if f & 0x10 != 0 { 1 } else { 0 };
    if op == 0 {
        let r = a as u16 + v as u16;
        ((r % 256) as u8, flags_of(f, r % 256 == 0, false, a % 16 + v % 16 > 15, r > 255))
    } else if op == 1 {
        let r = a as u16 + v as u16 + cy as u16;
        ((r % 256) as u8, flags_of(f, r % 256 == 0, false, a % 16 + v % 16 + cy > 15, r > 255))
    } else if op == 2 {
        let r = a.wrapping_sub(v);
        (r, flags_of(f, r == 0, true, a % 16 < v % 16, a < v))
    } else if op == 3 {
        let r = a.wrapping_sub(v).wrapping_sub(cy);
        (r, flags_of(f, r == 0, true, a % 16 < v % 16 + cy, (a as u16) < (v as u16) + (cy as u16)))
    } else if op == 4 {
        let r = a & v;
        (r, flags_of(f, r == 0, false, true, false))
    } else if op == 5 {
        let r = a ^ v;
        (r, flags_of(f, r == 0, false, false, false))
    } else if op == 6 {
        let r = a | v;
        (r, flags_of(f, r == 0, false, false, false))
    } else {
        (a, flags_of(f, a == v, true, a % 16 < v % 16, a < v))
    }
}

pub fn add_hl(hl: u16, v: u16, f: u8) -> (r: (u16, u8))
    ensures r == add_hl_spec(hl, v, f),
{
    let r = hl as u32 + v as u32;
    let hb: u8 = if hl % 0x1000 + v % 0x1000 > 0xFFF { 0x20 } else { 0 };
    let cb: u8 = if r > 0xFFFF { 0x10 } else { 0 };
    ((r % 0x10000) as u16, (f & 0x8F) | (0u8 | 0u8 | hb | cb))
}

pub fn daa(a: u8, f: u8) -> (r: (u8, u8))
    ensures r == daa_spec(a, f),
{
    let n = f & 0x40 != 0;
    let h = f & 0x20 != 0;
    let c = f & 0x10 != 0;
    if n {
        let adjust: u8 = (if c { 0x60u8 } else { 0 }) + (if h { 6u8 } else { 0 });
        let r = a.wrapping_sub(adjust);
        let zb: u8 = if r == 0 { 0x80 } else { 0 };
        let cb: u8 = if c { 0x10 } else { 0 };
        (r, (f & 0x4F) | (zb | 0 | 0 | cb))
    } else {
        let carry = c || a > 0x99;
        let adjust: u8 = (if carry { 0x60u8 } else { 0 }) + (if h || a % 16 > 9 { 6u8 } else { 0 });
        let r = a.wrapping_add(adjust);
        let zb: u8 = if r == 0 { 0x80 } else { 0 };
        let cb: u8 = if carry { 0x10 } else { 0 };
        (r, (f & 0x4F) | (zb | 0 | 0 | cb))
    }
}

/// Rotate/shift `op` (see [`shift_spec`]).
pub fn shift(op: u8, v: u8, f: u8) -> (r: (u8, u8))
    requires op < 8,
    ensures r == shift_spec(op as int, v, f),
{
    let cy: u8 = if f & 0x10 != 0 { 1 } else { 0 };
    let (r, c): (u8, bool) = if op == 0 {
        ((v << 1u8) | (v >> 7u8), v >> 7u8 == 1)
    } else if op == 1 {
        ((v >> 1u8) | ((v & 1) << 7u8), v & 1 == 1)
    } else if op == 2 {
        ((v << 1u8) | cy, v >> 7u8 == 1)
    } else if op == 3 {
        ((v >> 1u8) | (cy << 7u8), v & 1 == 1)
    } else if op == 4 {
        (v << 1u8, v >> 7u8 == 1)
    } else if op == 5 {
        ((v >> 1u8) | (v & 0x80), v & 1 == 1)
    } else if op == 6 {
        ((v << 4u8) | (v >> 4u8), false)
    } else {
        (v >> 1u8, v & 1 == 1)
    };
    (r, flags_of(f, r == 0, false, false, c))
}

} // verus!
