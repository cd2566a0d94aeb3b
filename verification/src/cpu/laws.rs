//! Laws of the SM83 arithmetic, in terms of A and the flags as `flag`
//! reads them.
use vstd::prelude::*;
use super::alu::{add_spec, alu_spec, carry_in, daa_spec, misc_a_spec, rot_spec, sub_spec};
use super::registers::{c_of, h_of, lemma_flag_bits, n_of, z_of, Registers};

verus! {

/// ADD A,v (`use_carry` false) and ADC A,v (true): A becomes the low byte
/// of A + v + carry-in; Z is set for a zero result, N is clear, H is the
/// carry out of bit 3, C the carry out of bit 7; the low nibble of F stays
/// clear and no other register changes.
pub proof fn lemma_add_law(r: Registers, v: u8, use_carry: bool)
    ensures
        ({
            let sum = r.a as int + v as int + carry_in(r, use_carry);
            let r2 = add_spec(r, v, use_carry);
            &&& r2.a == sum % 256
            &&& z_of(r2.f) == (sum % 256 == 0)
            &&& !n_of(r2.f)
            &&& h_of(r2.f) == (r.a % 16 + v % 16 + carry_in(r, use_carry) > 15)
            &&& c_of(r2.f) == (sum > 255)
            &&& r2.f & 0x0F == 0
            &&& r2 == Registers { a: r2.a, f: r2.f, ..r }
        }),
{
    let c = carry_in(r, use_carry);
    let s = r.a as int + v as int + c;
    lemma_flag_bits(s % 256 == 0, false, r.a as int % 16 + v as int % 16 + c > 15, s > 255);
}

/// SUB/SBC (`store` true) and CP (`store` false): the flags of
/// A - v - carry-in (Z for a zero low byte, N set, H the borrow from bit 4,
/// C the borrow); SUB and SBC store the low byte in A, CP keeps A. No other
/// register changes.
pub proof fn lemma_sub_law(r: Registers, v: u8, use_carry: bool, store: bool)
    ensures
        ({
            let d = r.a as int - v as int - carry_in(r, use_carry);
            let r2 = sub_spec(r, v, use_carry, store);
            &&& r2.a == if store { d % 256 } else { r.a as int }
            &&& z_of(r2.f) == (d % 256 == 0)
            &&& n_of(r2.f)
            &&& h_of(r2.f) == (r.a % 16 - v % 16 - carry_in(r, use_carry) < 0)
            &&& c_of(r2.f) == (d < 0)
            &&& r2.f & 0x0F == 0
            &&& r2 == Registers { a: r2.a, f: r2.f, ..r }
        }),
{
    let c = carry_in(r, use_carry);
    let d = r.a as int - v as int - c;
    lemma_flag_bits(d % 256 == 0, true, r.a as int % 16 - v as int % 16 - c < 0, d < 0);
}

/// CP v: A is unchanged; Z says A == v, N is set, H says the low nibble of
/// A is below that of v, C says A < v.
pub proof fn lemma_cp_law(r: Registers, v: u8)
    ensures
        alu_spec(r, 7, v).a == r.a,
        z_of(alu_spec(r, 7, v).f) == (r.a == v),
        n_of(alu_spec(r, 7, v).f),
        h_of(alu_spec(r, 7, v).f) == (r.a % 16 < v % 16),
        c_of(alu_spec(r, 7, v).f) == (r.a < v),
{
    lemma_sub_law(r, v, false, false);
}

/// The decimal value of a packed-BCD byte.
pub open spec fn bcd_value(x: u8) -> int {
    (x / 16) as int * 10 + (x % 16) as int
}

/// The packed-BCD byte of `n` in 0..100.
pub open spec fn to_bcd(n: int) -> int {
    (n / 10) * 16 + n % 10
}

pub open spec fn is_bcd(x: u8) -> bool {
    x % 16 <= 9 && x / 16 <= 9
}

proof fn lemma_daa_add_arith(x: u8, y: u8)
    requires
        is_bcd(x),
        is_bcd(y),
    ensures
        ({
            let s = x as int + y as int;
            let a1 = s % 256;
            let lo = x % 16 + y % 16 > 15 || a1 % 16 > 9;
            let hi = s > 255 || a1 > 0x99;
            let adj = (if lo { 6int } else { 0int }) + (if hi { 0x60int } else { 0int });
            let d = bcd_value(x) + bcd_value(y);
            &&& (a1 + adj) % 256 == to_bcd(d % 100)
            &&& hi == (d >= 100)
        }),
{
    let xx = x as u16;
    let yy = y as u16;
    let s16 = (xx + yy) as u16;
    let a16 = (s16 % 256) as u16;
    let lo = xx % 16 + yy % 16 > 15 || a16 % 16 > 9;
    let hi = s16 > 255 || a16 > 0x99;
    let adj: u16 = ((if lo { 6u16 } else { 0u16 }) + (if hi { 0x60u16 } else { 0u16 })) as u16;
    let d16 = ((xx / 16) * 10 + xx % 16 + (yy / 16) * 10 + yy % 16) as u16;
    let r16 = ((a16 + adj) % 256) as u16;
    assert(r16 == ((d16 % 100) / 10) * 16 + (d16 % 100) % 10 && hi == (d16 >= 100)) by (bit_vector)
        requires
            xx % 16 <= 9,
            xx / 16 <= 9,
            yy % 16 <= 9,
            yy / 16 <= 9,
            xx < 256,
            yy < 256,
            s16 == (xx + yy) as u16,
            a16 == (s16 % 256) as u16,
            lo == (xx % 16 + yy % 16 > 15 || a16 % 16 > 9),
            hi == (s16 > 255 || a16 > 0x99),
            adj == ((if lo { 6u16 } else { 0u16 }) + (if hi { 0x60u16 } else { 0u16 })) as u16,
            d16 == ((xx / 16) * 10 + xx % 16 + (yy / 16) * 10 + yy % 16) as u16,
            r16 == ((a16 + adj) % 256) as u16,
    ;
}

proof fn lemma_daa_sub_arith(x: u8, y: u8)
    requires
        is_bcd(x),
        is_bcd(y),
    ensures
        ({
            let a1 = (x as int - y as int) % 256;
            let lo = x % 16 - y % 16 < 0;
            let hi = x < y;
            let adj = (if lo { 6int } else { 0int }) + (if hi { 0x60int } else { 0int });
            let d = bcd_value(x) + 100 - bcd_value(y);
            &&& (a1 - adj + 256) % 256 == to_bcd(d % 100)
            &&& hi == (bcd_value(x) < bcd_value(y))
        }),
{
    let xx = x as u16;
    let yy = y as u16;
    let a16 = ((xx + 256 - yy) % 256) as u16;
    let lo = xx % 16 < yy % 16;
    let hi = xx < yy;
    let adj: u16 = ((if lo { 6u16 } else { 0u16 }) + (if hi { 0x60u16 } else { 0u16 })) as u16;
    let vx = ((xx / 16) * 10 + xx % 16) as u16;
    let vy = ((yy / 16) * 10 + yy % 16) as u16;
    let d16 = (vx + 100 - vy) as u16;
    let r16 = ((a16 + 256 - adj) % 256) as u16;
    assert(r16 == ((d16 % 100) / 10) * 16 + (d16 % 100) % 10 && hi == (vx < vy)) by (bit_vector)
        requires
            xx % 16 <= 9,
            xx / 16 <= 9,
            yy % 16 <= 9,
            yy / 16 <= 9,
            xx < 256,
            yy < 256,
            a16 == ((xx + 256 - yy) % 256) as u16,
            lo == (xx % 16 < yy % 16),
            hi == (xx < yy),
            adj == ((if lo { 6u16 } else { 0u16 }) + (if hi { 0x60u16 } else { 0u16 })) as u16,
            vx == ((xx / 16) * 10 + xx % 16) as u16,
            vy == ((yy / 16) * 10 + yy % 16) as u16,
            d16 == (vx + 100 - vy) as u16,
            r16 == ((a16 + 256 - adj) % 256) as u16,
    ;
    vstd::arithmetic::div_mod::lemma_mod_add_multiples_vanish(x as int - y as int, 256);
    assert((x as int - y as int) % 256 == a16 as int);
    assert(bcd_value(x) == vx && bcd_value(y) == vy);
}

/// DAA after ADD: with A and the operand packed BCD, ADD A,y then DAA
/// leaves in A the BCD of the decimal sum modulo 100, C set exactly when the
/// sum reached 100, Z set exactly for a zero result, H and N clear.
pub proof fn lemma_daa_after_add(r: Registers, y: u8)
    requires
        is_bcd(r.a),
        is_bcd(y),
    ensures
        ({
            let d = bcd_value(r.a) + bcd_value(y);
            let r2 = daa_spec(alu_spec(r, 0, y));
            &&& r2.a == to_bcd(d % 100)
            &&& c_of(r2.f) == (d >= 100)
            &&& z_of(r2.f) == (r2.a == 0)
            &&& !h_of(r2.f)
            &&& !n_of(r2.f)
        }),
{
    lemma_add_law(r, y, false);
    lemma_daa_add_arith(r.a, y);
    let r1 = alu_spec(r, 0, y);
    let r2 = daa_spec(r1);
    lemma_flag_bits(r2.a == 0, false, false, c_of(r2.f));
    lemma_flag_bits(
        r2.a == 0,
        false,
        false,
        c_of(r1.f) || (!n_of(r1.f) && r1.a > 0x99),
    );
}

/// DAA after SUB: with A and the operand packed BCD, SUB y then DAA leaves
/// in A the BCD of the decimal difference modulo 100, C set exactly when
/// the operand was the larger, Z set exactly for a zero result, H clear and
/// N set.
pub proof fn lemma_daa_after_sub(r: Registers, y: u8)
    requires
        is_bcd(r.a),
        is_bcd(y),
    ensures
        ({
            let d = bcd_value(r.a) + 100 - bcd_value(y);
            let r2 = daa_spec(alu_spec(r, 2, y));
            &&& r2.a == to_bcd(d % 100)
            &&& c_of(r2.f) == (bcd_value(r.a) < bcd_value(y))
            &&& z_of(r2.f) == (r2.a == 0)
            &&& !h_of(r2.f)
            &&& n_of(r2.f)
        }),
{
    lemma_sub_law(r, y, false, true);
    lemma_daa_sub_arith(r.a, y);
    let r1 = alu_spec(r, 2, y);
    let r2 = daa_spec(r1);
    lemma_flag_bits(r2.a == 0, true, false, c_of(r1.f) || (!n_of(r1.f) && r1.a > 0x99));
}

proof fn lemma_rot_arith(v: u8)
    ensures
        (v << 1u8) | (v >> 7u8) == ((v % 128) * 2 + v / 128) as u8,
        (v >> 1u8) | (v << 7u8) == (v / 2 + (v % 2) * 128) as u8,
        (v << 1u8) | 1u8 == ((v % 128) * 2 + 1) as u8,
        (v << 1u8) | 0u8 == ((v % 128) * 2) as u8,
        (v >> 1u8) | 0x80u8 == (v / 2 + 128) as u8,
        (v >> 1u8) | 0u8 == v / 2,
        v << 1u8 == ((v % 128) * 2) as u8,
        (v >> 1u8) | (v & 0x80u8) == (v / 2 + (v / 128) * 128) as u8,
        (v << 4u8) | (v >> 4u8) == ((v % 16) * 16 + v / 16) as u8,
        v >> 1u8 == v / 2,
        (v & 0x80 != 0) == (v >= 128),
        (v & 1 != 0) == (v % 2 == 1),
{
    assert((v << 1u8) | (v >> 7u8) == ((v % 128) * 2 + v / 128) as u8 && (v >> 1u8) | (v << 7u8)
        == (v / 2 + (v % 2) * 128) as u8 && (v << 1u8) | 1u8 == ((v % 128) * 2 + 1) as u8 && (v
        << 1u8) | 0u8 == ((v % 128) * 2) as u8 && (v >> 1u8) | 0x80u8 == (v / 2 + 128) as u8 && (v
        >> 1u8) | 0u8 == v / 2 && v << 1u8 == ((v % 128) * 2) as u8 && (v >> 1u8) | (v & 0x80u8)
        == (v / 2 + (v / 128) * 128) as u8 && (v << 4u8) | (v >> 4u8) == ((v % 16) * 16 + v / 16)
        as u8 && v >> 1u8 == v / 2 && (v & 0x80 != 0) == (v >= 128) && (v & 1 != 0) == (v % 2
        == 1)) by (bit_vector);
}

/// The eight CB rotates and shifts, by `kind` (the opcode's bits 5-3), as
/// arithmetic on the operand `v` and the carry-in:
/// RLC moves bit 7 round to bit 0, RRC bit 0 round to bit 7, RL and RR
/// rotate through the carry, SLA shifts left with a zero in, SRA shifts
/// right keeping bit 7, SWAP exchanges the nibbles and SRL shifts right
/// with a zero in. C takes the bit shifted out (bit 7 for the left moves,
/// bit 0 for the right ones; clear for SWAP), Z is set for a zero result,
/// N and H are clear, and no other register changes.
pub proof fn lemma_rotate_law(r: Registers, kind: u8, v: u8)
    requires
        kind < 8,
    ensures
        ({
            let (r2, res) = rot_spec(r, kind, v);
            let cin: int = if c_of(r.f) { 1 } else { 0 };
            &&& kind == 0 ==> res == (2 * v) % 256 + v / 128 && c_of(r2.f) == (v >= 128)
            &&& kind == 1 ==> res == v / 2 + (v % 2) * 128 && c_of(r2.f) == (v % 2 == 1)
            &&& kind == 2 ==> res == (2 * v) % 256 + cin && c_of(r2.f) == (v >= 128)
            &&& kind == 3 ==> res == v / 2 + cin * 128 && c_of(r2.f) == (v % 2 == 1)
            &&& kind == 4 ==> res == (2 * v) % 256 && c_of(r2.f) == (v >= 128)
            &&& kind == 5 ==> res == v / 2 + (v / 128) * 128 && c_of(r2.f) == (v % 2 == 1)
            &&& kind == 6 ==> res == (v % 16) * 16 + v / 16 && !c_of(r2.f)
            &&& kind == 7 ==> res == v / 2 && c_of(r2.f) == (v % 2 == 1)
            &&& z_of(r2.f) == (res == 0)
            &&& !n_of(r2.f)
            &&& !h_of(r2.f)
            &&& r2.f & 0x0F == 0
            &&& r2 == Registers { f: r2.f, ..r }
        }),
{
    lemma_rot_arith(v);
    let (r2, res) = rot_spec(r, kind, v);
    let cout = if kind == 0 || kind == 2 || kind == 4 {
        v & 0x80 != 0
    } else if kind == 6 {
        false
    } else {
        v & 1 != 0
    };
    lemma_flag_bits(res == 0, false, false, cout);
    assert((2 * v) % 256 == (v % 128) * 2);
}

/// RLCA, RRCA, RLA and RRA (`y` 0 to 3): A is rotated as RLC, RRC, RL and
/// RR rotate it (RRCA: bit 0 goes round to bit 7 and into C), Z, N and H
/// are cleared, and no other register changes.
pub proof fn lemma_rotate_a_law(r: Registers, y: u8)
    requires
        y < 4,
    ensures
        ({
            let r2 = misc_a_spec(r, y);
            let a = r.a;
            let cin: int = if c_of(r.f) { 1 } else { 0 };
            &&& y == 0 ==> r2.a == (2 * a) % 256 + a / 128 && c_of(r2.f) == (a >= 128)
            &&& y == 1 ==> r2.a == a / 2 + (a % 2) * 128 && c_of(r2.f) == (a % 2 == 1)
            &&& y == 2 ==> r2.a == (2 * a) % 256 + cin && c_of(r2.f) == (a >= 128)
            &&& y == 3 ==> r2.a == a / 2 + cin * 128 && c_of(r2.f) == (a % 2 == 1)
            &&& !z_of(r2.f)
            &&& !n_of(r2.f)
            &&& !h_of(r2.f)
            &&& r2.f & 0x0F == 0
            &&& r2 == Registers { a: r2.a, f: r2.f, ..r }
        }),
{
    lemma_rotate_law(r, y, r.a);
    let (r1, res) = rot_spec(r, y, r.a);
    lemma_flag_bits(false, false, false, c_of(r1.f));
}

/// The eight ALU operations on A, by `kind` (the opcode's bits 5-3):
/// ADD, ADC, SUB, SBC, AND, XOR, OR, CP, each with its result in A (CP
/// keeps A) and its carry: the carry out of bit 7 for the additions, the
/// borrow for the subtractions and CP, none for the logical ones. Z says
/// the result (for CP, the difference) is zero, N is set exactly for the
/// subtractions and CP, and AND sets H where XOR and OR clear it.
pub proof fn lemma_alu_law(r: Registers, kind: u8, v: u8)
    requires
        kind < 8,
    ensures
        ({
            let r2 = alu_spec(r, kind, v);
            let a = r.a as int;
            let cin: int = if c_of(r.f) { 1 } else { 0 };
            &&& kind == 0 ==> r2.a == (a + v) % 256 && c_of(r2.f) == (a + v > 255)
            &&& kind == 1 ==> r2.a == (a + v + cin) % 256 && c_of(r2.f) == (a + v + cin > 255)
            &&& kind == 2 ==> r2.a == (a - v) % 256 && c_of(r2.f) == (a < v)
            &&& kind == 3 ==> r2.a == (a - v - cin) % 256 && c_of(r2.f) == (a < v + cin)
            &&& kind == 4 ==> r2.a == r.a & v && !c_of(r2.f) && h_of(r2.f)
            &&& kind == 5 ==> r2.a == r.a ^ v && !c_of(r2.f) && !h_of(r2.f)
            &&& kind == 6 ==> r2.a == r.a | v && !c_of(r2.f) && !h_of(r2.f)
            &&& kind == 7 ==> r2.a == r.a && c_of(r2.f) == (a < v) && z_of(r2.f) == (a == v)
            &&& kind < 7 ==> z_of(r2.f) == (r2.a == 0)
            &&& n_of(r2.f) == (kind == 2 || kind == 3 || kind == 7)
            &&& r2 == Registers { a: r2.a, f: r2.f, ..r }
        }),
{
    if kind == 0 {
        lemma_add_law(r, v, false);
    } else if kind == 1 {
        lemma_add_law(r, v, true);
    } else if kind == 2 {
        lemma_sub_law(r, v, false, true);
    } else if kind == 3 {
        lemma_sub_law(r, v, true, true);
    } else if kind == 4 {
        lemma_flag_bits(r.a & v == 0, false, true, false);
    } else if kind == 5 {
        lemma_flag_bits(r.a ^ v == 0, false, false, false);
    } else if kind == 6 {
        lemma_flag_bits(r.a | v == 0, false, false, false);
    } else {
        lemma_sub_law(r, v, false, false);
    }
}

} // verus!
