//! SM83 disassembler used by the debugger.
use vstd::prelude::*;
use crate::cpu::alu::{alu_spec, rot_spec, sext};
use crate::cpu::laws::{lemma_alu_law, lemma_rotate_law};
use crate::cpu::registers::{c_of, Registers};
use crate::text::{push_char, push_str};

verus! {

// ---- operand names ----

pub open spec fn r8_name(i: u8) -> Seq<char> {
    let i = i % 8;
    if i == 0 {
        "B"@
    } else if i == 1 {
        "C"@
    } else if i == 2 {
        "D"@
    } else if i == 3 {
        "E"@
    } else if i == 4 {
        "H"@
    } else if i == 5 {
        "L"@
    } else if i == 6 {
        "(HL)"@
    } else {
        "A"@
    }
}

fn r8_str(i: u8) -> (r: &'static str)
    ensures
        r@ == r8_name(i),
{
    let i = i % 8;
    if i == 0 {
        "B"
    } else if i == 1 {
        "C"
    } else if i == 2 {
        "D"
    } else if i == 3 {
        "E"
    } else if i == 4 {
        "H"
    } else if i == 5 {
        "L"
    } else if i == 6 {
        "(HL)"
    } else {
        "A"
    }
}

/// Register pairs of the BC,DE,HL,SP encoding (`stack` false) or the
/// BC,DE,HL,AF encoding (`stack` true).
pub open spec fn r16_name(p: u8, stack: bool) -> Seq<char> {
    let p = p % 4;
    if p == 0 {
        "BC"@
    } else if p == 1 {
        "DE"@
    } else if p == 2 {
        "HL"@
    } else if stack {
        "AF"@
    } else {
        "SP"@
    }
}

fn r16_str(p: u8, stack: bool) -> (r: &'static str)
    ensures
        r@ == r16_name(p, stack),
{
    let p = p % 4;
    if p == 0 {
        "BC"
    } else if p == 1 {
        "DE"
    } else if p == 2 {
        "HL"
    } else if stack {
        "AF"
    } else {
        "SP"
    }
}

pub open spec fn cond_name(c: u8) -> Seq<char> {
    let c = c % 4;
    if c == 0 {
        "NZ"@
    } else if c == 1 {
        "Z"@
    } else if c == 2 {
        "NC"@
    } else {
        "C"@
    }
}

fn cond_str(c: u8) -> (r: &'static str)
    ensures
        r@ == cond_name(c),
{
    let c = c % 4;
    if c == 0 {
        "NZ"
    } else if c == 1 {
        "Z"
    } else if c == 2 {
        "NC"
    } else {
        "C"
    }
}

pub open spec fn alu_name(k: u8) -> Seq<char> {
    let k = k % 8;
    if k == 0 {
        "ADD A,"@
    } else if k == 1 {
        "ADC A,"@
    } else if k == 2 {
        "SUB"@
    } else if k == 3 {
        "SBC A,"@
    } else if k == 4 {
        "AND"@
    } else if k == 5 {
        "XOR"@
    } else if k == 6 {
        "OR"@
    } else {
        "CP"@
    }
}

fn alu_str(k: u8) -> (r: &'static str)
    ensures
        r@ == alu_name(k),
{
    let k = k % 8;
    if k == 0 {
        "ADD A,"
    } else if k == 1 {
        "ADC A,"
    } else if k == 2 {
        "SUB"
    } else if k == 3 {
        "SBC A,"
    } else if k == 4 {
        "AND"
    } else if k == 5 {
        "XOR"
    } else if k == 6 {
        "OR"
    } else {
        "CP"
    }
}

pub open spec fn rot_name(k: u8) -> Seq<char> {
    let k = k % 8;
    if k == 0 {
        "RLC"@
    } else if k == 1 {
        "RRC"@
    } else if k == 2 {
        "RL"@
    } else if k == 3 {
        "RR"@
    } else if k == 4 {
        "SLA"@
    } else if k == 5 {
        "SRA"@
    } else if k == 6 {
        "SWAP"@
    } else {
        "SRL"@
    }
}

fn rot_str(k: u8) -> (r: &'static str)
    ensures
        r@ == rot_name(k),
{
    let k = k % 8;
    if k == 0 {
        "RLC"
    } else if k == 1 {
        "RRC"
    } else if k == 2 {
        "RL"
    } else if k == 3 {
        "RR"
    } else if k == 4 {
        "SLA"
    } else if k == 5 {
        "SRA"
    } else if k == 6 {
        "SWAP"
    } else {
        "SRL"
    }
}

// ---- numbers ----

/// Uppercase hex digit of `n < 16`.
pub open spec fn hex_digit(n: u8) -> char {
    if n < 10 {
        (n + 48) as char
    } else {
        (n + 55) as char
    }
}

pub open spec fn hex2(b: u8) -> Seq<char> {
    seq![hex_digit(b / 16), hex_digit(b % 16)]
}

pub open spec fn hex4(w: u16) -> Seq<char> {
    hex2((w / 256) as u8) + hex2((w % 256) as u8)
}

/// Decimal digits of `n`, no leading zeros.
pub open spec fn dec(n: u8) -> Seq<char> {
    if n < 10 {
        seq![(n + 48) as char]
    } else if n < 100 {
        seq![((n / 10) + 48) as char, ((n % 10) + 48) as char]
    } else {
        seq![((n / 100) + 48) as char, ((n / 10 % 10) + 48) as char, ((n % 10) + 48) as char]
    }
}

/// A byte printed as a signed offset (`{}` of an i8).
pub open spec fn signed(b: u8) -> Seq<char> {
    if b < 128 {
        dec(b)
    } else {
        "-"@ + dec((256 - b) as u8)
    }
}

/// A byte printed as a signed offset with an explicit sign (`{:+}`).
pub open spec fn plus_signed(b: u8) -> Seq<char> {
    if b < 128 {
        "+"@ + dec(b)
    } else {
        "-"@ + dec((256 - b) as u8)
    }
}

fn push_hex_digit(s: &mut String, n: u8)
    requires
        n < 16,
    ensures
        final(s)@ == old(s)@.push(hex_digit(n)),
{
    let c = if n < 10 {
        (n + 48) as char
    } else {
        (n + 55) as char
    };
    push_char(s, c);
}

fn push_hex2(s: &mut String, b: u8)
    ensures
        final(s)@ == old(s)@ + hex2(b),
{
    push_hex_digit(s, b / 16);
    push_hex_digit(s, b % 16);
    assert(s@ =~= old(s)@ + hex2(b));
}

fn push_hex4(s: &mut String, w: u16)
    ensures
        final(s)@ == old(s)@ + hex4(w),
{
    push_hex2(s, (w / 256) as u8);
    push_hex2(s, (w % 256) as u8);
    assert(s@ =~= old(s)@ + hex4(w));
}

fn push_dec(s: &mut String, n: u8)
    ensures
        final(s)@ == old(s)@ + dec(n),
{
    if n < 10 {
        push_char(s, (n + 48) as char);
    } else if n < 100 {
        push_char(s, ((n / 10) + 48) as char);
        push_char(s, ((n % 10) + 48) as char);
    } else {
        push_char(s, ((n / 100) + 48) as char);
        push_char(s, ((n / 10 % 10) + 48) as char);
        push_char(s, ((n % 10) + 48) as char);
    }
    assert(s@ =~= old(s)@ + dec(n));
}

fn push_signed(s: &mut String, b: u8, plus: bool)
    ensures
        final(s)@ == old(s)@ + if plus {
            plus_signed(b)
        } else {
            signed(b)
        },
{
    if b < 128 {
        if plus {
            push_str(s, "+");
        }
        push_dec(s, b);
    } else {
        push_str(s, "-");
        push_dec(s, (256 - b as u16) as u8);
    }
    assert(s@ =~= old(s)@ + if plus {
        plus_signed(b)
    } else {
        signed(b)
    });
}

// ---- instructions ----

/// Relative-jump target of a JR at `addr` with offset byte `e`.
pub open spec fn jr_dest(addr: u16, e: u8) -> u16 {
    ((addr as int + 2 + sext(e)) % 0x10000) as u16
}

/// The one-byte, operand-free mnemonics of 0x00-0x3F, if `op` is one.
pub open spec fn fixed0(op: u8) -> Option<Seq<char>> {
    if op == 0x00 {
        Some("NOP"@)
    } else if op == 0x07 {
        Some("RLCA"@)
    } else if op == 0x0F {
        Some("RRCA"@)
    } else if op == 0x17 {
        Some("RLA"@)
    } else if op == 0x1F {
        Some("RRA"@)
    } else if op == 0x27 {
        Some("DAA"@)
    } else if op == 0x2F {
        Some("CPL"@)
    } else if op == 0x37 {
        Some("SCF"@)
    } else if op == 0x3F {
        Some("CCF"@)
    } else if op == 0x02 {
        Some("LD (BC),A"@)
    } else if op == 0x12 {
        Some("LD (DE),A"@)
    } else if op == 0x22 {
        Some("LD (HL+),A"@)
    } else if op == 0x32 {
        Some("LD (HL-),A"@)
    } else if op == 0x0A {
        Some("LD A,(BC)"@)
    } else if op == 0x1A {
        Some("LD A,(DE)"@)
    } else if op == 0x2A {
        Some("LD A,(HL+)"@)
    } else if op == 0x3A {
        Some("LD A,(HL-)"@)
    } else {
        None
    }
}

/// Opcodes 0x00-0x3F: text and length.
pub open spec fn dis0(op: u8, d8: u8, d16: u16, addr: u16) -> (Seq<char>, u16) {
    if fixed0(op) is Some {
        (fixed0(op)->Some_0, 1)
    } else if op == 0x10 {
        ("STOP"@, 2)
    } else if op == 0x08 {
        ("LD ($"@ + hex4(d16) + "),SP"@, 3)
    } else if op % 16 == 1 {
        ("LD "@ + r16_name(op / 16, false) + ",$"@ + hex4(d16), 3)
    } else if op % 16 == 3 {
        ("INC "@ + r16_name(op / 16, false), 1)
    } else if op % 16 == 0x0B {
        ("DEC "@ + r16_name(op / 16, false), 1)
    } else if op % 16 == 9 {
        ("ADD HL,"@ + r16_name(op / 16, false), 1)
    } else if op % 8 == 4 {
        ("INC "@ + r8_name(op / 8), 1)
    } else if op % 8 == 5 {
        ("DEC "@ + r8_name(op / 8), 1)
    } else if op % 8 == 6 {
        ("LD "@ + r8_name(op / 8) + ",$"@ + hex2(d8), 2)
    } else if op == 0x18 {
        ("JR $"@ + hex4(jr_dest(addr, d8)), 2)
    } else {
        // 0x20, 0x28, 0x30, 0x38
        ("JR "@ + cond_name((op / 8) % 4) + ",$"@ + hex4(jr_dest(addr, d8)), 2)
    }
}

/// The CB-prefixed instruction with second byte `cb`.
pub open spec fn dis_cb(cb: u8) -> Seq<char> {
    let reg = r8_name(cb % 8);
    let y = (cb / 8) % 8;
    if cb / 64 == 0 {
        rot_name(y) + " "@ + reg
    } else if cb / 64 == 1 {
        "BIT "@ + seq![(y + 48) as char] + ","@ + reg
    } else if cb / 64 == 2 {
        "RES "@ + seq![(y + 48) as char] + ","@ + reg
    } else {
        "SET "@ + seq![(y + 48) as char] + ","@ + reg
    }
}

/// Opcodes 0xC0-0xFF: text and length.
pub open spec fn dis3(op: u8, d8: u8, d16: u16) -> (Seq<char>, u16) {
    let z = op % 8;
    let y = (op / 8) % 8;
    if op == 0xF3 {
        ("DI"@, 1)
    } else if op == 0xFB {
        ("EI"@, 1)
    } else if op == 0xE8 {
        ("ADD SP,"@ + signed(d8), 2)
    } else if op == 0xF8 {
        ("LD HL,SP"@ + plus_signed(d8), 2)
    } else if op == 0xF9 {
        ("LD SP,HL"@, 1)
    } else if z == 6 {
        (alu_name(y) + " $"@ + hex2(d8), 2)
    } else if op == 0xC9 {
        ("RET"@, 1)
    } else if op == 0xD9 {
        ("RETI"@, 1)
    } else if z == 0 && y < 4 {
        ("RET "@ + cond_name(y), 1)
    } else if op == 0xC3 {
        ("JP $"@ + hex4(d16), 3)
    } else if op == 0xE9 {
        ("JP HL"@, 1)
    } else if z == 2 && y < 4 {
        ("JP "@ + cond_name(y) + ",$"@ + hex4(d16), 3)
    } else if op == 0xCD {
        ("CALL $"@ + hex4(d16), 3)
    } else if z == 4 && y < 4 {
        ("CALL "@ + cond_name(y) + ",$"@ + hex4(d16), 3)
    } else if z == 7 {
        ("RST $"@ + hex2(op & 0x38), 1)
    } else if z == 5 && y % 2 == 0 {
        ("PUSH "@ + r16_name(y / 2, true), 1)
    } else if z == 1 && y % 2 == 0 {
        ("POP "@ + r16_name(y / 2, true), 1)
    } else if op == 0xE0 {
        ("LDH ($"@ + hex2(d8) + "),A"@, 2)
    } else if op == 0xF0 {
        ("LDH A,($"@ + hex2(d8) + ")"@, 2)
    } else if op == 0xE2 {
        ("LD (C),A"@, 1)
    } else if op == 0xF2 {
        ("LD A,(C)"@, 1)
    } else if op == 0xEA {
        ("LD ($"@ + hex4(d16) + "),A"@, 3)
    } else if op == 0xFA {
        ("LD A,($"@ + hex4(d16) + ")"@, 3)
    } else if op == 0xCB {
        (dis_cb(d8), 2)
    } else {
        ("DB $"@ + hex2(op), 1)
    }
}

/// Disassembly of the instruction `op` followed by bytes `b1`, `b2`,
/// located at `addr`: its text and its length in bytes.
pub open spec fn disasm_spec(op: u8, b1: u8, b2: u8, addr: u16) -> (Seq<char>, u16) {
    let d16 = (b2 as int * 256 + b1 as int) as u16;
    if op < 0x40 {
        dis0(op, b1, d16, addr)
    } else if op < 0x80 {
        if op == 0x76 {
            ("HALT"@, 1)
        } else {
            ("LD "@ + r8_name(op / 8) + ","@ + r8_name(op), 1)
        }
    } else if op < 0xC0 {
        (alu_name(op / 8) + " "@ + r8_name(op), 1)
    } else {
        dis3(op, b1, d16)
    }
}

fn fixed0_str(op: u8) -> (r: Option<&'static str>)
    ensures
        r is Some == fixed0(op) is Some,
        r is Some ==> r->Some_0@ == fixed0(op)->Some_0,
{
    if op == 0x00 {
        Some("NOP")
    } else if op == 0x07 {
        Some("RLCA")
    } else if op == 0x0F {
        Some("RRCA")
    } else if op == 0x17 {
        Some("RLA")
    } else if op == 0x1F {
        Some("RRA")
    } else if op == 0x27 {
        Some("DAA")
    } else if op == 0x2F {
        Some("CPL")
    } else if op == 0x37 {
        Some("SCF")
    } else if op == 0x3F {
        Some("CCF")
    } else if op == 0x02 {
        Some("LD (BC),A")
    } else if op == 0x12 {
        Some("LD (DE),A")
    } else if op == 0x22 {
        Some("LD (HL+),A")
    } else if op == 0x32 {
        Some("LD (HL-),A")
    } else if op == 0x0A {
        Some("LD A,(BC)")
    } else if op == 0x1A {
        Some("LD A,(DE)")
    } else if op == 0x2A {
        Some("LD A,(HL+)")
    } else if op == 0x3A {
        Some("LD A,(HL-)")
    } else {
        None
    }
}

fn dis0_exec(op: u8, d8: u8, d16: u16, addr: u16) -> (r: (String, u16))
    requires
        op < 0x40,
    ensures
        (r.0@, r.1) == dis0(op, d8, d16, addr),
{
    let mut s = String::new();
    if let Some(t) = fixed0_str(op) {
        push_str(&mut s, t);
        assert(s@ =~= fixed0(op)->Some_0);
        return (s, 1);
    }
    if op == 0x10 {
        push_str(&mut s, "STOP");
        assert(s@ =~= "STOP"@);
        (s, 2)
    } else if op == 0x08 || op % 16 == 1 || op % 16 == 3 || op % 16 == 0x0B || op % 16 == 9 {
        dis0_wide(op, d16)
    } else if op % 8 == 4 || op % 8 == 5 || op % 8 == 6 {
        dis0_r8(op, d8)
    } else {
        let off: u16 = if d8 < 128 {
            d8 as u16
        } else {
            d8 as u16 + 0xFF00
        };
        let target = addr.wrapping_add(2).wrapping_add(off);
        assert(target == jr_dest(addr, d8));
        if op == 0x18 {
            push_str(&mut s, "JR $");
        } else {
            push_str(&mut s, "JR ");
            push_str(&mut s, cond_str((op / 8) % 4));
            push_str(&mut s, ",$");
        }
        push_hex4(&mut s, target);
        proof {
            let (t, l) = dis0(op, d8, d16, addr);
            assert(s@ =~= t);
        }
        (s, 2)
    }
}

fn dis0_wide(op: u8, d16: u16) -> (r: (String, u16))
    requires
        op < 0x40,
        fixed0(op) is None,
        op != 0x10,
        op == 0x08 || op % 16 == 1 || op % 16 == 3 || op % 16 == 0x0B || op % 16 == 9,
    ensures
        forall|d8: u8, addr: u16| (r.0@, r.1) == #[trigger] dis0(op, d8, d16, addr),
{
    let mut s = String::new();
    let len: u16 = if op == 0x08 {
        push_str(&mut s, "LD ($");
        push_hex4(&mut s, d16);
        push_str(&mut s, "),SP");
        3
    } else if op % 16 == 1 {
        push_str(&mut s, "LD ");
        push_str(&mut s, r16_str(op / 16, false));
        push_str(&mut s, ",$");
        push_hex4(&mut s, d16);
        3
    } else if op % 16 == 3 {
        push_str(&mut s, "INC ");
        push_str(&mut s, r16_str(op / 16, false));
        1
    } else if op % 16 == 0x0B {
        push_str(&mut s, "DEC ");
        push_str(&mut s, r16_str(op / 16, false));
        1
    } else {
        push_str(&mut s, "ADD HL,");
        push_str(&mut s, r16_str(op / 16, false));
        1
    };
    assert forall|d8: u8, addr: u16| (s@, len) == #[trigger] dis0(op, d8, d16, addr) by {
        let (t, l) = dis0(op, d8, d16, addr);
        assert(s@ =~= t);
    }
    (s, len)
}

fn dis0_r8(op: u8, d8: u8) -> (r: (String, u16))
    requires
        op < 0x40,
        fixed0(op) is None,
        op != 0x10,
        !(op == 0x08 || op % 16 == 1 || op % 16 == 3 || op % 16 == 0x0B || op % 16 == 9),
        op % 8 == 4 || op % 8 == 5 || op % 8 == 6,
    ensures
        forall|d16: u16, addr: u16| (r.0@, r.1) == #[trigger] dis0(op, d8, d16, addr),
{
    let mut s = String::new();
    let len: u16 = if op % 8 == 4 {
        push_str(&mut s, "INC ");
        push_str(&mut s, r8_str(op / 8));
        1
    } else if op % 8 == 5 {
        push_str(&mut s, "DEC ");
        push_str(&mut s, r8_str(op / 8));
        1
    } else {
        push_str(&mut s, "LD ");
        push_str(&mut s, r8_str(op / 8));
        push_str(&mut s, ",$");
        push_hex2(&mut s, d8);
        2
    };
    assert forall|d16: u16, addr: u16| (s@, len) == #[trigger] dis0(op, d8, d16, addr) by {
        let (t, l) = dis0(op, d8, d16, addr);
        assert(s@ =~= t);
    }
    (s, len)
}

fn dis_cb_exec(s: &mut String, cb: u8)
    ensures
        final(s)@ == old(s)@ + dis_cb(cb),
{
    let reg = r8_str(cb % 8);
    let y = (cb / 8) % 8;
    if cb / 64 == 0 {
        push_str(s, rot_str(y));
        push_str(s, " ");
    } else {
        if cb / 64 == 1 {
            push_str(s, "BIT ");
        } else if cb / 64 == 2 {
            push_str(s, "RES ");
        } else {
            push_str(s, "SET ");
        }
        push_char(s, (y + 48) as char);
        push_str(s, ",");
    }
    push_str(s, reg);
    assert(s@ =~= old(s)@ + dis_cb(cb));
}

fn dis3_exec(op: u8, d8: u8, d16: u16) -> (r: (String, u16))
    requires
        op >= 0xC0,
    ensures
        (r.0@, r.1) == dis3(op, d8, d16),
{
    let mut s = String::new();
    let z = op % 8;
    let y = (op / 8) % 8;
    let len: u16 = if op == 0xF3 {
        push_str(&mut s, "DI");
        1
    } else if op == 0xFB {
        push_str(&mut s, "EI");
        1
    } else if op == 0xE8 {
        push_str(&mut s, "ADD SP,");
        push_signed(&mut s, d8, false);
        2
    } else if op == 0xF8 {
        push_str(&mut s, "LD HL,SP");
        push_signed(&mut s, d8, true);
        2
    } else if op == 0xF9 {
        push_str(&mut s, "LD SP,HL");
        1
    } else if z == 6 {
        push_str(&mut s, alu_str(y));
        push_str(&mut s, " $");
        push_hex2(&mut s, d8);
        2
    } else if op == 0xC9 {
        push_str(&mut s, "RET");
        1
    } else if op == 0xD9 {
        push_str(&mut s, "RETI");
        1
    } else if z == 0 && y < 4 {
        push_str(&mut s, "RET ");
        push_str(&mut s, cond_str(y));
        1
    } else if op == 0xC3 {
        push_str(&mut s, "JP $");
        push_hex4(&mut s, d16);
        3
    } else if op == 0xE9 {
        push_str(&mut s, "JP HL");
        1
    } else if z == 2 && y < 4 {
        push_str(&mut s, "JP ");
        push_str(&mut s, cond_str(y));
        push_str(&mut s, ",$");
        push_hex4(&mut s, d16);
        3
    } else if op == 0xCD {
        push_str(&mut s, "CALL $");
        push_hex4(&mut s, d16);
        3
    } else if z == 4 && y < 4 {
        push_str(&mut s, "CALL ");
        push_str(&mut s, cond_str(y));
        push_str(&mut s, ",$");
        push_hex4(&mut s, d16);
        3
    } else if z == 7 {
        push_str(&mut s, "RST $");
        push_hex2(&mut s, op & 0x38);
        1
    } else if z == 5 && y % 2 == 0 {
        push_str(&mut s, "PUSH ");
        push_str(&mut s, r16_str(y / 2, true));
        1
    } else if z == 1 && y % 2 == 0 {
        push_str(&mut s, "POP ");
        push_str(&mut s, r16_str(y / 2, true));
        1
    } else if op == 0xE0 {
        push_str(&mut s, "LDH ($");
        push_hex2(&mut s, d8);
        push_str(&mut s, "),A");
        2
    } else if op == 0xF0 {
        push_str(&mut s, "LDH A,($");
        push_hex2(&mut s, d8);
        push_str(&mut s, ")");
        2
    } else if op == 0xE2 {
        push_str(&mut s, "LD (C),A");
        1
    } else if op == 0xF2 {
        push_str(&mut s, "LD A,(C)");
        1
    } else if op == 0xEA {
        push_str(&mut s, "LD ($");
        push_hex4(&mut s, d16);
        push_str(&mut s, "),A");
        3
    } else if op == 0xFA {
        push_str(&mut s, "LD A,($");
        push_hex4(&mut s, d16);
        push_str(&mut s, ")");
        3
    } else if op == 0xCB {
        dis_cb_exec(&mut s, d8);
        2
    } else {
        push_str(&mut s, "DB $");
        push_hex2(&mut s, op);
        1
    };
    proof {
        let (t, l) = dis3(op, d8, d16);
        assert(s@ =~= t);
    }
    (s, len)
}

/// Disassemble the instruction `op`, `b1`, `b2` located at `addr`.
/// Returns (mnemonic, byte length).
pub fn disassemble_bytes(op: u8, b1: u8, b2: u8, addr: u16) -> (r: (String, u16))
    ensures
        (r.0@, r.1) == disasm_spec(op, b1, b2, addr),
{
    let d16 = b2 as u16 * 256 + b1 as u16;
    if op < 0x40 {
        dis0_exec(op, b1, d16, addr)
    } else if op < 0x80 {
        let mut s = String::new();
        if op == 0x76 {
            push_str(&mut s, "HALT");
        } else {
            push_str(&mut s, "LD ");
            push_str(&mut s, r8_str(op / 8));
            push_str(&mut s, ",");
            push_str(&mut s, r8_str(op));
        }
        proof {
            let (t, l) = disasm_spec(op, b1, b2, addr);
            assert(s@ =~= t);
        }
        (s, 1)
    } else if op < 0xC0 {
        let mut s = String::new();
        push_str(&mut s, alu_str(op / 8));
        push_str(&mut s, " ");
        push_str(&mut s, r8_str(op));
        proof {
            let (t, l) = disasm_spec(op, b1, b2, addr);
            assert(s@ =~= t);
        }
        (s, 1)
    } else {
        dis3_exec(op, b1, d16)
    }
}

/// The length in bytes of the instruction whose opcode is `op`.
pub open spec fn instr_len(op: u8) -> u16 {
    disasm_spec(op, 0, 0, 0).1
}

/// An instruction's length depends on its opcode alone, is 1 to 3 bytes,
/// and its text depends only on the bytes within that length.
pub proof fn lemma_disasm_operands(op: u8, b1: u8, b2: u8, addr: u16)
    ensures
        disasm_spec(op, b1, b2, addr).1 == instr_len(op),
        1 <= instr_len(op) <= 3,
        instr_len(op) == 1 ==> disasm_spec(op, b1, b2, addr) == disasm_spec(op, 0, 0, addr),
        instr_len(op) == 2 ==> disasm_spec(op, b1, b2, addr) == disasm_spec(op, b1, 0, addr),
{
}

/// Disassemble one instruction starting at `addr`, reading its bytes with
/// `read`: the opcode, then only as many operand bytes as the instruction
/// has. Returns (mnemonic, byte length).
pub fn disassemble<F: Fn(u16) -> u8>(read: F, addr: u16) -> (r: (String, u16))
    requires
        forall|a: u16| read.requires((a,)),
    ensures
        1 <= r.1 <= 3,
        exists|op: u8, b1: u8, b2: u8|
            {
                &&& read.ensures((addr,), op)
                &&& (r.1 >= 2 ==> read.ensures((addr.wrapping_add(1),), b1))
                &&& (r.1 == 3 ==> read.ensures((addr.wrapping_add(2),), b2))
                &&& r.1 == instr_len(op)
                &&& (r.0@, r.1) == disasm_spec(op, b1, b2, addr)
            },
{
    let op = read(addr);
    proof {
        lemma_disasm_operands(op, 0, 0, addr);
    }
    let first = disassemble_bytes(op, 0, 0, addr);
    if first.1 == 1 {
        return first;
    }
    let b1 = read(addr.wrapping_add(1));
    proof {
        lemma_disasm_operands(op, b1, 0, addr);
    }
    if first.1 == 2 {
        return disassemble_bytes(op, b1, 0, addr);
    }
    let b2 = read(addr.wrapping_add(2));
    proof {
        lemma_disasm_operands(op, b1, b2, addr);
    }
    disassemble_bytes(op, b1, b2, addr)
}

/// A CB-prefixed opcode below 0x40 is shown as the name of the rotate or
/// shift that the CPU executes for its bits 5-3, then its register operand,
/// in two bytes; and each name stands for its operation: for every operand
/// `v` and carry-in, the result that the CPU computes under that kind is
/// the one the name says (RLC/RRC rotate left/right, RL/RR rotate through
/// the carry, SLA shifts left, SRA shifts right keeping bit 7, SWAP
/// exchanges the nibbles, SRL shifts right with a zero in).
pub proof fn lemma_cb_rotate_names(cb: u8, b2: u8, addr: u16, r: Registers, v: u8)
    requires
        cb < 0x40,
    ensures
        disasm_spec(0xCB, cb, b2, addr) == (rot_name(cb / 8) + " "@ + r8_name(cb % 8), 2u16),
        ({
            let name = rot_name(cb / 8);
            let res = rot_spec(r, cb / 8, v).1;
            let cin: int = if c_of(r.f) { 1 } else { 0 };
            &&& name == "RLC"@ ==> res == (2 * v) % 256 + v / 128
            &&& name == "RRC"@ ==> res == v / 2 + (v % 2) * 128
            &&& name == "RL"@ ==> res == (2 * v) % 256 + cin
            &&& name == "RR"@ ==> res == v / 2 + cin * 128
            &&& name == "SLA"@ ==> res == (2 * v) % 256
            &&& name == "SRA"@ ==> res == v / 2 + (v / 128) * 128
            &&& name == "SWAP"@ ==> res == (v % 16) * 16 + v / 16
            &&& name == "SRL"@ ==> res == v / 2
        }),
{
    reveal_strlit("RLC");
    reveal_strlit("RRC");
    reveal_strlit("RL");
    reveal_strlit("RR");
    reveal_strlit("SLA");
    reveal_strlit("SRA");
    reveal_strlit("SWAP");
    reveal_strlit("SRL");
    lemma_rotate_law(r, cb / 8, v);
    assert("RLC"@[1] == 'L' && "RRC"@[1] == 'R' && "SLA"@[1] == 'L' && "SRA"@[1] == 'R');
    assert("RLC"@[0] == 'R' && "SLA"@[0] == 'S' && "SRL"@[1] == 'R' && "SRL"@[2] == 'L');
    assert("RL"@[1] == 'L' && "RR"@[1] == 'R' && "RRC"@[2] == 'C' && "SRA"@[2] == 'A');
}

/// Opcodes 0x80-0xBF are shown, in one byte, as the name of the ALU
/// operation that the CPU executes for their bits 5-3, then the register
/// operand; and each name stands for its operation: for every A, operand
/// `v` and carry-in, the A that the CPU leaves under that kind is the one
/// the name says (CP leaves A as it was).
pub proof fn lemma_alu_names(op: u8, b1: u8, b2: u8, addr: u16, r: Registers, v: u8)
    requires
        0x80 <= op < 0xC0,
    ensures
        disasm_spec(op, b1, b2, addr) == (alu_name(op / 8) + " "@ + r8_name(op), 1u16),
        ({
            let name = alu_name(op / 8);
            let res = alu_spec(r, (op / 8) % 8, v).a;
            let a = r.a as int;
            let cin: int = if c_of(r.f) { 1 } else { 0 };
            &&& name == "ADD A,"@ ==> res == (a + v) % 256
            &&& name == "ADC A,"@ ==> res == (a + v + cin) % 256
            &&& name == "SUB"@ ==> res == (a - v) % 256
            &&& name == "SBC A,"@ ==> res == (a - v - cin) % 256
            &&& name == "AND"@ ==> res == r.a & v
            &&& name == "XOR"@ ==> res == r.a ^ v
            &&& name == "OR"@ ==> res == r.a | v
            &&& name == "CP"@ ==> res == r.a
        }),
{
    reveal_strlit("ADD A,");
    reveal_strlit("ADC A,");
    reveal_strlit("SUB");
    reveal_strlit("SBC A,");
    reveal_strlit("AND");
    reveal_strlit("XOR");
    reveal_strlit("OR");
    reveal_strlit("CP");
    lemma_alu_law(r, (op / 8) % 8, v);
    assert("ADD A,"@[2] == 'D' && "ADC A,"@[2] == 'C' && "SUB"@[0] == 'S' && "AND"@[0] == 'A');
    assert("XOR"@[0] == 'X' && "OR"@[0] == 'O' && "CP"@[0] == 'C');
    assert("SBC A,"@[0] == 'S' && "ADD A,"@[0] == 'A' && "ADC A,"@[0] == 'A');
}

} // verus!
