//! ALU, rotate/shift and register-operand semantics of the SM83.
use vstd::prelude::*;
use super::Cpu;
use super::registers::{
    Registers, flag_bits, make_flags, z_of, n_of, h_of, c_of, FLAG_C, FLAG_H, FLAG_N, FLAG_Z,
};

verus! {

pub open spec fn inc16(x: u16) -> u16 {
    ((x as int + 1) % 0x10000) as u16
}

pub open spec fn dec16(x: u16) -> u16 {
    ((x as int + 0xFFFF) % 0x10000) as u16
}

pub open spec fn add16(x: u16, y: int) -> u16 {
    ((x as int + y) % 0x10000) as u16
}

/// A byte read as a two's-complement signed offset.
pub open spec fn sext(b: u8) -> int {
    if b < 128 {
        b as int
    } else {
        b as int - 256
    }
}

/// Register operand `idx` of the B,C,D,E,H,L,(HL),A encoding (not 6).
pub open spec fn r8_reg(r: Registers, idx: u8) -> u8 {
    if idx == 0 {
        r.b
    } else if idx == 1 {
        r.c
    } else if idx == 2 {
        r.d
    } else if idx == 3 {
        r.e
    } else if idx == 4 {
        r.h
    } else if idx == 5 {
        r.l
    } else {
        r.a
    }
}

pub open spec fn r8_set_reg(r: Registers, idx: u8, v: u8) -> Registers {
    if idx == 0 {
        Registers { b: v, ..r }
    } else if idx == 1 {
        Registers { c: v, ..r }
    } else if idx == 2 {
        Registers { d: v, ..r }
    } else if idx == 3 {
        Registers { e: v, ..r }
    } else if idx == 4 {
        Registers { h: v, ..r }
    } else if idx == 5 {
        Registers { l: v, ..r }
    } else {
        Registers { a: v, ..r }
    }
}

/// Register pair `p` of the BC,DE,HL,SP encoding.
pub open spec fn rr_get(r: Registers, p: u8) -> u16 {
    if p == 0 {
        r.bc_spec()
    } else if p == 1 {
        r.de_spec()
    } else if p == 2 {
        r.hl_spec()
    } else {
        r.sp
    }
}

pub open spec fn rr_set(r: Registers, p: u8, v: u16) -> Registers {
    if p == 0 {
        r.with_bc(v)
    } else if p == 1 {
        r.with_de(v)
    } else if p == 2 {
        r.with_hl(v)
    } else {
        Registers { sp: v, ..r }
    }
}

/// Register pair `p` of the BC,DE,HL,AF encoding (PUSH/POP).
pub open spec fn rr_stk_get(r: Registers, p: u8) -> u16 {
    if p == 3 {
        r.af_spec()
    } else {
        rr_get(r, p)
    }
}

pub open spec fn rr_stk_set(r: Registers, p: u8, v: u16) -> Registers {
    if p == 3 {
        r.with_af(v)
    } else {
        rr_set(r, p, v)
    }
}

/// Condition code `cc` of the NZ,Z,NC,C encoding.
pub open spec fn cond(r: Registers, cc: u8) -> bool {
    if cc == 0 {
        !z_of(r.f)
    } else if cc == 1 {
        z_of(r.f)
    } else if cc == 2 {
        !c_of(r.f)
    } else {
        c_of(r.f)
    }
}

/// The carry-in of ADC/SBC (zero for ADD/SUB/CP).
pub open spec fn carry_in(r: Registers, use_carry: bool) -> int {
    if use_carry && c_of(r.f) {
        1
    } else {
        0
    }
}

/// ADD/ADC: A + val (+ carry).
pub open spec fn add_spec(r: Registers, val: u8, use_carry: bool) -> Registers {
    let c = carry_in(r, use_carry);
    let s = r.a as int + val as int + c;
    Registers {
        a: (s % 256) as u8,
        f: flag_bits(s % 256 == 0, false, r.a as int % 16 + val as int % 16 + c > 15, s > 255),
        ..r
    }
}

/// SUB/SBC/CP: A - val (- carry); CP (`store` false) keeps A.
pub open spec fn sub_spec(r: Registers, val: u8, use_carry: bool, store: bool) -> Registers {
    let c = carry_in(r, use_carry);
    let d = r.a as int - val as int - c;
    Registers {
        a: if store {
            (d % 256) as u8
        } else {
            r.a
        },
        f: flag_bits(d % 256 == 0, true, r.a as int % 16 - val as int % 16 - c < 0, d < 0),
        ..r
    }
}

/// ALU operation `kind` of the ADD,ADC,SUB,SBC,AND,XOR,OR,CP encoding.
pub open spec fn alu_spec(r: Registers, kind: u8, v: u8) -> Registers {
    if kind == 0 {
        add_spec(r, v, false)
    } else if kind == 1 {
        add_spec(r, v, true)
    } else if kind == 2 {
        sub_spec(r, v, false, true)
    } else if kind == 3 {
        sub_spec(r, v, true, true)
    } else if kind == 4 {
        Registers { a: r.a & v, f: flag_bits(r.a & v == 0, false, true, false), ..r }
    } else if kind == 5 {
        Registers { a: r.a ^ v, f: flag_bits(r.a ^ v == 0, false, false, false), ..r }
    } else if kind == 6 {
        Registers { a: r.a | v, f: flag_bits(r.a | v == 0, false, false, false), ..r }
    } else {
        sub_spec(r, v, false, false)
    }
}

/// INC r: returns the flags-updated registers and the result; C is kept.
pub open spec fn inc8_spec(r: Registers, v: u8) -> (Registers, u8) {
    let res = ((v as int + 1) % 256) as u8;
    (Registers { f: flag_bits(res == 0, false, v % 16 == 15, c_of(r.f)), ..r }, res)
}

/// DEC r: returns the flags-updated registers and the result; C is kept.
pub open spec fn dec8_spec(r: Registers, v: u8) -> (Registers, u8) {
    let res = ((v as int + 255) % 256) as u8;
    (Registers { f: flag_bits(res == 0, true, v % 16 == 0, c_of(r.f)), ..r }, res)
}

/// ADD HL,rr; Z is kept.
pub open spec fn add_hl_spec(r: Registers, val: u16) -> Registers {
    let hl = r.hl_spec();
    Registers {
        f: flag_bits(
            z_of(r.f),
            false,
            hl as int % 4096 + val as int % 4096 > 4095,
            hl as int + val as int > 65535,
        ),
        ..r
    }.with_hl(((hl as int + val as int) % 65536) as u16)
}

/// SP plus a signed byte offset (ADD SP,e8 and LD HL,SP+e8): the sum and the
/// flag byte (H and C from the low nibble and low byte).
pub open spec fn sp_e8_spec(r: Registers, e: u8) -> (u16, u8) {
    (
        add16(r.sp, sext(e)),
        flag_bits(false, false, r.sp as int % 16 + e as int % 16 > 15, r.sp as int % 256 + e as int > 255),
    )
}

/// Decimal adjust of A after a BCD addition or subtraction.
pub open spec fn daa_spec(r: Registers) -> Registers {
    let a = r.a;
    let n = n_of(r.f);
    let lo = h_of(r.f) || (!n && a % 16 > 9);
    let hi = c_of(r.f) || (!n && a > 0x99);
    let adjust = (if lo {
        6int
    } else {
        0int
    }) + (if hi {
        0x60int
    } else {
        0int
    });
    let res = (if n {
        (a as int - adjust + 256) % 256
    } else {
        (a as int + adjust) % 256
    }) as u8;
    Registers { a: res, f: flag_bits(res == 0, n, false, hi), ..r }
}

/// Rotate/shift `kind` of the RLC,RRC,RL,RR,SLA,SRA,SWAP,SRL encoding:
/// the flag-updated registers and the result.
pub open spec fn rot_spec(r: Registers, kind: u8, v: u8) -> (Registers, u8) {
    let cin = c_of(r.f);
    let res: u8 = if kind == 0 {
        (v << 1u8) | (v >> 7u8)
    } else if kind == 1 {
        (v >> 1u8) | (v << 7u8)
    } else if kind == 2 {
        (v << 1u8) | (if cin {
            1u8
        } else {
            0u8
        })
    } else if kind == 3 {
        (v >> 1u8) | (if cin {
            0x80u8
        } else {
            0u8
        })
    } else if kind == 4 {
        v << 1u8
    } else if kind == 5 {
        (v >> 1u8) | (v & 0x80u8)
    } else if kind == 6 {
        (v << 4u8) | (v >> 4u8)
    } else {
        v >> 1u8
    };
    let cout = if kind == 0 || kind == 2 || kind == 4 {
        v & 0x80 != 0
    } else if kind == 6 {
        false
    } else {
        v & 1 != 0
    };
    (Registers { f: flag_bits(res == 0, false, false, cout), ..r }, res)
}

/// BIT b,v: Z set when bit `b` of `v` is clear; C is kept.
pub open spec fn bit_spec(r: Registers, b: u8, v: u8) -> Registers {
    Registers { f: flag_bits(v & (1u8 << b) == 0, false, true, c_of(r.f)), ..r }
}

/// The accumulator/flag opcodes 0x07-0x3F with low bits 111, by `y`:
/// RLCA, RRCA, RLA, RRA, DAA, CPL, SCF, CCF.
pub open spec fn misc_a_spec(r: Registers, y: u8) -> Registers {
    if y < 4 {
        let (r1, res) = rot_spec(r, y, r.a);
        Registers { a: res, f: flag_bits(false, false, false, c_of(r1.f)), ..r1 }
    } else if y == 4 {
        daa_spec(r)
    } else if y == 5 {
        Registers { a: !r.a, f: flag_bits(z_of(r.f), true, true, c_of(r.f)), ..r }
    } else if y == 6 {
        Registers { f: flag_bits(z_of(r.f), false, false, true), ..r }
    } else {
        Registers { f: flag_bits(z_of(r.f), false, false, !c_of(r.f)), ..r }
    }
}

impl Cpu {
    pub(super) fn alu(&mut self, kind: u8, v: u8)
        requires
            kind < 8,
        ensures
            *final(self) == old(self).with_regs(alu_spec(old(self).regs, kind, v)),
    {
        let a = self.regs.a;
        if kind == 0 || kind == 1 {
            self.add(v, kind == 1);
        } else if kind == 2 || kind == 3 || kind == 7 {
            self.sub(v, kind == 3, kind != 7);
        } else if kind == 4 {
            self.regs.a = a & v;
            self.regs.f = make_flags(a & v == 0, false, true, false);
        } else if kind == 5 {
            self.regs.a = a ^ v;
            self.regs.f = make_flags(a ^ v == 0, false, false, false);
        } else {
            self.regs.a = a | v;
            self.regs.f = make_flags(a | v == 0, false, false, false);
        }
    }

    fn add(&mut self, v: u8, use_carry: bool)
        ensures
            *final(self) == old(self).with_regs(add_spec(old(self).regs, v, use_carry)),
    {
        let a = self.regs.a;
        let c: u16 = if use_carry && self.regs.flag(FLAG_C) {
            1
        } else {
            0
        };
        let s: u16 = a as u16 + v as u16 + c;
        self.regs.f = make_flags(s % 256 == 0, false, a as u16 % 16 + v as u16 % 16 + c > 15, s > 255);
        self.regs.a = (s % 256) as u8;
    }

    fn sub(&mut self, v: u8, use_carry: bool, store: bool)
        ensures
            *final(self) == old(self).with_regs(sub_spec(old(self).regs, v, use_carry, store)),
    {
        let a = self.regs.a;
        let c: u16 = if use_carry && self.regs.flag(FLAG_C) {
            1
        } else {
            0
        };
        // a + 256 - v - c never underflows: v + c <= 256.
        let d: u16 = a as u16 + 256 - v as u16 - c;
        assert(d as int % 256 == (a as int - v as int - c as int) % 256);
        self.regs.f = make_flags(
            d % 256 == 0,
            true,
            (a as u16 % 16) < (v as u16 % 16) + c,
            (a as u16) < v as u16 + c,
        );
        if store {
            self.regs.a = (d % 256) as u8;
        }
    }

    pub(super) fn inc8(&mut self, v: u8) -> (r: u8)
        ensures
            (final(self).regs, r) == inc8_spec(old(self).regs, v),
            *final(self) == old(self).with_regs(final(self).regs),
    {
        let r = v.wrapping_add(1);
        self.regs.f = make_flags(r == 0, false, v % 16 == 15, self.regs.flag(FLAG_C));
        r
    }

    pub(super) fn dec8(&mut self, v: u8) -> (r: u8)
        ensures
            (final(self).regs, r) == dec8_spec(old(self).regs, v),
            *final(self) == old(self).with_regs(final(self).regs),
    {
        let r = v.wrapping_sub(1);
        self.regs.f = make_flags(r == 0, true, v % 16 == 0, self.regs.flag(FLAG_C));
        r
    }

    pub(super) fn add_hl(&mut self, val: u16)
        ensures
            *final(self) == old(self).with_regs(add_hl_spec(old(self).regs, val)),
    {
        let hl = self.regs.hl();
        let r = hl.wrapping_add(val);
        self.regs.f = make_flags(
            self.regs.flag(FLAG_Z),
            false,
            hl % 4096 + val % 4096 > 4095,
            (hl as u32) + (val as u32) > 65535,
        );
        self.regs.set_hl(r);
    }

    /// SP + e8: sets the flags and returns the sum (the caller stores it).
    pub(super) fn add_sp_e8(&mut self, e: u8) -> (r: u16)
        ensures
            (r, final(self).regs.f) == sp_e8_spec(old(self).regs, e),
            *final(self) == old(self).with_regs(Registers { f: final(self).regs.f, ..old(self).regs }),
    {
        let sp = self.regs.sp;
        self.regs.f = make_flags(false, false, sp % 16 + e as u16 % 16 > 15, sp % 256 + e as u16 > 255);
        let off: u16 = if e < 128 {
            e as u16
        } else {
            e as u16 + 0xFF00
        };
        sp.wrapping_add(off)
    }

    pub(super) fn rot(&mut self, kind: u8, v: u8) -> (r: u8)
        ensures
            (final(self).regs, r) == rot_spec(old(self).regs, kind, v),
            *final(self) == old(self).with_regs(final(self).regs),
    {
        let cin = self.regs.flag(FLAG_C);
        let res: u8 = if kind == 0 {
            (v << 1u8) | (v >> 7u8)
        } else if kind == 1 {
            (v >> 1u8) | (v << 7u8)
        } else if kind == 2 {
            (v << 1u8) | (if cin {
                1u8
            } else {
                0u8
            })
        } else if kind == 3 {
            (v >> 1u8) | (if cin {
                0x80u8
            } else {
                0u8
            })
        } else if kind == 4 {
            v << 1u8
        } else if kind == 5 {
            (v >> 1u8) | (v & 0x80u8)
        } else if kind == 6 {
            (v << 4u8) | (v >> 4u8)
        } else {
            v >> 1u8
        };
        let cout = if kind == 0 || kind == 2 || kind == 4 {
            v & 0x80 != 0
        } else if kind == 6 {
            false
        } else {
            v & 1 != 0
        };
        self.regs.f = make_flags(res == 0, false, false, cout);
        res
    }

    pub(super) fn bit(&mut self, b: u8, v: u8)
        requires
            b < 8,
        ensures
            *final(self) == old(self).with_regs(bit_spec(old(self).regs, b, v)),
    {
        self.regs.f = make_flags(v & (1u8 << b) == 0, false, true, self.regs.flag(FLAG_C));
    }

    fn daa(&mut self)
        ensures
            *final(self) == old(self).with_regs(daa_spec(old(self).regs)),
    {
        let a = self.regs.a;
        let n = self.regs.flag(FLAG_N);
        let lo = self.regs.flag(FLAG_H) || (!n && a % 16 > 9);
        let hi = self.regs.flag(FLAG_C) || (!n && a > 0x99);
        let adjust: u8 = (if lo {
            6u8
        } else {
            0u8
        }) + (if hi {
            0x60u8
        } else {
            0u8
        });
        let res = if n {
            a.wrapping_sub(adjust)
        } else {
            a.wrapping_add(adjust)
        };
        self.regs.a = res;
        self.regs.f = make_flags(res == 0, n, false, hi);
    }

    pub(super) fn misc_a(&mut self, y: u8)
        ensures
            *final(self) == old(self).with_regs(misc_a_spec(old(self).regs, y)),
    {
        if y < 4 {
            let a = self.regs.a;
            let res = self.rot(y, a);
            let c = self.regs.flag(FLAG_C);
            self.regs.a = res;
            self.regs.f = make_flags(false, false, false, c);
        } else if y == 4 {
            self.daa();
        } else if y == 5 {
            let z = self.regs.flag(FLAG_Z);
            let c = self.regs.flag(FLAG_C);
            self.regs.a = !self.regs.a;
            self.regs.f = make_flags(z, true, true, c);
        } else if y == 6 {
            let z = self.regs.flag(FLAG_Z);
            self.regs.f = make_flags(z, false, false, true);
        } else {
            let z = self.regs.flag(FLAG_Z);
            let c = self.regs.flag(FLAG_C);
            self.regs.f = make_flags(z, false, false, !c);
        }
    }
}

} // verus!
