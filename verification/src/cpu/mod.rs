//! SM83 (Game Boy CPU) core: full instruction set, interrupts, HALT.
//!
//! The semantics of every instruction is stated as a spec function over the
//! CPU state and the bus (see `crate::memory::CpuBus`); `Cpu::step` is
//! verified to compute exactly `step_spec`.
pub mod registers;
pub mod alu;
pub mod timing;
pub mod laws;
pub mod flat;
pub mod length;

use vstd::prelude::*;
use crate::memory::CpuBus;
use registers::{Registers, word, hi_byte, lo_byte, FLAG_C, FLAG_Z};
use alu::{
    inc16, dec16, add16, sext, r8_reg, r8_set_reg, rr_get, rr_set, rr_stk_get, rr_stk_set, cond,
    alu_spec, inc8_spec, dec8_spec, add_hl_spec, sp_e8_spec, misc_a_spec, rot_spec, bit_spec,
};

verus! {

/// IF (interrupt request) and IE (interrupt enable) live in the memory map.
pub const IF_ADDR: u16 = 0xFF0F;
pub const IE_ADDR: u16 = 0xFFFF;

#[derive(Debug, Clone, Copy, PartialEq, Eq, Structural)]
pub struct Cpu {
    pub regs: Registers,
    /// Interrupt master enable.
    pub ime: bool,
    /// EI was executed; IME turns on after the following instruction.
    pub ei_pending: bool,
    pub halted: bool,
    /// HALT was executed with IME off and an interrupt pending: the next
    /// opcode fetch does not advance PC.
    pub halt_bug: bool,
}

// ---- the bus, as the CPU sees it ----

/// A clocked read: one M-cycle passes, then the byte at `addr` is read.
pub open spec fn bus_read<S, M: CpuBus<S>>(m: S, addr: u16) -> (S, u8) {
    (M::tick_model(m), M::peek_model(M::tick_model(m), addr))
}

/// A clocked write: one M-cycle passes, then `v` is written to `addr`.
pub open spec fn bus_write<S, M: CpuBus<S>>(m: S, addr: u16, v: u8) -> S {
    M::poke_model(M::tick_model(m), addr, v)
}

/// An internal M-cycle: time passes with no memory access.
pub open spec fn bus_idle<S, M: CpuBus<S>>(m: S) -> S {
    M::tick_model(m)
}

/// Interrupts both enabled (IE) and requested (IF), bit set = pending.
pub open spec fn pending_spec<S, M: CpuBus<S>>(m: S) -> u8 {
    M::peek_model(m, IE_ADDR) & M::peek_model(m, IF_ADDR) & 0x1F
}

/// Highest-priority pending interrupt: the lowest set bit.
pub open spec fn priority_bit(p: u8) -> u8 {
    if p & 1 != 0 {
        0
    } else if p & 2 != 0 {
        1
    } else if p & 4 != 0 {
        2
    } else if p & 8 != 0 {
        3
    } else {
        4
    }
}

impl Cpu {
    pub open spec fn with_regs(self, r: Registers) -> Cpu {
        Cpu { regs: r, ..self }
    }

    pub open spec fn with_pc(self, pc: u16) -> Cpu {
        Cpu { regs: Registers { pc: pc, ..self.regs }, ..self }
    }

    pub open spec fn with_sp(self, sp: u16) -> Cpu {
        Cpu { regs: Registers { sp: sp, ..self.regs }, ..self }
    }
}

// ---- memory helpers ----

pub open spec fn fetch8_spec<S, M: CpuBus<S>>(c: Cpu, m: S) -> (Cpu, S, u8) {
    let (m1, v) = bus_read::<S, M>(m, c.regs.pc);
    (c.with_pc(inc16(c.regs.pc)), m1, v)
}

pub open spec fn fetch16_spec<S, M: CpuBus<S>>(c: Cpu, m: S) -> (Cpu, S, u16) {
    let (c1, m1, lo) = fetch8_spec::<S, M>(c, m);
    let (c2, m2, hi) = fetch8_spec::<S, M>(c1, m1);
    (c2, m2, word(hi, lo))
}

/// A push: an internal M-cycle (SP is decremented), then the high and the
/// low byte are written below SP.
pub open spec fn push16_spec<S, M: CpuBus<S>>(c: Cpu, m: S, v: u16) -> (Cpu, S) {
    let sp1 = dec16(c.regs.sp);
    let m1 = bus_write::<S, M>(bus_idle::<S, M>(m), sp1, hi_byte(v));
    let sp2 = dec16(sp1);
    let m2 = bus_write::<S, M>(m1, sp2, lo_byte(v));
    (c.with_sp(sp2), m2)
}

pub open spec fn pop16_spec<S, M: CpuBus<S>>(c: Cpu, m: S) -> (Cpu, S, u16) {
    let (m1, lo) = bus_read::<S, M>(m, c.regs.sp);
    let sp1 = inc16(c.regs.sp);
    let (m2, hi) = bus_read::<S, M>(m1, sp1);
    (c.with_sp(inc16(sp1)), m2, word(hi, lo))
}

/// Operand `idx` of the B,C,D,E,H,L,(HL),A encoding; (HL) is a bus read.
pub open spec fn get_r8_spec<S, M: CpuBus<S>>(c: Cpu, m: S, idx: u8) -> (S, u8) {
    if idx == 6 {
        bus_read::<S, M>(m, c.regs.hl_spec())
    } else {
        (m, r8_reg(c.regs, idx))
    }
}

/// Store `v` into operand `idx`; (HL) is a bus write.
pub open spec fn set_r8_spec<S, M: CpuBus<S>>(c: Cpu, m: S, idx: u8, v: u8) -> (Cpu, S) {
    if idx == 6 {
        (c, bus_write::<S, M>(m, c.regs.hl_spec(), v))
    } else {
        (c.with_regs(r8_set_reg(c.regs, idx, v)), m)
    }
}

/// Relative jump target.
pub open spec fn jr_target(pc: u16, e: u8) -> u16 {
    add16(pc, sext(e))
}

// ---- instruction semantics ----

/// Opcodes 0x00-0x3F with low bits 000: NOP, LD (a16),SP, STOP (which
/// consumes its padding byte), JR, JR cc (a taken jump spends an internal
/// M-cycle on the new PC).
pub open spec fn block0_z0_spec<S, M: CpuBus<S>>(c: Cpu, m: S, y: u8) -> (Cpu, S, u32) {
    if y == 0 {
        (c, m, 4)
    } else if y == 1 {
        let (c1, m1, addr) = fetch16_spec::<S, M>(c, m);
        let m2 = bus_write::<S, M>(m1, addr, lo_byte(c1.regs.sp));
        let m3 = bus_write::<S, M>(m2, inc16(addr), hi_byte(c1.regs.sp));
        (c1, m3, 20)
    } else if y == 2 {
        let (c1, m1, _pad) = fetch8_spec::<S, M>(c, m);
        (c1, M::stop_model(m1), 8)
    } else {
        let (c1, m1, e) = fetch8_spec::<S, M>(c, m);
        if y == 3 || cond(c1.regs, (y - 4) as u8) {
            (c1.with_pc(jr_target(c1.regs.pc, e)), bus_idle::<S, M>(m1), 12)
        } else {
            (c1, m1, 8)
        }
    }
}

/// LD (BC),A / LD (DE),A / LD (HL+),A / LD (HL-),A and the loads into A.
pub open spec fn ld_indirect_spec<S, M: CpuBus<S>>(c: Cpu, m: S, p: u8, q: u8) -> (Cpu, S, u32) {
    let addr = if p == 0 {
        c.regs.bc_spec()
    } else if p == 1 {
        c.regs.de_spec()
    } else {
        c.regs.hl_spec()
    };
    let c1 = if p == 2 {
        c.with_regs(c.regs.with_hl(inc16(addr)))
    } else if p == 3 {
        c.with_regs(c.regs.with_hl(dec16(addr)))
    } else {
        c
    };
    if q == 0 {
        (c1, bus_write::<S, M>(m, addr, c.regs.a), 8)
    } else {
        let (m1, v) = bus_read::<S, M>(m, addr);
        (c1.with_regs(Registers { a: v, ..c1.regs }), m1, 8)
    }
}

/// Opcodes 0x00-0x3F with low bits 001, 010, 011: 16-bit loads, ADD HL,
/// indirect loads through BC/DE/HL+/HL-, 16-bit INC/DEC.
pub open spec fn block0_z123_spec<S, M: CpuBus<S>>(c: Cpu, m: S, z: u8, y: u8) -> (Cpu, S, u32) {
    let p = y / 2;
    let q = y % 2;
    if z == 1 {
        if q == 0 {
            let (c1, m1, v) = fetch16_spec::<S, M>(c, m);
            (c1.with_regs(rr_set(c1.regs, p, v)), m1, 12)
        } else {
            (c.with_regs(add_hl_spec(c.regs, rr_get(c.regs, p))), bus_idle::<S, M>(m), 8)
        }
    } else if z == 2 {
        ld_indirect_spec::<S, M>(c, m, p, q)
    } else {
        let v = rr_get(c.regs, p);
        let nv = if q == 0 {
            inc16(v)
        } else {
            dec16(v)
        };
        (c.with_regs(rr_set(c.regs, p, nv)), bus_idle::<S, M>(m), 8)
    }
}

/// Opcodes 0x00-0x3F with low bits 100-111: INC r, DEC r, LD r,d8 and the
/// accumulator/flag operations.
pub open spec fn block0_z4567_spec<S, M: CpuBus<S>>(c: Cpu, m: S, z: u8, y: u8) -> (Cpu, S, u32) {
    if z == 4 || z == 5 {
        let (m1, v) = get_r8_spec::<S, M>(c, m, y);
        let (r1, res) = if z == 4 {
            inc8_spec(c.regs, v)
        } else {
            dec8_spec(c.regs, v)
        };
        let (c2, m2) = set_r8_spec::<S, M>(c.with_regs(r1), m1, y, res);
        (c2, m2, if y == 6 { 12 } else { 4 })
    } else if z == 6 {
        let (c1, m1, v) = fetch8_spec::<S, M>(c, m);
        let (c2, m2) = set_r8_spec::<S, M>(c1, m1, y, v);
        (c2, m2, if y == 6 { 12 } else { 8 })
    } else {
        (c.with_regs(misc_a_spec(c.regs, y)), m, 4)
    }
}

/// Opcodes 0x00-0x3F.
pub open spec fn block0_spec<S, M: CpuBus<S>>(c: Cpu, m: S, op: u8) -> (Cpu, S, u32) {
    let z = op % 8;
    let y = op / 8;
    if z == 0 {
        block0_z0_spec::<S, M>(c, m, y)
    } else if z <= 3 {
        block0_z123_spec::<S, M>(c, m, z, y)
    } else {
        block0_z4567_spec::<S, M>(c, m, z, y)
    }
}

/// Opcodes 0x40-0x7F: LD r,r' and HALT.
pub open spec fn block1_spec<S, M: CpuBus<S>>(c: Cpu, m: S, op: u8) -> (Cpu, S, u32) {
    if op == 0x76 {
        if !c.ime && pending_spec::<S, M>(m) != 0 {
            (Cpu { halt_bug: true, ..c }, m, 4)
        } else {
            (Cpu { halted: true, ..c }, m, 4)
        }
    } else {
        let dst = (op / 8) % 8;
        let src = op % 8;
        let (m1, v) = get_r8_spec::<S, M>(c, m, src);
        let (c2, m2) = set_r8_spec::<S, M>(c, m1, dst, v);
        (c2, m2, if dst == 6 || src == 6 { 8 } else { 4 })
    }
}

/// Opcodes 0x80-0xBF: ALU A,r.
pub open spec fn block2_spec<S, M: CpuBus<S>>(c: Cpu, m: S, op: u8) -> (Cpu, S, u32) {
    let src = op % 8;
    let (m1, v) = get_r8_spec::<S, M>(c, m, src);
    (c.with_regs(alu_spec(c.regs, (op / 8) % 8, v)), m1, if src == 6 { 8 } else { 4 })
}

/// The CB-prefixed instruction whose second byte is fetched from PC.
pub open spec fn cb_spec<S, M: CpuBus<S>>(c: Cpu, m: S) -> (Cpu, S, u32) {
    let (c1, m1, op) = fetch8_spec::<S, M>(c, m);
    let idx = op % 8;
    let y = (op / 8) % 8;
    let (m2, v) = get_r8_spec::<S, M>(c1, m1, idx);
    let is_hl = idx == 6;
    if op / 64 == 0 {
        let (r, res) = rot_spec(c1.regs, y, v);
        let (c3, m3) = set_r8_spec::<S, M>(c1.with_regs(r), m2, idx, res);
        (c3, m3, if is_hl { 16 } else { 8 })
    } else if op / 64 == 1 {
        (c1.with_regs(bit_spec(c1.regs, y, v)), m2, if is_hl { 12 } else { 8 })
    } else if op / 64 == 2 {
        let (c3, m3) = set_r8_spec::<S, M>(c1, m2, idx, v & !(1u8 << y));
        (c3, m3, if is_hl { 16 } else { 8 })
    } else {
        let (c3, m3) = set_r8_spec::<S, M>(c1, m2, idx, v | (1u8 << y));
        (c3, m3, if is_hl { 16 } else { 8 })
    }
}

/// Conditional or unconditional CALL to a fetched address.
pub open spec fn call_spec<S, M: CpuBus<S>>(c: Cpu, m: S, taken_if: bool) -> (Cpu, S, u32) {
    let (c1, m1, addr) = fetch16_spec::<S, M>(c, m);
    if taken_if {
        let (c2, m2) = push16_spec::<S, M>(c1, m1, c1.regs.pc);
        (c2.with_pc(addr), m2, 24)
    } else {
        (c1, m1, 12)
    }
}

/// Opcodes 0xC0-0xFF. Internal M-cycles: RET cc checks its condition, RET
/// and RETI set PC after the pop, JP and a taken JP cc set PC, ADD SP,e
/// takes two, LD HL,SP+e and LD SP,HL one; PUSH, CALL and RST spend theirs
/// in the push.
pub open spec fn block3_spec<S, M: CpuBus<S>>(c: Cpu, m: S, op: u8) -> (Cpu, S, u32) {
    let z = op % 8;
    let y = (op / 8) % 8;
    let p = y / 2;
    let q = y % 2;
    if z == 0 {
        if y < 4 {
            if cond(c.regs, y) {
                let (c1, m1, a) = pop16_spec::<S, M>(c, bus_idle::<S, M>(m));
                (c1.with_pc(a), bus_idle::<S, M>(m1), 20)
            } else {
                (c, bus_idle::<S, M>(m), 8)
            }
        } else if y == 4 {
            let (c1, m1, off) = fetch8_spec::<S, M>(c, m);
            (c1, bus_write::<S, M>(m1, (0xFF00 + off) as u16, c1.regs.a), 12)
        } else if y == 5 {
            let (c1, m1, e) = fetch8_spec::<S, M>(c, m);
            let (res, f) = sp_e8_spec(c1.regs, e);
            (c1.with_regs(Registers { sp: res, f: f, ..c1.regs }), bus_idle::<S, M>(bus_idle::<S, M>(m1)), 16)
        } else if y == 6 {
            let (c1, m1, off) = fetch8_spec::<S, M>(c, m);
            let (m2, v) = bus_read::<S, M>(m1, (0xFF00 + off) as u16);
            (c1.with_regs(Registers { a: v, ..c1.regs }), m2, 12)
        } else {
            let (c1, m1, e) = fetch8_spec::<S, M>(c, m);
            let (res, f) = sp_e8_spec(c1.regs, e);
            (c1.with_regs(Registers { f: f, ..c1.regs }.with_hl(res)), bus_idle::<S, M>(m1), 12)
        }
    } else if z == 1 {
        if q == 0 {
            let (c1, m1, v) = pop16_spec::<S, M>(c, m);
            (c1.with_regs(rr_stk_set(c1.regs, p, v)), m1, 12)
        } else if p == 0 {
            let (c1, m1, a) = pop16_spec::<S, M>(c, m);
            (c1.with_pc(a), bus_idle::<S, M>(m1), 16)
        } else if p == 1 {
            let (c1, m1, a) = pop16_spec::<S, M>(c, m);
            (Cpu { ime: true, ..c1.with_pc(a) }, bus_idle::<S, M>(m1), 16)
        } else if p == 2 {
            (c.with_pc(c.regs.hl_spec()), m, 4)
        } else {
            (c.with_sp(c.regs.hl_spec()), bus_idle::<S, M>(m), 8)
        }
    } else if z == 2 {
        if y < 4 {
            let (c1, m1, a) = fetch16_spec::<S, M>(c, m);
            if cond(c1.regs, y) {
                (c1.with_pc(a), bus_idle::<S, M>(m1), 16)
            } else {
                (c1, m1, 12)
            }
        } else if y == 4 {
            (c, bus_write::<S, M>(m, (0xFF00 + c.regs.c) as u16, c.regs.a), 8)
        } else if y == 5 {
            let (c1, m1, a) = fetch16_spec::<S, M>(c, m);
            (c1, bus_write::<S, M>(m1, a, c1.regs.a), 16)
        } else if y == 6 {
            let (m1, v) = bus_read::<S, M>(m, (0xFF00 + c.regs.c) as u16);
            (c.with_regs(Registers { a: v, ..c.regs }), m1, 8)
        } else {
            let (c1, m1, a) = fetch16_spec::<S, M>(c, m);
            let (m2, v) = bus_read::<S, M>(m1, a);
            (c1.with_regs(Registers { a: v, ..c1.regs }), m2, 16)
        }
    } else if z == 3 {
        if y == 0 {
            let (c1, m1, a) = fetch16_spec::<S, M>(c, m);
            (c1.with_pc(a), bus_idle::<S, M>(m1), 16)
        } else if y == 1 {
            cb_spec::<S, M>(c, m)
        } else if y == 6 {
            (Cpu { ime: false, ei_pending: false, ..c }, m, 4)
        } else if y == 7 {
            (Cpu { ei_pending: true, ..c }, m, 4)
        } else {
            (c, m, 4)
        }
    } else if z == 4 {
        if y < 4 {
            call_spec::<S, M>(c, m, cond(c.regs, y))
        } else {
            (c, m, 4)
        }
    } else if z == 5 {
        if q == 0 {
            let (c1, m1) = push16_spec::<S, M>(c, m, rr_stk_get(c.regs, p));
            (c1, m1, 16)
        } else if p == 0 {
            call_spec::<S, M>(c, m, true)
        } else {
            (c, m, 4)
        }
    } else if z == 6 {
        let (c1, m1, v) = fetch8_spec::<S, M>(c, m);
        (c1.with_regs(alu_spec(c1.regs, y, v)), m1, 8)
    } else {
        let (c1, m1) = push16_spec::<S, M>(c, m, c.regs.pc);
        (c1.with_pc((y as u16 * 8) as u16), m1, 16)
    }
}

/// Executing opcode `op` (already fetched).
#[verifier::opaque]
pub open spec fn execute_spec<S, M: CpuBus<S>>(c: Cpu, m: S, op: u8) -> (Cpu, S, u32) {
    if op < 0x40 {
        block0_spec::<S, M>(c, m, op)
    } else if op < 0x80 {
        block1_spec::<S, M>(c, m, op)
    } else if op < 0xC0 {
        block2_spec::<S, M>(c, m, op)
    } else {
        block3_spec::<S, M>(c, m, op)
    }
}

/// Servicing interrupt `bit`: acknowledge it in IF, then five M-cycles: two
/// internal ones (the second in the push), the two pushed bytes of PC, and
/// one to jump to the vector.
pub open spec fn dispatch_spec<S, M: CpuBus<S>>(c: Cpu, m: S, bit: u8) -> (Cpu, S, u32) {
    let c1 = Cpu { halted: false, ime: false, ei_pending: false, ..c };
    let m1 = M::poke_model(m, IF_ADDR, M::peek_model(m, IF_ADDR) & !(1u8 << bit));
    let (c2, m2) = push16_spec::<S, M>(c1, bus_idle::<S, M>(m1), c1.regs.pc);
    (c2.with_pc((0x40 + 8 * bit) as u16), bus_idle::<S, M>(m2), 20)
}

/// Wake from HALT when an interrupt is pending with IME off.
pub open spec fn wake_spec<S, M: CpuBus<S>>(c: Cpu, m: S) -> Cpu {
    if !c.ime && c.halted && pending_spec::<S, M>(m) != 0 {
        Cpu { halted: false, ..c }
    } else {
        c
    }
}

/// Fetch and execute one instruction (the HALT-bug fetch does not advance
/// PC; a pending EI takes effect after the instruction).
pub open spec fn run_one_spec<S, M: CpuBus<S>>(c: Cpu, m: S, enable_ime_after: bool) -> (Cpu, S, u32) {
    let (c2, m2, op) = fetch8_spec::<S, M>(c, m);
    let c3 = if c2.halt_bug {
        Cpu { halt_bug: false, ..c2.with_pc(dec16(c2.regs.pc)) }
    } else {
        c2
    };
    let (c4, m4, cycles) = execute_spec::<S, M>(c3, m2, op);
    if enable_ime_after && c4.ei_pending {
        (Cpu { ime: true, ei_pending: false, ..c4 }, m4, cycles)
    } else {
        (c4, m4, cycles)
    }
}

/// One `step`: service an interrupt, idle one M-cycle in HALT, or execute
/// one instruction. Returns the state, the bus and the T-cycles consumed;
/// every M-cycle of them is a bus read, write or idle, in order.
pub open spec fn step_spec<S, M: CpuBus<S>>(c: Cpu, m: S) -> (Cpu, S, u32) {
    let pending = pending_spec::<S, M>(m);
    if c.ime && pending != 0 {
        dispatch_spec::<S, M>(c, m, priority_bit(pending))
    } else {
        let c1 = wake_spec::<S, M>(c, m);
        if c1.halted {
            (c1, bus_idle::<S, M>(m), 4)
        } else {
            run_one_spec::<S, M>(c1, m, c.ei_pending)
        }
    }
}

impl Default for Cpu {
    fn default() -> (r: Cpu)
        ensures
            r.regs == (Registers { a: 0, f: 0, b: 0, c: 0, d: 0, e: 0, h: 0, l: 0, sp: 0, pc: 0 }),
            !r.ime && !r.ei_pending && !r.halted && !r.halt_bug,
    {
        Cpu { regs: Registers::default(), ime: false, ei_pending: false, halted: false, halt_bug: false }
    }
}

impl Cpu {
    /// A CPU in the DMG post-boot state.
    pub fn new() -> (r: Self)
        ensures
            r.regs == Registers::dmg_spec(),
            !r.ime && !r.ei_pending && !r.halted && !r.halt_bug,
    {
        Cpu { regs: Registers::dmg(), ime: false, ei_pending: false, halted: false, halt_bug: false }
    }

    fn pending_interrupts<S, M: CpuBus<S>>(&self, mem: &M) -> (r: u8)
        requires
            mem.bus_inv(),
        ensures
            r == pending_spec::<S, M>(mem.model()),
    {
        mem.peek(IE_ADDR) & mem.peek(IF_ADDR) & 0x1F
    }

    /// Execute one instruction (or service an interrupt / idle in HALT).
    /// Returns the T-cycles consumed.
    pub fn step<S, M: CpuBus<S>>(&mut self, mem: &mut M) -> (cycles: u32)
        requires
            old(mem).bus_inv(),
        ensures
            final(mem).bus_inv(),
            (*final(self), final(mem).model(), cycles) == step_spec::<S, M>(*old(self), old(mem).model()),
    {
        let enable_ime_after = self.ei_pending;
        let pending = self.pending_interrupts(mem);
        if self.ime && pending != 0 {
            return self.dispatch(pending, mem);
        }
        if !self.ime && self.halted && pending != 0 {
            self.halted = false;
        }
        if self.halted {
            mem.idle();
            return 4;
        }
        self.run_one(enable_ime_after, mem)
    }

    fn dispatch<S, M: CpuBus<S>>(&mut self, pending: u8, mem: &mut M) -> (r: u32)
        requires
            old(mem).bus_inv(),
        ensures
            final(mem).bus_inv(),
            (*final(self), final(mem).model(), r) == dispatch_spec::<S, M>(*old(self), old(mem).model(), priority_bit(pending)),
    {
        let bit: u8 = if pending & 1 != 0 {
            0
        } else if pending & 2 != 0 {
            1
        } else if pending & 4 != 0 {
            2
        } else if pending & 8 != 0 {
            3
        } else {
            4
        };
        self.halted = false;
        self.ime = false;
        self.ei_pending = false;
        let if_val = mem.peek(IF_ADDR) & !(1u8 << bit);
        mem.poke(IF_ADDR, if_val);
        mem.idle();
        let pc = self.regs.pc;
        self.push16(mem, pc);
        self.regs.pc = 0x40 + 8 * bit as u16;
        mem.idle();
        20
    }

    fn run_one<S, M: CpuBus<S>>(&mut self, enable_ime_after: bool, mem: &mut M) -> (r: u32)
        requires
            old(mem).bus_inv(),
        ensures
            final(mem).bus_inv(),
            (*final(self), final(mem).model(), r) == run_one_spec::<S, M>(*old(self), old(mem).model(), enable_ime_after),
    {
        let opcode = self.fetch8(mem);
        if self.halt_bug {
            self.regs.pc = self.regs.pc.wrapping_sub(1);
            self.halt_bug = false;
        }
        let cycles = self.execute(opcode, mem);
        if enable_ime_after && self.ei_pending {
            self.ime = true;
            self.ei_pending = false;
        }
        cycles
    }

    // ---- memory helpers ----

    fn fetch8<S, M: CpuBus<S>>(&mut self, mem: &mut M) -> (r: u8)
        requires
            old(mem).bus_inv(),
        ensures
            final(mem).bus_inv(),
            (*final(self), final(mem).model(), r) == fetch8_spec::<S, M>(*old(self), old(mem).model()),
    {
        let v = mem.read(self.regs.pc);
        self.regs.pc = self.regs.pc.wrapping_add(1);
        v
    }

    fn fetch16<S, M: CpuBus<S>>(&mut self, mem: &mut M) -> (r: u16)
        requires
            old(mem).bus_inv(),
        ensures
            final(mem).bus_inv(),
            (*final(self), final(mem).model(), r) == fetch16_spec::<S, M>(*old(self), old(mem).model()),
    {
        let lo = self.fetch8(mem);
        let hi = self.fetch8(mem);
        hi as u16 * 256 + lo as u16
    }

    fn push16<S, M: CpuBus<S>>(&mut self, mem: &mut M, v: u16)
        requires
            old(mem).bus_inv(),
        ensures
            final(mem).bus_inv(),
            (*final(self), final(mem).model()) == push16_spec::<S, M>(*old(self), old(mem).model(), v),
    {
        mem.idle();
        self.regs.sp = self.regs.sp.wrapping_sub(1);
        mem.write(self.regs.sp, (v / 256) as u8);
        self.regs.sp = self.regs.sp.wrapping_sub(1);
        mem.write(self.regs.sp, (v % 256) as u8);
    }

    fn pop16<S, M: CpuBus<S>>(&mut self, mem: &mut M) -> (r: u16)
        requires
            old(mem).bus_inv(),
        ensures
            final(mem).bus_inv(),
            (*final(self), final(mem).model(), r) == pop16_spec::<S, M>(*old(self), old(mem).model()),
    {
        let lo = mem.read(self.regs.sp);
        self.regs.sp = self.regs.sp.wrapping_add(1);
        let hi = mem.read(self.regs.sp);
        self.regs.sp = self.regs.sp.wrapping_add(1);
        hi as u16 * 256 + lo as u16
    }

    fn get_r8<S, M: CpuBus<S>>(&self, idx: u8, mem: &mut M) -> (r: u8)
        requires
            old(mem).bus_inv(),
        ensures
            final(mem).bus_inv(),
            (final(mem).model(), r) == get_r8_spec::<S, M>(*self, old(mem).model(), idx),
    {
        match idx {
            0 => self.regs.b,
            1 => self.regs.c,
            2 => self.regs.d,
            3 => self.regs.e,
            4 => self.regs.h,
            5 => self.regs.l,
            6 => mem.read(self.regs.hl()),
            _ => self.regs.a,
        }
    }

    fn set_r8<S, M: CpuBus<S>>(&mut self, idx: u8, val: u8, mem: &mut M)
        requires
            old(mem).bus_inv(),
        ensures
            final(mem).bus_inv(),
            (*final(self), final(mem).model()) == set_r8_spec::<S, M>(*old(self), old(mem).model(), idx, val),
    {
        match idx {
            0 => self.regs.b = val,
            1 => self.regs.c = val,
            2 => self.regs.d = val,
            3 => self.regs.e = val,
            4 => self.regs.h = val,
            5 => self.regs.l = val,
            6 => mem.write(self.regs.hl(), val),
            _ => self.regs.a = val,
        }
    }

    fn get_rr(&self, p: u8) -> (r: u16)
        ensures
            r == rr_get(self.regs, p),
    {
        if p == 0 {
            self.regs.bc()
        } else if p == 1 {
            self.regs.de()
        } else if p == 2 {
            self.regs.hl()
        } else {
            self.regs.sp
        }
    }

    fn set_rr(&mut self, p: u8, v: u16)
        ensures
            *final(self) == old(self).with_regs(rr_set(old(self).regs, p, v)),
    {
        if p == 0 {
            self.regs.set_bc(v)
        } else if p == 1 {
            self.regs.set_de(v)
        } else if p == 2 {
            self.regs.set_hl(v)
        } else {
            self.regs.sp = v
        }
    }

    fn condition(&self, idx: u8) -> (r: bool)
        ensures
            r == cond(self.regs, idx),
    {
        match idx {
            0 => !self.regs.flag(FLAG_Z),
            1 => self.regs.flag(FLAG_Z),
            2 => !self.regs.flag(FLAG_C),
            _ => self.regs.flag(FLAG_C),
        }
    }

    fn jr<S, M: CpuBus<S>>(&mut self, taken: bool, mem: &mut M) -> (r: u32)
        requires
            old(mem).bus_inv(),
        ensures
            final(mem).bus_inv(),
            ({
                let (c1, m1, e) = fetch8_spec::<S, M>(*old(self), old(mem).model());
                (*final(self), final(mem).model(), r) == if taken {
                    (c1.with_pc(jr_target(c1.regs.pc, e)), bus_idle::<S, M>(m1), 12u32)
                } else {
                    (c1, m1, 8u32)
                }
            }),
    {
        let e = self.fetch8(mem);
        if taken {
            let off: u16 = if e < 128 {
                e as u16
            } else {
                e as u16 + 0xFF00
            };
            self.regs.pc = self.regs.pc.wrapping_add(off);
            mem.idle();
            12
        } else {
            8
        }
    }

    // ---- dispatch ----

    fn execute<S, M: CpuBus<S>>(&mut self, opcode: u8, mem: &mut M) -> (r: u32)
        requires
            old(mem).bus_inv(),
        ensures
            final(mem).bus_inv(),
            (*final(self), final(mem).model(), r) == execute_spec::<S, M>(*old(self), old(mem).model(), opcode),
    {
        reveal(execute_spec);
        if opcode < 0x40 {
            self.execute_block0(opcode, mem)
        } else if opcode < 0x80 {
            self.execute_block1(opcode, mem)
        } else if opcode < 0xC0 {
            let src = opcode % 8;
            let v = self.get_r8(src, mem);
            self.alu((opcode / 8) % 8, v);
            if src == 6 {
                8
            } else {
                4
            }
        } else {
            self.execute_block3(opcode, mem)
        }
    }

    fn execute_block1<S, M: CpuBus<S>>(&mut self, opcode: u8, mem: &mut M) -> (r: u32)
        requires
            old(mem).bus_inv(),
            0x40 <= opcode < 0x80,
        ensures
            final(mem).bus_inv(),
            (*final(self), final(mem).model(), r) == block1_spec::<S, M>(*old(self), old(mem).model(), opcode),
    {
        if opcode == 0x76 {
            if !self.ime && self.pending_interrupts(mem) != 0 {
                self.halt_bug = true;
            } else {
                self.halted = true;
            }
            4
        } else {
            let dst = (opcode / 8) % 8;
            let src = opcode % 8;
            let v = self.get_r8(src, mem);
            self.set_r8(dst, v, mem);
            if dst == 6 || src == 6 {
                8
            } else {
                4
            }
        }
    }

    fn execute_block0<S, M: CpuBus<S>>(&mut self, opcode: u8, mem: &mut M) -> (r: u32)
        requires
            old(mem).bus_inv(),
            opcode < 0x40,
        ensures
            final(mem).bus_inv(),
            (*final(self), final(mem).model(), r) == block0_spec::<S, M>(*old(self), old(mem).model(), opcode),
    {
        let z = opcode % 8;
        let y = opcode / 8;
        if z == 0 {
            self.execute_block0_z0(y, mem)
        } else if z <= 3 {
            self.execute_block0_z123(z, y, mem)
        } else {
            self.execute_block0_z4567(z, y, mem)
        }
    }

    fn execute_block0_z0<S, M: CpuBus<S>>(&mut self, y: u8, mem: &mut M) -> (r: u32)
        requires
            old(mem).bus_inv(),
            y < 8,
        ensures
            final(mem).bus_inv(),
            (*final(self), final(mem).model(), r) == block0_z0_spec::<S, M>(*old(self), old(mem).model(), y),
    {
        if y == 0 {
            4
        } else if y == 1 {
            let addr = self.fetch16(mem);
            mem.write(addr, (self.regs.sp % 256) as u8);
            mem.write(addr.wrapping_add(1), (self.regs.sp / 256) as u8);
            20
        } else if y == 2 {
            self.fetch8(mem);
            mem.stop();
            8
        } else if y == 3 {
            self.jr(true, mem)
        } else {
            let taken = self.condition(y - 4);
            self.jr(taken, mem)
        }
    }

    fn execute_block0_z123<S, M: CpuBus<S>>(&mut self, z: u8, y: u8, mem: &mut M) -> (r: u32)
        requires
            old(mem).bus_inv(),
            1 <= z <= 3,
            y < 8,
        ensures
            final(mem).bus_inv(),
            (*final(self), final(mem).model(), r) == block0_z123_spec::<S, M>(*old(self), old(mem).model(), z, y),
    {
        let p = y / 2;
        let q = y % 2;
        if z == 1 {
            if q == 0 {
                let v = self.fetch16(mem);
                self.set_rr(p, v);
                12
            } else {
                let v = self.get_rr(p);
                self.add_hl(v);
                mem.idle();
                8
            }
        } else if z == 2 {
            self.ld_indirect(p, q, mem)
        } else {
            let v = self.get_rr(p);
            let nv = if q == 0 {
                v.wrapping_add(1)
            } else {
                v.wrapping_sub(1)
            };
            self.set_rr(p, nv);
            mem.idle();
            8
        }
    }

    fn ld_indirect<S, M: CpuBus<S>>(&mut self, p: u8, q: u8, mem: &mut M) -> (r: u32)
        requires
            old(mem).bus_inv(),
        ensures
            final(mem).bus_inv(),
            (*final(self), final(mem).model(), r) == ld_indirect_spec::<S, M>(*old(self), old(mem).model(), p, q),
    {
        let addr = if p == 0 {
            self.regs.bc()
        } else if p == 1 {
            self.regs.de()
        } else {
            self.regs.hl()
        };
        if p == 2 {
            self.regs.set_hl(addr.wrapping_add(1));
        } else if p == 3 {
            self.regs.set_hl(addr.wrapping_sub(1));
        }
        if q == 0 {
            mem.write(addr, self.regs.a);
        } else {
            self.regs.a = mem.read(addr);
        }
        8
    }

    fn execute_block0_z4567<S, M: CpuBus<S>>(&mut self, z: u8, y: u8, mem: &mut M) -> (r: u32)
        requires
            old(mem).bus_inv(),
            4 <= z <= 7,
            y < 8,
        ensures
            final(mem).bus_inv(),
            (*final(self), final(mem).model(), r) == block0_z4567_spec::<S, M>(*old(self), old(mem).model(), z, y),
    {
        if z == 4 || z == 5 {
            let v = self.get_r8(y, mem);
            let res = if z == 4 {
                self.inc8(v)
            } else {
                self.dec8(v)
            };
            self.set_r8(y, res, mem);
            if y == 6 {
                12
            } else {
                4
            }
        } else if z == 6 {
            let v = self.fetch8(mem);
            self.set_r8(y, v, mem);
            if y == 6 {
                12
            } else {
                8
            }
        } else {
            self.misc_a(y);
            4
        }
    }

    fn call<S, M: CpuBus<S>>(&mut self, taken: bool, mem: &mut M) -> (r: u32)
        requires
            old(mem).bus_inv(),
        ensures
            final(mem).bus_inv(),
            (*final(self), final(mem).model(), r) == call_spec::<S, M>(*old(self), old(mem).model(), taken),
    {
        let addr = self.fetch16(mem);
        if taken {
            let pc = self.regs.pc;
            self.push16(mem, pc);
            self.regs.pc = addr;
            24
        } else {
            12
        }
    }

    fn execute_block3<S, M: CpuBus<S>>(&mut self, opcode: u8, mem: &mut M) -> (r: u32)
        requires
            old(mem).bus_inv(),
            0xC0 <= opcode,
        ensures
            final(mem).bus_inv(),
            (*final(self), final(mem).model(), r) == block3_spec::<S, M>(*old(self), old(mem).model(), opcode),
    {
        let z = opcode % 8;
        let y = (opcode / 8) % 8;
        let p = y / 2;
        let q = y % 2;
        if z == 0 {
            if y < 4 {
                if self.condition(y) {
                    mem.idle();
                    self.regs.pc = self.pop16(mem);
                    mem.idle();
                    20
                } else {
                    mem.idle();
                    8
                }
            } else if y == 4 {
                let off = self.fetch8(mem) as u16;
                mem.write(0xFF00 + off, self.regs.a);
                12
            } else if y == 5 {
                let e = self.fetch8(mem);
                self.regs.sp = self.add_sp_e8(e);
                mem.idle();
                mem.idle();
                16
            } else if y == 6 {
                let off = self.fetch8(mem) as u16;
                self.regs.a = mem.read(0xFF00 + off);
                12
            } else {
                let e = self.fetch8(mem);
                let v = self.add_sp_e8(e);
                self.regs.set_hl(v);
                mem.idle();
                12
            }
        } else if z == 1 {
            if q == 0 {
                let v = self.pop16(mem);
                if p == 3 {
                    self.regs.set_af(v);
                } else {
                    self.set_rr(p, v);
                }
                12
            } else if p == 0 {
                self.regs.pc = self.pop16(mem);
                mem.idle();
                16
            } else if p == 1 {
                self.regs.pc = self.pop16(mem);
                self.ime = true;
                mem.idle();
                16
            } else if p == 2 {
                self.regs.pc = self.regs.hl();
                4
            } else {
                self.regs.sp = self.regs.hl();
                mem.idle();
                8
            }
        } else if z == 2 {
            if y < 4 {
                let addr = self.fetch16(mem);
                if self.condition(y) {
                    self.regs.pc = addr;
                    mem.idle();
                    16
                } else {
                    12
                }
            } else if y == 4 {
                mem.write(0xFF00 + self.regs.c as u16, self.regs.a);
                8
            } else if y == 5 {
                let addr = self.fetch16(mem);
                mem.write(addr, self.regs.a);
                16
            } else if y == 6 {
                self.regs.a = mem.read(0xFF00 + self.regs.c as u16);
                8
            } else {
                let addr = self.fetch16(mem);
                self.regs.a = mem.read(addr);
                16
            }
        } else if z == 3 {
            if y == 0 {
                self.regs.pc = self.fetch16(mem);
                mem.idle();
                16
            } else if y == 1 {
                self.execute_cb(mem)
            } else if y == 6 {
                self.ime = false;
                self.ei_pending = false;
                4
            } else if y == 7 {
                self.ei_pending = true;
                4
            } else {
                // Unused opcodes lock the CPU on hardware; treated as NOP.
                4
            }
        } else if z == 4 {
            if y < 4 {
                let taken = self.condition(y);
                self.call(taken, mem)
            } else {
                4
            }
        } else if z == 5 {
            if q == 0 {
                let v = if p == 3 {
                    self.regs.af()
                } else {
                    self.get_rr(p)
                };
                self.push16(mem, v);
                16
            } else if p == 0 {
                self.call(true, mem)
            } else {
                4
            }
        } else if z == 6 {
            let v = self.fetch8(mem);
            self.alu(y, v);
            8
        } else {
            let pc = self.regs.pc;
            self.push16(mem, pc);
            self.regs.pc = y as u16 * 8;
            16
        }
    }

    fn execute_cb<S, M: CpuBus<S>>(&mut self, mem: &mut M) -> (r: u32)
        requires
            old(mem).bus_inv(),
        ensures
            final(mem).bus_inv(),
            (*final(self), final(mem).model(), r) == cb_spec::<S, M>(*old(self), old(mem).model()),
    {
        let op = self.fetch8(mem);
        let idx = op % 8;
        let y = (op / 8) % 8;
        let v = self.get_r8(idx, mem);
        let is_hl = idx == 6;
        if op / 64 == 0 {
            let r = self.rot(y, v);
            self.set_r8(idx, r, mem);
            if is_hl {
                16
            } else {
                8
            }
        } else if op / 64 == 1 {
            self.bit(y, v);
            if is_hl {
                12
            } else {
                8
            }
        } else if op / 64 == 2 {
            self.set_r8(idx, v & !(1u8 << y), mem);
            if is_hl {
                16
            } else {
                8
            }
        } else {
            self.set_r8(idx, v | (1u8 << y), mem);
            if is_hl {
                16
            } else {
                8
            }
        }
    }
}

/// Every step takes at least one M-cycle.
pub proof fn lemma_step_cycles<S, M: CpuBus<S>>(c: Cpu, m: S)
    ensures
        step_spec::<S, M>(c, m).2 >= 4,
{
    reveal(execute_spec);
    let (c2, m2, op) = fetch8_spec::<S, M>(c, m);
    let c3 = if c2.halt_bug {
        Cpu { halt_bug: false, ..c2.with_pc(dec16(c2.regs.pc)) }
    } else {
        c2
    };
    assert(block0_spec::<S, M>(c3, m2, op).2 >= 4);
    assert(block1_spec::<S, M>(c3, m2, op).2 >= 4);
    assert(block2_spec::<S, M>(c3, m2, op).2 >= 4);
    assert(block3_spec::<S, M>(c3, m2, op).2 >= 4);
}

} // verus!
