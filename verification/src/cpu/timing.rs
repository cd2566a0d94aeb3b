//! Cycle accounting of the SM83: every M-cycle of an instruction is one bus
//! read, write or idle, so a bus whose clock counts T-cycles advances by
//! exactly the cycles `step` reports.
use vstd::prelude::*;
use crate::memory::CpuBus;
use super::{
    block0_spec, block0_z0_spec, block0_z123_spec, block0_z4567_spec, block1_spec, block2_spec,
    block3_spec, call_spec, cb_spec, execute_spec, fetch16_spec, fetch8_spec, get_r8_spec,
    ld_indirect_spec, pop16_spec, push16_spec, set_r8_spec, step_spec, Cpu,
};

verus! {

/// `e` advanced by `n` on a 64-bit counter.
pub open spec fn add_t(e: u64, n: int) -> u64 {
    ((e + n) % 0x1_0000_0000_0000_0000) as u64
}

pub broadcast proof fn lemma_add_t(e: u64, a: int, b: int)
    requires
        0 <= a,
        0 <= b,
    ensures
        #[trigger] add_t(add_t(e, a), b) == add_t(e, a + b),
{
    vstd::arithmetic::div_mod::lemma_add_mod_noop_right(b, e + a, 0x1_0000_0000_0000_0000);
}

pub broadcast proof fn lemma_add_t_zero(e: u64)
    ensures
        #[trigger] add_t(e, 0) == e,
{
}

/// A bus model whose counter counts T-cycles: an M-cycle adds 4, while a
/// non-clocking write and STOP add nothing.
pub open spec fn counts_t_cycles<S, M: CpuBus<S>>() -> bool {
    &&& forall|s: S| #[trigger] M::elapsed_model(M::tick_model(s)) == add_t(M::elapsed_model(s), 4)
    &&& forall|s: S, a: u16, v: u8| #[trigger] M::elapsed_model(M::poke_model(s, a, v)) == M::elapsed_model(s)
    &&& forall|s: S| #[trigger] M::elapsed_model(M::stop_model(s)) == M::elapsed_model(s)
}

/// The T-cycles `m2` is ahead of `m`, as the bus counts them.
pub open spec fn ran<S, M: CpuBus<S>>(m: S, m2: S, n: int) -> bool {
    M::elapsed_model(m2) == add_t(M::elapsed_model(m), n)
}

broadcast group group_t_cycles {
    lemma_add_t,
    lemma_add_t_zero,
}

proof fn lemma_helpers<S, M: CpuBus<S>>(c: Cpu, m: S, idx: u8, val: u8, v: u16)
    requires
        counts_t_cycles::<S, M>(),
    ensures
        ran::<S, M>(m, fetch8_spec::<S, M>(c, m).1, 4),
        ran::<S, M>(m, fetch16_spec::<S, M>(c, m).1, 8),
        ran::<S, M>(m, push16_spec::<S, M>(c, m, v).1, 12),
        ran::<S, M>(m, pop16_spec::<S, M>(c, m).1, 8),
        ran::<S, M>(m, get_r8_spec::<S, M>(c, m, idx).0, if idx == 6 { 4 } else { 0 }),
        ran::<S, M>(m, set_r8_spec::<S, M>(c, m, idx, val).1, if idx == 6 { 4 } else { 0 }),
{
    broadcast use group_t_cycles;
    let e = M::elapsed_model(m);
    let m1 = M::tick_model(m);
    assert(M::elapsed_model(m1) == add_t(e, 4));
    let m2 = M::tick_model(m1);
    assert(M::elapsed_model(m2) == add_t(e, 8));
    let m3 = M::tick_model(M::poke_model(m2, 0, 0));
    assert(M::elapsed_model(M::poke_model(m2, 0, 0)) == add_t(e, 8));
}

proof fn lemma_block0<S, M: CpuBus<S>>(c: Cpu, m: S, op: u8)
    requires
        counts_t_cycles::<S, M>(),
        op < 0x40,
    ensures
        ran::<S, M>(m, block0_spec::<S, M>(c, m, op).1, block0_spec::<S, M>(c, m, op).2 - 4),
{
    broadcast use group_t_cycles;
    let y = op / 8;
    let z = op % 8;
    lemma_helpers::<S, M>(c, m, y, 0, 0);
    let (c1, m1, v8) = fetch8_spec::<S, M>(c, m);
    let (c2, m2, v16) = fetch16_spec::<S, M>(c, m);
    lemma_helpers::<S, M>(c2, m2, y, 0, 0);
    lemma_helpers::<S, M>(c1, m1, y, v8, 0);
    if z == 4 || z == 5 {
        let (ma, v) = get_r8_spec::<S, M>(c, m, y);
        lemma_helpers::<S, M>(c, ma, y, 0, 0);
        let r1 = if z == 4 { super::alu::inc8_spec(c.regs, v) } else { super::alu::dec8_spec(c.regs, v) };
        lemma_helpers::<S, M>(c.with_regs(r1.0), ma, y, r1.1, 0);
    }
}

proof fn lemma_block12<S, M: CpuBus<S>>(c: Cpu, m: S, op: u8)
    requires
        counts_t_cycles::<S, M>(),
        0x40 <= op < 0xC0,
    ensures
        op < 0x80 ==> ran::<S, M>(m, block1_spec::<S, M>(c, m, op).1, block1_spec::<S, M>(c, m, op).2 - 4),
        op >= 0x80 ==> ran::<S, M>(m, block2_spec::<S, M>(c, m, op).1, block2_spec::<S, M>(c, m, op).2 - 4),
{
    broadcast use group_t_cycles;
    let src = op % 8;
    let dst = (op / 8) % 8;
    lemma_helpers::<S, M>(c, m, src, 0, 0);
    let (m1, v) = get_r8_spec::<S, M>(c, m, src);
    lemma_helpers::<S, M>(c, m1, dst, v, 0);
}

proof fn lemma_cb<S, M: CpuBus<S>>(c: Cpu, m: S)
    requires
        counts_t_cycles::<S, M>(),
    ensures
        ran::<S, M>(m, cb_spec::<S, M>(c, m).1, cb_spec::<S, M>(c, m).2 - 4),
{
    broadcast use group_t_cycles;
    let (c1, m1, op) = fetch8_spec::<S, M>(c, m);
    let idx = op % 8;
    let y = (op / 8) % 8;
    lemma_helpers::<S, M>(c, m, idx, 0, 0);
    lemma_helpers::<S, M>(c1, m1, idx, 0, 0);
    let (m2, v) = get_r8_spec::<S, M>(c1, m1, idx);
    let (r, res) = super::alu::rot_spec(c1.regs, y, v);
    lemma_helpers::<S, M>(c1.with_regs(r), m2, idx, res, 0);
    lemma_helpers::<S, M>(c1, m2, idx, v & !(1u8 << y), 0);
    lemma_helpers::<S, M>(c1, m2, idx, v | (1u8 << y), 0);
}

proof fn lemma_call<S, M: CpuBus<S>>(c: Cpu, m: S, taken: bool)
    requires
        counts_t_cycles::<S, M>(),
    ensures
        ran::<S, M>(m, call_spec::<S, M>(c, m, taken).1, call_spec::<S, M>(c, m, taken).2 - 4),
{
    broadcast use group_t_cycles;
    lemma_helpers::<S, M>(c, m, 0, 0, 0);
    let (c1, m1, a) = fetch16_spec::<S, M>(c, m);
    lemma_helpers::<S, M>(c1, m1, 0, 0, c1.regs.pc);
}

proof fn lemma_block3<S, M: CpuBus<S>>(c: Cpu, m: S, op: u8)
    requires
        counts_t_cycles::<S, M>(),
        op >= 0xC0,
    ensures
        ran::<S, M>(m, block3_spec::<S, M>(c, m, op).1, block3_spec::<S, M>(c, m, op).2 - 4),
{
    broadcast use group_t_cycles;
    let z = op % 8;
    let y = (op / 8) % 8;
    let p = y / 2;
    lemma_helpers::<S, M>(c, m, 0, 0, super::alu::rr_stk_get(c.regs, p));
    lemma_helpers::<S, M>(c, m, 0, 0, c.regs.pc);
    lemma_helpers::<S, M>(c, M::tick_model(m), 0, 0, 0);
    let (c1, m1, v8) = fetch8_spec::<S, M>(c, m);
    lemma_helpers::<S, M>(c1, m1, 0, 0, 0);
    let (c2, m2, v16) = fetch16_spec::<S, M>(c, m);
    lemma_helpers::<S, M>(c2, m2, 0, 0, 0);
    lemma_cb::<S, M>(c, m);
    lemma_call::<S, M>(c, m, super::alu::cond(c.regs, y));
    lemma_call::<S, M>(c, m, true);
}

proof fn lemma_execute<S, M: CpuBus<S>>(c: Cpu, m: S, op: u8)
    requires
        counts_t_cycles::<S, M>(),
    ensures
        ran::<S, M>(m, execute_spec::<S, M>(c, m, op).1, execute_spec::<S, M>(c, m, op).2 - 4),
{
    reveal(execute_spec);
    if op < 0x40 {
        lemma_block0::<S, M>(c, m, op);
    } else if op < 0xC0 {
        lemma_block12::<S, M>(c, m, op);
    } else {
        lemma_block3::<S, M>(c, m, op);
    }
}

/// Every M-cycle of a step is one clocked bus access or idle: on a bus whose
/// counter counts T-cycles (each M-cycle adds 4, non-clocking writes and
/// STOP add nothing) a step advances the counter by exactly the T-cycles it
/// returns. So reads, writes and idles together number `cycles / 4`.
pub proof fn lemma_step_counts_cycles<S, M: CpuBus<S>>(c: Cpu, m: S)
    requires
        counts_t_cycles::<S, M>(),
    ensures
        ran::<S, M>(m, step_spec::<S, M>(c, m).1, step_spec::<S, M>(c, m).2 as int),
{
    broadcast use group_t_cycles;
    let c1 = super::wake_spec::<S, M>(c, m);
    let (c2, m2, op) = fetch8_spec::<S, M>(c1, m);
    let c3 = if c2.halt_bug {
        Cpu { halt_bug: false, ..c2.with_pc(super::alu::dec16(c2.regs.pc)) }
    } else {
        c2
    };
    lemma_helpers::<S, M>(c1, m, 0, 0, 0);
    lemma_execute::<S, M>(c3, m2, op);
    super::lemma_step_cycles::<S, M>(c, m);
    let pending = super::pending_spec::<S, M>(m);
    let bit = super::priority_bit(pending);
    let cd = Cpu { halted: false, ime: false, ei_pending: false, ..c };
    let md = M::poke_model(m, super::IF_ADDR, M::peek_model(m, super::IF_ADDR) & !(1u8 << bit));
    lemma_helpers::<S, M>(cd, M::tick_model(md), 0, 0, cd.regs.pc);
}

} // verus!
