//! Laws of the CPU over any bus that behaves as plain memory.
use vstd::prelude::*;
use crate::memory::CpuBus;
use super::alu::{dec16, inc16};
use super::registers::{hi_byte, lemma_word_bytes, lo_byte};
use super::{pending_spec, pop16_spec, priority_bit, push16_spec, step_spec, Cpu, IF_ADDR};

verus! {

/// A bus model that behaves as plain memory: a non-clocking write reads
/// back, leaves every other address alone, and machine time changes no
/// byte.
pub open spec fn flat_memory<S, M: CpuBus<S>>() -> bool {
    &&& forall|s: S, a: u16, v: u8| #[trigger] M::peek_model(M::poke_model(s, a, v), a) == v
    &&& forall|s: S, a: u16, b: u16, v: u8|
        a != b ==> #[trigger] M::peek_model(M::poke_model(s, a, v), b) == M::peek_model(s, b)
    &&& forall|s: S, a: u16| #[trigger] M::peek_model(M::tick_model(s), a) == M::peek_model(s, a)
}

proof fn lemma_sp_steps(sp: u16)
    ensures
        inc16(dec16(sp)) == sp,
        dec16(sp) != sp,
        dec16(dec16(sp)) != dec16(sp),
{
}

/// On plain memory, popping right after a push gives the pushed word back
/// and restores SP (for any SP, wrapping at 0).
pub proof fn lemma_push_pop_flat<S, M: CpuBus<S>>(c: Cpu, m: S, v: u16)
    requires
        flat_memory::<S, M>(),
    ensures
        ({
            let (c1, m1) = push16_spec::<S, M>(c, m, v);
            let (c2, m2, r) = pop16_spec::<S, M>(c1, m1);
            r == v && c2.regs.sp == c.regs.sp
        }),
{
    let sp = c.regs.sp;
    lemma_sp_steps(sp);
    lemma_sp_steps(dec16(sp));
    lemma_word_bytes(v);
}

/// Interrupt priority: the serviced interrupt is the lowest set bit of the
/// pending mask.
pub proof fn lemma_priority_bit(p: u8)
    requires
        p & 0x1F != 0,
    ensures
        priority_bit(p) < 5,
        p & (1u8 << priority_bit(p)) != 0,
        forall|j: u8| j < priority_bit(p) ==> p & (1u8 << j) == 0,
{
    let k = priority_bit(p);
    assert(p & 0x1F != 0 ==> (
        (p & 1 != 0 ==> p & (1u8 << 0u8) != 0)
        && (p & 1 == 0 && p & 2 != 0 ==> p & (1u8 << 1u8) != 0 && p & (1u8 << 0u8) == 0)
        && (p & 3 == 0 && p & 4 != 0 ==> p & (1u8 << 2u8) != 0 && p & (1u8 << 1u8) == 0 && p & (1u8 << 0u8) == 0)
        && (p & 7 == 0 && p & 8 != 0 ==> p & (1u8 << 3u8) != 0 && p & (1u8 << 2u8) == 0 && p & (1u8 << 1u8) == 0 && p & (1u8 << 0u8) == 0)
        && (p & 15 == 0 ==> p & (1u8 << 4u8) != 0 && p & (1u8 << 3u8) == 0 && p & (1u8 << 2u8) == 0 && p & (1u8 << 1u8) == 0 && p & (1u8 << 0u8) == 0)
        && (p & 1 == 0 ==> p & 3 == p & 2)
        && (p & 3 == 0 ==> p & 7 == p & 4)
        && (p & 7 == 0 ==> p & 15 == p & 8)
    )) by (bit_vector);
    assert forall|j: u8| j < k implies p & (1u8 << j) == 0 by {
        if j == 0 {
        } else if j == 1 {
        } else if j == 2 {
        } else {
        }
    }
}

/// Interrupt dispatch on plain memory: with IME set and an interrupt both
/// enabled and requested, a step takes 20 T-cycles, clears IME and HALT,
/// acknowledges exactly that interrupt's IF bit, pushes PC below SP and
/// jumps to the interrupt's vector (0x40, 0x48, 0x50, 0x58, 0x60).
pub proof fn lemma_dispatch_flat<S, M: CpuBus<S>>(c: Cpu, m: S)
    requires
        flat_memory::<S, M>(),
        c.ime,
        pending_spec::<S, M>(m) != 0,
        dec16(c.regs.sp) != IF_ADDR,
        dec16(dec16(c.regs.sp)) != IF_ADDR,
    ensures
        ({
            let k = priority_bit(pending_spec::<S, M>(m));
            let (c2, m2, n) = step_spec::<S, M>(c, m);
            let sp1 = dec16(c.regs.sp);
            let sp2 = dec16(sp1);
            &&& n == 20
            &&& c2.regs.pc == 0x40 + 8 * k
            &&& !c2.ime && !c2.halted
            &&& c2.regs.sp == sp2
            &&& M::peek_model(m2, IF_ADDR) == M::peek_model(m, IF_ADDR) & !(1u8 << k)
            &&& M::peek_model(m2, sp1) == hi_byte(c.regs.pc)
            &&& M::peek_model(m2, sp2) == lo_byte(c.regs.pc)
        }),
{
    lemma_sp_steps(c.regs.sp);
    lemma_sp_steps(dec16(c.regs.sp));
}

} // verus!
