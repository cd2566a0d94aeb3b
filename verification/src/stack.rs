//! The CPU on the system bus: what a push leaves for a pop, and the bus
//! clock counting exactly the T-cycles the CPU reports.
use vstd::prelude::*;
use crate::bus::{lemma_wram_index, Bus, BusView};
use crate::cpu::registers::{hi_byte, lemma_word_bytes, lo_byte};
use crate::cpu::alu::{dec16, inc16};
use crate::cpu::timing::{add_t, counts_t_cycles, lemma_step_counts_cycles, ran};
use crate::cpu::{pop16_spec, push16_spec, step_spec, Cpu};
use crate::ppu::PpuView;

verus! {

proof fn lemma_block_bytes_keep_ram(v: BusView, src: u16, dst: u16, n: nat)
    ensures
        v.block_bytes_spec(src, dst, n).wram == v.wram,
        v.block_bytes_spec(src, dst, n).hram == v.hram,
        v.block_bytes_spec(src, dst, n).svbk == v.svbk,
        v.block_bytes_spec(src, dst, n).elapsed == v.elapsed,
    decreases n,
{
    if n > 0 {
        lemma_block_bytes_keep_ram(v, src, dst, (n - 1) as nat);
    }
}

proof fn lemma_blocks_keep_ram(v: BusView, n: nat)
    ensures
        v.blocks_spec(n).wram == v.wram,
        v.blocks_spec(n).hram == v.hram,
        v.blocks_spec(n).svbk == v.svbk,
        v.blocks_spec(n).elapsed == v.elapsed,
    decreases n,
{
    if n > 0 {
        lemma_blocks_keep_ram(v, (n - 1) as nat);
        let w = v.blocks_spec((n - 1) as nat);
        lemma_block_bytes_keep_ram(w, w.hdma_src & 0xFFF0, 0x8000u16 | (w.hdma_dst & 0x1FF0), 16);
    }
}

/// Machine time leaves work RAM, high RAM and the WRAM bank alone.
proof fn lemma_advance_keeps_ram(v: BusView)
    ensures
        v.advance_spec().wram == v.wram,
        v.advance_spec().hram == v.hram,
        v.advance_spec().svbk == v.svbk,
{
    reveal(BusView::advance_spec);
    let base: nat = if v.double_speed { 2 } else { 4 };
    let (t, i1) = v.timer.tick_spec(v.ints, 4);
    let (p, i2) = v.ppu.tick_spec(i1, base);
    let w = BusView {
        timer: t,
        ppu: p,
        ints: i2,
        apu: v.apu.tick_spec(base),
        dma_countdown: v.dma_countdown.saturating_sub(4),
        elapsed: v.elapsed.wrapping_add(4),
        ..v
    };
    lemma_blocks_keep_ram(BusView { ppu: PpuView { entered_hblank: false, ..w.ppu }, ..w }, 1);
}

/// Addresses usable for a stack: work RAM (below its echo) or high RAM.
pub open spec fn is_stack_addr(a: u16) -> bool {
    (0xC000 <= a <= 0xDDFF) || (0xFF80 <= a <= 0xFFFE)
}

proof fn lemma_wram_linear(v: BusView, a: u16)
    requires
        0xC000 <= a <= 0xDFFF,
    ensures
        v.wram_index(a) == if a < 0xD000 {
            a - 0xC000
        } else {
            v.wram_bank() * 0x1000 + (a - 0xD000)
        },
        0 <= v.wram_index(a) < 0x8000,
{
    assert(a & 0x1FFF == a - 0xC000) by (bit_vector)
        requires
            0xC000 <= a <= 0xDFFF,
    ;
    lemma_wram_index(v, a);
}

/// Writing a stack address leaves every other stack address as it reads.
proof fn lemma_stack_write_other(v: BusView, a: u16, b: u16, x: u8)
    requires
        v.wram.len() == 0x8000,
        v.hram.len() == 0x7F,
        is_stack_addr(a),
        is_stack_addr(b),
        a != b,
    ensures
        v.write_spec(a, x).read_spec(b) == v.read_spec(b),
        v.write_spec(a, x).read_spec(a) == x,
        v.write_spec(a, x).wram.len() == 0x8000,
        v.write_spec(a, x).hram.len() == 0x7F,
{
    if 0xC000 <= a <= 0xDDFF {
        lemma_wram_linear(v, a);
    }
    if 0xC000 <= b <= 0xDDFF {
        lemma_wram_linear(v, b);
    }
}

/// A tick leaves stack addresses reading as they did.
proof fn lemma_tick_keeps_stack(v: BusView, a: u16)
    requires
        is_stack_addr(a),
    ensures
        v.advance_spec().read_spec(a) == v.read_spec(a),
        v.advance_spec().wram.len() == v.wram.len(),
        v.advance_spec().hram.len() == v.hram.len(),
{
    lemma_advance_keeps_ram(v);
    if 0xC000 <= a <= 0xDDFF {
        lemma_wram_linear(v, a);
        lemma_wram_linear(v.advance_spec(), a);
    }
}

/// Pushing a word onto a stack in work RAM or high RAM and popping it again
/// gives the word back and restores SP, however the machine advanced in the
/// meantime.
#[verifier::rlimit(60)]
pub proof fn lemma_push_pop(c: Cpu, m: BusView, v: u16)
    requires
        m.wf(),
        is_stack_addr((c.regs.sp - 1) as u16),
        is_stack_addr((c.regs.sp - 2) as u16),
        c.regs.sp >= 2,
    ensures
        ({
            let (c1, m1) = push16_spec::<BusView, Bus>(c, m, v);
            let (c2, m2, r) = pop16_spec::<BusView, Bus>(c1, m1);
            r == v && c2.regs.sp == c.regs.sp
        }),
{
    let sp = c.regs.sp;
    let a1 = (sp - 1) as u16;
    let a2 = (sp - 2) as u16;
    let hi = hi_byte(v);
    let lo = lo_byte(v);
    assert(dec16(sp) == a1 && dec16(a1) == a2 && inc16(a2) == a1 && inc16(a1) == sp);
    let i0 = m.advance_spec();
    lemma_advance_keeps_ram(m);
    let t0 = i0.advance_spec();
    lemma_advance_keeps_ram(i0);
    let p1 = t0.write_spec(a1, hi);
    lemma_stack_write_other(t0, a1, a2, hi);
    let t1 = p1.advance_spec();
    lemma_tick_keeps_stack(p1, a1);
    let p2 = t1.write_spec(a2, lo);
    lemma_stack_write_other(t1, a2, a1, lo);
    assert(p2.read_spec(a1) == hi && p2.read_spec(a2) == lo);
    let t2 = p2.advance_spec();
    lemma_tick_keeps_stack(p2, a2);
    lemma_tick_keeps_stack(p2, a1);
    let t3 = t2.advance_spec();
    lemma_tick_keeps_stack(t2, a1);
    assert(t2.read_spec(a2) == lo && t3.read_spec(a1) == hi);
    let (c1, m1) = push16_spec::<BusView, Bus>(c, m, v);
    assert(m1 == p2);
    assert(c1.regs.sp == a2);
    lemma_word_bytes(v);
}

proof fn lemma_oam_copy_keeps_elapsed(v: BusView, base: int, n: nat)
    ensures
        v.oam_copy_spec(base, n).elapsed == v.elapsed,
    decreases n,
{
    if n > 0 {
        lemma_oam_copy_keeps_elapsed(v, base, (n - 1) as nat);
    }
}

/// The bus clock counts T-cycles: an M-cycle adds 4 (modulo 2^64), while a
/// non-clocking write and STOP leave it alone.
pub proof fn lemma_bus_counts_t_cycles()
    ensures
        counts_t_cycles::<BusView, Bus>(),
{
    assert forall|s: BusView| #[trigger] s.advance_spec().elapsed == add_t(s.elapsed, 4) by {
        reveal(BusView::advance_spec);
        let base: nat = if s.double_speed { 2 } else { 4 };
        let (t, i1) = s.timer.tick_spec(s.ints, 4);
        let (p, i2) = s.ppu.tick_spec(i1, base);
        let w = BusView {
            timer: t,
            ppu: p,
            ints: i2,
            apu: s.apu.tick_spec(base),
            dma_countdown: s.dma_countdown.saturating_sub(4),
            elapsed: s.elapsed.wrapping_add(4),
            ..s
        };
        lemma_blocks_keep_ram(BusView { ppu: PpuView { entered_hblank: false, ..w.ppu }, ..w }, 1);
    }
    assert forall|s: BusView, a: u16, x: u8| #[trigger] s.write_spec(a, x).elapsed == s.elapsed by {
        lemma_oam_copy_keeps_elapsed(BusView { dma_src: x, ..s }, x as int * 256, 0xA0);
        lemma_blocks_keep_ram(s, ((x & 0x7F) + 1) as u16 as nat);
    }
}

/// On the system bus a step advances the machine clock by exactly the
/// T-cycles it returns: every M-cycle is a read, a write or an idle.
pub proof fn lemma_bus_step_timing(c: Cpu, m: BusView)
    ensures
        step_spec::<BusView, Bus>(c, m).1.elapsed == add_t(m.elapsed, step_spec::<BusView, Bus>(c, m).2 as int),
{
    lemma_bus_counts_t_cycles();
    lemma_step_counts_cycles::<BusView, Bus>(c, m);
}

} // verus!
