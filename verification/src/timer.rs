//! DIV/TIMA/TMA/TAC timer (0xFF04-0xFF07), driven by T-cycles.
use vstd::prelude::*;
use crate::interrupts::{Interrupts, INT_TIMER};

verus! {

#[derive(Debug, Clone, Copy, PartialEq, Eq, Structural)]
pub struct Timer {
    /// 16-bit internal divider; DIV is the upper 8 bits.
    pub div: u16,
    pub tima: u8,
    pub tma: u8,
    pub tac: u8,
    /// TIMA overflowed and is waiting this many T-cycles to reload from TMA.
    pub overflow_delay: u8,
}

impl Default for Timer {
    fn default() -> (r: Timer)
        ensures
            r == (Timer { div: 0xABCC, tima: 0, tma: 0, tac: 0xF8, overflow_delay: 0 }),
    {
        // DIV starts at an approximate post-boot value.
        Timer { div: 0xABCC, tima: 0, tma: 0, tac: 0xF8, overflow_delay: 0 }
    }
}

/// The divider bit that clocks TIMA for the rate selected in TAC.
pub open spec fn rate_bit(tac: u8) -> u16 {
    if tac & 3 == 0 {
        9
    } else if tac & 3 == 1 {
        3
    } else if tac & 3 == 2 {
        5
    } else {
        7
    }
}

/// Whether the selected divider bit is set.
pub open spec fn selected_bit(div: u16, tac: u8) -> bool {
    div & (1u16 << rate_bit(tac)) != 0
}

impl Timer {
    pub open spec fn enabled_spec(self) -> bool {
        self.tac & 0x04 != 0
    }

    pub open spec fn read_spec(self, addr: u16) -> u8 {
        if addr == 0xFF04 {
            (self.div / 256) as u8
        } else if addr == 0xFF05 {
            self.tima
        } else if addr == 0xFF06 {
            self.tma
        } else if addr == 0xFF07 {
            self.tac | 0xF8
        } else {
            0xFF
        }
    }

    /// TIMA + 1; an overflow arms the 4-T-cycle reload delay.
    pub open spec fn increment_tima_spec(self) -> Timer {
        if self.tima == 255 {
            Timer { tima: 0, overflow_delay: 4, ..self }
        } else {
            Timer { tima: (self.tima + 1) as u8, ..self }
        }
    }

    pub open spec fn write_spec(self, addr: u16, val: u8) -> Timer {
        if addr == 0xFF04 {
            // Resetting DIV is a falling edge on the selected bit if it was set.
            let t = Timer { div: 0, ..self };
            if self.enabled_spec() && selected_bit(self.div, self.tac) {
                t.increment_tima_spec()
            } else {
                t
            }
        } else if addr == 0xFF05 {
            Timer { tima: val, overflow_delay: 0, ..self }
        } else if addr == 0xFF06 {
            Timer { tma: val, ..self }
        } else if addr == 0xFF07 {
            let old_signal = self.enabled_spec() && selected_bit(self.div, self.tac);
            let t = Timer { tac: val & 0x07, ..self };
            let new_signal = t.enabled_spec() && selected_bit(t.div, t.tac);
            if old_signal && !new_signal {
                t.increment_tima_spec()
            } else {
                t
            }
        } else {
            self
        }
    }

    /// One T-cycle: a due TMA reload (raising the timer interrupt), then the
    /// divider increment, whose falling edge on the selected bit ticks TIMA.
    pub open spec fn step_spec(self, ints: Interrupts) -> (Timer, Interrupts) {
        let (t1, i1) = if self.overflow_delay > 0 {
            if self.overflow_delay == 1 {
                (
                    Timer { overflow_delay: 0, tima: self.tma, ..self },
                    Interrupts { request: ints.request | INT_TIMER, ..ints },
                )
            } else {
                (Timer { overflow_delay: (self.overflow_delay - 1) as u8, ..self }, ints)
            }
        } else {
            (self, ints)
        };
        let old_div = t1.div;
        let t2 = Timer { div: ((old_div as int + 1) % 0x10000) as u16, ..t1 };
        if t2.enabled_spec() && selected_bit(old_div, t2.tac) && !selected_bit(t2.div, t2.tac) {
            (t2.increment_tima_spec(), i1)
        } else {
            (t2, i1)
        }
    }

    /// `n` T-cycles.
    pub open spec fn tick_spec(self, ints: Interrupts, n: nat) -> (Timer, Interrupts)
        decreases n,
    {
        if n == 0 {
            (self, ints)
        } else {
            let (t1, i1) = self.step_spec(ints);
            t1.tick_spec(i1, (n - 1) as nat)
        }
    }

    pub fn read(&self, addr: u16) -> (r: u8)
        ensures
            r == self.read_spec(addr),
    {
        if addr == 0xFF04 {
            (self.div / 256) as u8
        } else if addr == 0xFF05 {
            self.tima
        } else if addr == 0xFF06 {
            self.tma
        } else if addr == 0xFF07 {
            self.tac | 0xF8
        } else {
            0xFF
        }
    }

    /// Write a timer register. The interrupt controller is passed for the
    /// timer's use; a write never raises an interrupt by itself.
    pub fn write(&mut self, addr: u16, val: u8, ints: &mut Interrupts)
        ensures
            *final(self) == old(self).write_spec(addr, val),
            *final(ints) == *old(ints),
    {
        if addr == 0xFF04 {
            let old = self.div;
            self.div = 0;
            if self.enabled() && Self::selected(old, self.tac) {
                self.increment_tima();
            }
        } else if addr == 0xFF05 {
            self.tima = val;
            self.overflow_delay = 0;
        } else if addr == 0xFF06 {
            self.tma = val;
        } else if addr == 0xFF07 {
            let old_signal = self.enabled() && Self::selected(self.div, self.tac);
            self.tac = val & 0x07;
            let new_signal = self.enabled() && Self::selected(self.div, self.tac);
            if old_signal && !new_signal {
                self.increment_tima();
            }
        }
    }

    fn enabled(&self) -> (r: bool)
        ensures
            r == self.enabled_spec(),
    {
        self.tac & 0x04 != 0
    }

    fn selected(div: u16, tac: u8) -> (r: bool)
        ensures
            r == selected_bit(div, tac),
    {
        let bit: u16 = if tac & 3 == 0 {
            9
        } else if tac & 3 == 1 {
            3
        } else if tac & 3 == 2 {
            5
        } else {
            7
        };
        div & (1u16 << bit) != 0
    }

    fn increment_tima(&mut self)
        ensures
            *final(self) == old(self).increment_tima_spec(),
    {
        if self.tima == 255 {
            self.tima = 0;
            // Reload + interrupt happens 4 T-cycles later.
            self.overflow_delay = 4;
        } else {
            self.tima = self.tima + 1;
        }
    }

    fn step(&mut self, ints: &mut Interrupts)
        ensures
            (*final(self), *final(ints)) == old(self).step_spec(*old(ints)),
    {
        if self.overflow_delay > 0 {
            self.overflow_delay = self.overflow_delay - 1;
            if self.overflow_delay == 0 {
                self.tima = self.tma;
                ints.raise(INT_TIMER);
            }
        }
        let old = self.div;
        self.div = self.div.wrapping_add(1);
        if self.enabled() && Self::selected(old, self.tac) && !Self::selected(self.div, self.tac) {
            self.increment_tima();
        }
    }

    /// Advance by `cycles` T-cycles.
    pub fn tick(&mut self, cycles: u32, ints: &mut Interrupts)
        ensures
            (*final(self), *final(ints)) == old(self).tick_spec(*old(ints), cycles as nat),
    {
        let mut i: u32 = 0;
        while i < cycles
            invariant
                i <= cycles,
                self.tick_spec(*ints, (cycles - i) as nat) == old(self).tick_spec(
                    *old(ints),
                    cycles as nat,
                ),
            decreases cycles - i,
        {
            self.step(ints);
            i = i + 1;
        }
    }
}

/// The divider counts every T-cycle, whatever the timer is doing: after `n`
/// cycles it has advanced by `n` (modulo 2^16), so DIV (its upper byte)
/// steps once every 256 cycles.
pub proof fn lemma_div_counts(t: Timer, ints: Interrupts, n: nat)
    ensures
        t.tick_spec(ints, n).0.div == (t.div + n) % 0x10000,
    decreases n,
{
    if n > 0 {
        let (t1, i1) = t.step_spec(ints);
        assert(t1.div == (t.div + 1) % 0x10000);
        lemma_div_counts(t1, i1, (n - 1) as nat);
        vstd::arithmetic::div_mod::lemma_add_mod_noop(t.div + 1, (n - 1) as int, 0x10000);
        vstd::arithmetic::div_mod::lemma_mod_twice(t.div + 1, 0x10000);
    }
}

/// One divider increment from `d` (below 0xFFFF) is a falling edge on the
/// selected bit exactly when the new count is a multiple of the period
/// that TAC selects.
proof fn lemma_falling_edge(d: u16, tac: u8)
    requires
        d < 0xFFFF,
    ensures
        (selected_bit(d, tac) && !selected_bit((d + 1) as u16, tac)) == ((d + 1) % (if tac & 3
            == 0 {
            1024int
        } else if tac & 3 == 1 {
            16int
        } else if tac & 3 == 2 {
            64int
        } else {
            256int
        }) == 0),
{
    let e = (d + 1) as u16;
    assert(((d & (1u16 << 9u16) != 0 && e & (1u16 << 9u16) == 0) == (e % 1024 == 0)) && ((d & (1u16
        << 3u16) != 0 && e & (1u16 << 3u16) == 0) == (e % 16 == 0)) && ((d & (1u16 << 5u16) != 0 && e
        & (1u16 << 5u16) == 0) == (e % 64 == 0)) && ((d & (1u16 << 7u16) != 0 && e & (1u16 << 7u16)
        == 0) == (e % 256 == 0))) by (bit_vector)
        requires
            d < 0xFFFF,
            e == (d + 1) as u16,
    ;
}

proof fn lemma_div_step(d: int, p: int)
    requires
        d >= 0,
        p > 0,
    ensures
        (d + 1) / p == d / p + (if (d + 1) % p == 0 { 1int } else { 0int }),
{
    let q = d / p;
    let r = d % p;
    vstd::arithmetic::div_mod::lemma_fundamental_div_mod(d, p);
    vstd::arithmetic::div_mod::lemma_mod_pos_bound(d, p);
    assert(d == q * p + r) by (nonlinear_arith)
        requires
            d == p * (d / p) + (d % p),
            q == d / p,
            r == d % p,
    ;
    if r + 1 < p {
        vstd::arithmetic::div_mod::lemma_fundamental_div_mod_converse(d + 1, p, q, r + 1);
    } else {
        assert(d + 1 == (q + 1) * p + 0) by (nonlinear_arith)
            requires
                d == q * p + r,
                r + 1 == p,
        ;
        vstd::arithmetic::div_mod::lemma_fundamental_div_mod_converse(d + 1, p, q + 1, 0);
    }
}

/// TIMA counts at the rate TAC selects: with the timer enabled, no reload
/// pending, no wrap of the divider and no overflow of TIMA, `n` T-cycles
/// from divider value `d` add one to TIMA for each multiple of the period
/// in `(d, d + n]`: every 1024 cycles for TAC & 3 = 0 (4096 Hz), 16 for 1
/// (262144 Hz), 64 for 2 (65536 Hz) and 256 for 3 (16384 Hz). From a
/// divider of 0 that is `n / period`.
pub proof fn lemma_tima_rate(t: Timer, ints: Interrupts, n: nat)
    requires
        t.enabled_spec(),
        t.overflow_delay == 0,
        t.div + n <= 0xFFFF,
        ({
            let p: int = if t.tac & 3 == 0 {
                1024
            } else if t.tac & 3 == 1 {
                16
            } else if t.tac & 3 == 2 {
                64
            } else {
                256
            };
            t.tima + (t.div + n) / p - t.div as int / p <= 255
        }),
    ensures
        ({
            let p: int = if t.tac & 3 == 0 {
                1024
            } else if t.tac & 3 == 1 {
                16
            } else if t.tac & 3 == 2 {
                64
            } else {
                256
            };
            let r = t.tick_spec(ints, n).0;
            &&& r.tima == t.tima + (t.div + n) / p - t.div as int / p
            &&& t.div == 0 ==> r.tima == t.tima + n as int / p
        }),
    decreases n,
{
    let p: int = if t.tac & 3 == 0 {
        1024
    } else if t.tac & 3 == 1 {
        16
    } else if t.tac & 3 == 2 {
        64
    } else {
        256
    };
    if n > 0 {
        let d = t.div;
        let (t1, i1) = t.step_spec(ints);
        lemma_falling_edge(d, t.tac);
        lemma_div_step(d as int, p);
        vstd::arithmetic::div_mod::lemma_div_is_ordered(d + 1, d + n, p);
        assert(t1.div == d + 1);
        assert(t1.tac == t.tac);
        assert(t1.overflow_delay == 0);
        assert(t1.tima == t.tima + (d + 1) / p - d as int / p);
        lemma_tima_rate(t1, i1, (n - 1) as nat);
    }
}

/// TIMA overflow: when the count passes 255 on a falling edge, TIMA reads
/// 0 with no interrupt yet; four T-cycles later TIMA is reloaded from TMA
/// and the timer interrupt is requested (the other request bits are kept).
/// Stated away from the divider's wrap.
pub proof fn lemma_tima_overflow_reload(t: Timer, ints: Interrupts)
    requires
        t.enabled_spec(),
        t.overflow_delay == 0,
        t.tima == 255,
        t.div + 5 <= 0xFFFF,
        ({
            let p: int = if t.tac & 3 == 0 {
                1024
            } else if t.tac & 3 == 1 {
                16
            } else if t.tac & 3 == 2 {
                64
            } else {
                256
            };
            (t.div + 1) % p == 0
        }),
    ensures
        t.tick_spec(ints, 1).0.tima == 0,
        t.tick_spec(ints, 1).1 == ints,
        t.tick_spec(ints, 4).0.tima == 0,
        t.tick_spec(ints, 4).1 == ints,
        t.tick_spec(ints, 5).0.tima == t.tma,
        t.tick_spec(ints, 5).1 == (Interrupts { request: ints.request | INT_TIMER, ..ints }),
{
    let p: int = if t.tac & 3 == 0 {
        1024
    } else if t.tac & 3 == 1 {
        16
    } else if t.tac & 3 == 2 {
        64
    } else {
        256
    };
    let d = t.div as int;
    let m = (d + 1) / p;
    vstd::arithmetic::div_mod::lemma_fundamental_div_mod(d + 1, p);
    assert(d + 1 == m * p) by (nonlinear_arith)
        requires
            d + 1 == p * ((d + 1) / p) + (d + 1) % p,
            (d + 1) % p == 0,
            m == (d + 1) / p,
    ;
    vstd::arithmetic::div_mod::lemma_fundamental_div_mod_converse(d + 2, p, m, 1);
    vstd::arithmetic::div_mod::lemma_fundamental_div_mod_converse(d + 3, p, m, 2);
    vstd::arithmetic::div_mod::lemma_fundamental_div_mod_converse(d + 4, p, m, 3);
    vstd::arithmetic::div_mod::lemma_fundamental_div_mod_converse(d + 5, p, m, 4);
    lemma_falling_edge(t.div, t.tac);
    lemma_falling_edge((d + 1) as u16, t.tac);
    lemma_falling_edge((d + 2) as u16, t.tac);
    lemma_falling_edge((d + 3) as u16, t.tac);
    lemma_falling_edge((d + 4) as u16, t.tac);
    let (t1, i1) = t.step_spec(ints);
    assert(t1.tima == 0 && t1.overflow_delay == 4 && t1.div == d + 1 && i1 == ints);
    let (t2, i2) = t1.step_spec(i1);
    assert(t2.tima == 0 && t2.overflow_delay == 3 && t2.div == d + 2 && i2 == ints);
    let (t3, i3) = t2.step_spec(i2);
    assert(t3.tima == 0 && t3.overflow_delay == 2 && t3.div == d + 3 && i3 == ints);
    let (t4, i4) = t3.step_spec(i3);
    assert(t4.tima == 0 && t4.overflow_delay == 1 && t4.div == d + 4 && i4 == ints);
    let (t5, i5) = t4.step_spec(i4);
    assert(t5.tima == t.tma && t5.overflow_delay == 0);
    assert(t5.tick_spec(i5, 0) == (t5, i5));
    assert(t4.tick_spec(i4, 1) == (t5, i5));
    assert(t3.tick_spec(i3, 2) == (t5, i5));
    assert(t2.tick_spec(i2, 3) == (t5, i5));
    assert(t1.tick_spec(i1, 4) == (t5, i5));
    assert(t.tick_spec(ints, 5) == (t5, i5));
    assert(t1.tick_spec(i1, 0) == (t1, i1));
    assert(t.tick_spec(ints, 1) == (t1, i1));
    assert(t4.tick_spec(i4, 0) == (t4, i4));
    assert(t3.tick_spec(i3, 1) == (t4, i4));
    assert(t2.tick_spec(i2, 2) == (t4, i4));
    assert(t1.tick_spec(i1, 3) == (t4, i4));
    assert(t.tick_spec(ints, 4) == (t4, i4));
}

} // verus!
