//! Debugger core: breakpoints, watchpoints, stepping and execution trace.
use vstd::prelude::*;
use std::collections::HashSet;

verus! {

broadcast use {vstd::std_specs::hash::group_hash_axioms, vstd::seq_lib::group_seq_properties};

#[derive(Debug, Clone, Copy, PartialEq, Eq, Structural)]
pub enum StopReason {
    Breakpoint(u16),
    Watchpoint { addr: u16, value: u8 },
    Step,
    Paused,
}

pub struct Debugger {
    pub breakpoints: HashSet<u16>,
    pub watchpoints: HashSet<u16>,
    pub paused: bool,
    /// Ring buffer of recently executed PCs.
    pub trace_buf: Vec<u16>,
    /// Next slot of the ring buffer to overwrite once it is full.
    pub trace_pos: usize,
    pub trace_capacity: usize,
}

/// The last `n` elements of `s` (all of `s` if it is shorter).
pub open spec fn window(s: Seq<u16>, n: nat) -> Seq<u16> {
    if s.len() <= n {
        s
    } else {
        s.subrange(s.len() - n, s.len() as int)
    }
}

/// `x` reduced into `0..n`, for `x < 2n`.
pub open spec fn wrap(x: int, n: int) -> int {
    if x < n {
        x
    } else {
        x - n
    }
}

impl Debugger {
    pub open spec fn wf(&self) -> bool {
        &&& self.trace_buf.len() <= self.trace_capacity
        &&& self.trace_buf.len() < self.trace_capacity ==> self.trace_pos == self.trace_buf.len()
        &&& self.trace_buf.len() == self.trace_capacity ==> self.trace_pos < self.trace_capacity
            || self.trace_capacity == 0
    }

    /// The recorded PCs, oldest first.
    pub open spec fn trace_view(&self) -> Seq<u16> {
        if self.trace_buf.len() < self.trace_capacity {
            self.trace_buf@
        } else {
            Seq::new(
                self.trace_buf.len() as nat,
                |k: int|
                    self.trace_buf@[wrap(self.trace_pos + k, self.trace_buf.len() as int)],
            )
        }
    }

    /// A debugger with no breakpoints, running, keeping the last 256 PCs.
    pub fn new() -> (r: Self)
        ensures
            r.wf(),
            r.breakpoints@ == Set::<u16>::empty(),
            r.watchpoints@ == Set::<u16>::empty(),
            !r.paused,
            r.trace_capacity == 256,
            r.trace_view() == Seq::<u16>::empty(),
    {
        Debugger {
            breakpoints: HashSet::new(),
            watchpoints: HashSet::new(),
            paused: false,
            trace_buf: Vec::new(),
            trace_pos: 0,
            trace_capacity: 256,
        }
    }

    /// Add a breakpoint at `addr`, or remove the one that is there.
    pub fn toggle_breakpoint(&mut self, addr: u16)
        ensures
            final(self).breakpoints@ == if old(self).breakpoints@.contains(addr) {
                old(self).breakpoints@.remove(addr)
            } else {
                old(self).breakpoints@.insert(addr)
            },
            final(self).watchpoints@ == old(self).watchpoints@,
            final(self).paused == old(self).paused,
            final(self).trace_buf@ == old(self).trace_buf@,
            final(self).trace_pos == old(self).trace_pos,
            final(self).trace_capacity == old(self).trace_capacity,
    {
        if !self.breakpoints.remove(&addr) {
            self.breakpoints.insert(addr);
        }
    }

    pub fn has_breakpoint(&self, addr: u16) -> (r: bool)
        ensures
            r == self.breakpoints@.contains(addr),
    {
        self.breakpoints.contains(&addr)
    }

    /// Breakpoint addresses, ascending.
    pub fn breakpoints(&self) -> (r: Vec<u16>)
        ensures
            forall|i: int, j: int| 0 <= i < j < r.len() ==> r@[i] < r@[j],
            forall|a: u16| self.breakpoints@.contains(a) <==> r@.contains(a),
    {
        let mut r: Vec<u16> = Vec::new();
        let mut a: u32 = 0;
        while a <= 0xFFFF
            invariant
                a <= 0x10000,
                forall|i: int, j: int| 0 <= i < j < r.len() ==> r@[i] < r@[j],
                forall|i: int| 0 <= i < r.len() ==> r@[i] < a,
                forall|b: u16| (b < a && self.breakpoints@.contains(b)) <==> r@.contains(b),
            decreases 0x10000 - a,
        {
            let b = a as u16;
            let ghost r0 = r@;
            if self.breakpoints.contains(&b) {
                r.push(b);
                assert(r@ == r0.push(b));
            }
            assert forall|c: u16| (c < a + 1 && self.breakpoints@.contains(c)) <==> r@.contains(c) by {
                if c != b {
                    assert(r@.contains(c) <==> r0.contains(c));
                } else {
                    assert(!r0.contains(c));
                }
            }
            a = a + 1;
        }
        r
    }

    pub fn is_paused(&self) -> (r: bool)
        ensures
            r == self.paused,
    {
        self.paused
    }

    pub fn set_paused(&mut self, paused: bool)
        ensures
            *final(self) == (Debugger { paused, ..*old(self) }),
    {
        self.paused = paused;
    }

    /// Record an executed PC, dropping the oldest once the trace holds
    /// `trace_capacity` of them.
    pub fn record_pc(&mut self, pc: u16)
        requires
            old(self).wf(),
        ensures
            final(self).wf(),
            final(self).trace_view() == window(old(self).trace_view().push(pc), old(self).trace_capacity as nat),
            final(self).trace_capacity == old(self).trace_capacity,
            final(self).breakpoints@ == old(self).breakpoints@,
            final(self).paused == old(self).paused,
    {
        let ghost v = self.trace_view();
        let cap = self.trace_capacity;
        if cap == 0 {
            assert(window(v.push(pc), 0) =~= Seq::<u16>::empty());
            assert(self.trace_view() =~= Seq::<u16>::empty());
            return;
        }
        if self.trace_buf.len() < cap {
            self.trace_buf.push(pc);
            self.trace_pos = if self.trace_pos + 1 == cap {
                0
            } else {
                self.trace_pos + 1
            };
            assert(self.trace_view() =~= window(v.push(pc), cap as nat));
        } else {
            let ghost t = self.trace_buf@;
            let pos = self.trace_pos;
            self.trace_buf.set(pos, pc);
            self.trace_pos = if pos + 1 == cap {
                0
            } else {
                pos + 1
            };
            assert(self.trace_view() =~= window(v.push(pc), cap as nat)) by {
                let w = window(v.push(pc), cap as nat);
                assert forall|k: int| 0 <= k < cap implies #[trigger] self.trace_view()[k] == w[k] by {
                    if k + 1 < cap {
                        assert(w[k] == v[k + 1]);
                    } else {
                        assert(w[k] == pc);
                    }
                }
            }
        }
    }

    /// Most recent PCs, oldest first.
    pub fn trace(&self) -> (r: Vec<u16>)
        requires
            self.wf(),
        ensures
            r@ == self.trace_view(),
    {
        let len = self.trace_buf.len();
        if len < self.trace_capacity {
            return self.trace_buf.clone();
        }
        let mut r: Vec<u16> = Vec::new();
        let mut k: usize = 0;
        while k < len
            invariant
                k <= len,
                len == self.trace_buf.len(),
                len == self.trace_capacity,
                self.wf(),
                r@ == self.trace_view().subrange(0, k as int),
            decreases len - k,
        {
            let pos = self.trace_pos;
            let idx = if k < len - pos {
                pos + k
            } else {
                k - (len - pos)
            };
            r.push(self.trace_buf[idx]);
            k = k + 1;
            assert(r@ =~= self.trace_view().subrange(0, k as int));
        }
        assert(r@ =~= self.trace_view());
        r
    }
}

impl Default for Debugger {
    fn default() -> (r: Debugger)
        ensures
            r.wf(),
            r.breakpoints@ == Set::<u16>::empty(),
            !r.paused,
            r.trace_capacity == 0,
    {
        Debugger {
            breakpoints: HashSet::new(),
            watchpoints: HashSet::new(),
            paused: false,
            trace_buf: Vec::new(),
            trace_pos: 0,
            trace_capacity: 0,
        }
    }
}

/// Toggling a breakpoint twice leaves the breakpoint set as it was.
pub proof fn lemma_toggle_twice(s: Set<u16>, addr: u16)
    ensures
        ({
            let t = if s.contains(addr) {
                s.remove(addr)
            } else {
                s.insert(addr)
            };
            let u = if t.contains(addr) {
                t.remove(addr)
            } else {
                t.insert(addr)
            };
            u == s
        }),
{
    let t = if s.contains(addr) {
        s.remove(addr)
    } else {
        s.insert(addr)
    };
    let u = if t.contains(addr) {
        t.remove(addr)
    } else {
        t.insert(addr)
    };
    assert(u =~= s);
}

/// Trimming to the last `n` before or after appending gives the same last
/// `n`.
pub proof fn lemma_window_push(s: Seq<u16>, p: u16, n: nat)
    ensures
        window(window(s, n).push(p), n) == window(s.push(p), n),
{
    let w = window(s, n);
    if s.len() > n {
        assert(window(w.push(p), n) =~= window(s.push(p), n));
    }
}

/// The trace after recording `ps` in turn, starting from `t`, with room
/// for `n` entries (what successive `record_pc` calls leave).
pub open spec fn record_all(t: Seq<u16>, ps: Seq<u16>, n: nat) -> Seq<u16>
    decreases ps.len(),
{
    if ps.len() == 0 {
        t
    } else {
        window(record_all(t, ps.drop_last(), n).push(ps.last()), n)
    }
}

/// Recording PCs one after another into an empty trace keeps the last `n`
/// of them (all, if fewer), oldest first.
pub proof fn lemma_record_all(ps: Seq<u16>, n: nat)
    ensures
        record_all(Seq::empty(), ps, n) == window(ps, n),
    decreases ps.len(),
{
    if ps.len() > 0 {
        lemma_record_all(ps.drop_last(), n);
        lemma_window_push(ps.drop_last(), ps.last(), n);
        assert(ps.drop_last().push(ps.last()) =~= ps);
    }
}

} // verus!
