//! The clocked bus seam the CPU drives.
//!
//! The SM83 core reads and writes bytes in the 16-bit address space; on real
//! hardware each such access is one M-cycle (4 T-cycles) during which the
//! timer, PPU and APU advance. So `read`/`write`/`idle` here advance time:
//! they tick the rest of the machine by one M-cycle.
//!
//! `peek`/`poke` are the non-clocking escape hatch for CPU-internal queries
//! that do not consume a cycle: the interrupt-pending check and its
//! acknowledge.
//!
//! An implementation describes itself to the verifier through the spec
//! functions below: what a non-clocking read returns (`peek_spec`), what one
//! M-cycle does to it (`tick_spec`), what a non-clocking write does
//! (`poke_spec`) and what a STOP does (`stop_spec`). The CPU is verified
//! against these for every implementation.
use vstd::prelude::*;

verus! {

/// `S` is the verifier's model of the bus state (`model`); the transition
/// functions below are stated over it.
pub trait CpuBus<S = ()>: Sized {
    /// The state in which the bus accepts accesses.
    open spec fn bus_inv(&self) -> bool {
        true
    }

    /// The verifier's view of the whole bus state.
    open spec fn model(&self) -> S {
        arbitrary()
    }

    /// The byte a non-clocking read of `addr` returns.
    open spec fn peek_model(s: S, addr: u16) -> u8 {
        0xFF
    }

    /// The state after one M-cycle of machine time.
    open spec fn tick_model(s: S) -> S {
        s
    }

    /// The state after a non-clocking write of `val` to `addr`.
    open spec fn poke_model(s: S, addr: u16, val: u8) -> S {
        s
    }

    /// The state after the CPU executes STOP.
    open spec fn stop_model(s: S) -> S {
        s
    }

    /// Total T-cycles the machine has advanced.
    open spec fn elapsed_model(s: S) -> u64 {
        0
    }

    /// Read one byte; advances the machine by one M-cycle first.
    fn read(&mut self, addr: u16) -> (r: u8)
        requires
            old(self).bus_inv(),
        ensures
            final(self).bus_inv(),
            final(self).model() == Self::tick_model(old(self).model()),
            r == Self::peek_model(final(self).model(), addr),
    ;

    /// Write one byte; advances the machine by one M-cycle first.
    fn write(&mut self, addr: u16, val: u8)
        requires
            old(self).bus_inv(),
        ensures
            final(self).bus_inv(),
            final(self).model() == Self::poke_model(Self::tick_model(old(self).model()), addr, val),
    ;

    /// An internal CPU M-cycle with no memory access; advances the machine.
    fn idle(&mut self)
        requires
            old(self).bus_inv(),
        ensures
            final(self).bus_inv(),
            final(self).model() == Self::tick_model(old(self).model()),
    ;

    /// Non-clocking read; no time passes.
    fn peek(&self, addr: u16) -> (r: u8)
        requires
            self.bus_inv(),
        ensures
            r == Self::peek_model(self.model(), addr),
    ;

    /// Non-clocking write; no time passes.
    fn poke(&mut self, addr: u16, val: u8)
        requires
            old(self).bus_inv(),
        ensures
            final(self).bus_inv(),
            final(self).model() == Self::poke_model(old(self).model(), addr, val),
    ;

    /// Total T-cycles the machine has advanced, for cycle accounting.
    fn elapsed(&self) -> (r: u64)
        ensures
            r == Self::elapsed_model(self.model()),
    ;

    /// The STOP instruction's effect on the machine (a CGB speed switch
    /// when one is armed).
    fn stop(&mut self)
        requires
            old(self).bus_inv(),
        ensures
            final(self).bus_inv(),
            final(self).model() == Self::stop_model(old(self).model()),
    ;
}

} // verus!
