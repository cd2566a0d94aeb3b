//! Interrupt controller: the IF (0xFF0F) and IE (0xFFFF) registers.
use vstd::prelude::*;

verus! {

pub const INT_VBLANK: u8 = 0x01;
pub const INT_STAT: u8 = 0x02;
pub const INT_TIMER: u8 = 0x04;
pub const INT_SERIAL: u8 = 0x08;
pub const INT_JOYPAD: u8 = 0x10;

/// The interrupt-enable (IE, 0xFFFF) and interrupt-request (IF, 0xFF0F)
/// registers. Peripherals `raise` bits here; the CPU reads them through the
/// bus seam and owns the priority/vector dispatch.
#[derive(Debug, Default, Clone, Copy, PartialEq, Eq, Structural)]
pub struct Interrupts {
    pub enable: u8,
    pub request: u8,
}

impl Interrupts {
    /// Bitmask of interrupts that are both enabled and requested.
    pub fn pending(&self) -> (r: u8)
        ensures
            r == self.enable & self.request & 0x1F,
    {
        self.enable & self.request & 0x1F
    }

    /// Request the interrupts in `mask`.
    pub fn raise(&mut self, mask: u8)
        ensures
            final(self).request == old(self).request | mask,
            final(self).enable == old(self).enable,
    {
        self.request = self.request | mask;
    }
}

} // verus!
