use gb_core::interrupts::{Interrupts, INT_JOYPAD, INT_STAT, INT_TIMER, INT_VBLANK};

#[test]
fn no_pending_when_masked() {
    let mut i = Interrupts::default();
    i.raise(INT_TIMER);
    assert_eq!(i.pending(), 0);
}

#[test]
fn pending_requires_enable_and_request() {
    let mut i = Interrupts::default();
    i.enable = 0x1F;
    i.raise(INT_TIMER | INT_VBLANK);
    assert_eq!(i.pending(), INT_TIMER | INT_VBLANK);
}

#[test]
fn pending_ignores_upper_bits() {
    let mut i = Interrupts::default();
    i.enable = 0xFF;
    i.request = 0xE0 | INT_STAT;
    assert_eq!(i.pending(), INT_STAT);
    i.raise(INT_JOYPAD);
    assert_eq!(i.pending(), INT_STAT | INT_JOYPAD);
}
