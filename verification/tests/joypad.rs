use gb_core::interrupts::{Interrupts, INT_JOYPAD};
use gb_core::joypad::{Button, Joypad};

#[test]
fn unselected_reads_all_released() {
    let j = Joypad::default();
    assert_eq!(j.read() & 0x0F, 0x0F);
}

#[test]
fn dpad_reads_active_low_when_selected() {
    let mut j = Joypad::default();
    let mut i = Interrupts::default();
    j.set_button(Button::Left, true, &mut i);
    j.write(0x20); // select d-pad (bit 4 low)
    assert_eq!(j.read() & 0x0F, 0b1101);
    // action buttons view unaffected
    j.write(0x10);
    assert_eq!(j.read() & 0x0F, 0x0F);
}

#[test]
fn press_raises_joypad_interrupt() {
    let mut j = Joypad::default();
    let mut i = Interrupts::default();
    i.enable = 0xFF;
    j.set_button(Button::Start, true, &mut i);
    assert!(i.pending() & INT_JOYPAD != 0);
}

#[test]
fn held_button_raises_no_second_interrupt() {
    let mut j = Joypad::default();
    let mut i = Interrupts::default();
    j.set_button(Button::A, true, &mut i);
    assert_eq!(i.request, INT_JOYPAD);
    i.request = 0;
    j.set_button(Button::A, true, &mut i);
    assert_eq!(i.request, 0);
    j.set_button(Button::A, false, &mut i);
    assert_eq!(i.request, 0);
    j.write(0x10); // select action buttons
    assert_eq!(j.read() & 0x0F, 0x0F);
}
