//! Joypad register (0xFF00). Buttons are active-low.
use vstd::prelude::*;
use crate::interrupts::{Interrupts, INT_JOYPAD};

verus! {

#[derive(Debug, Clone, Copy, PartialEq, Eq, Structural)]
pub enum Button {
    Right,
    Left,
    Up,
    Down,
    A,
    B,
    Select,
    Start,
}

#[derive(Debug, Clone, Copy, PartialEq, Eq, Structural)]
pub struct Joypad {
    /// Bits 4-5 of P1 as written by the game.
    pub select: u8,
    /// Pressed direction buttons, bit set = pressed (Right, Left, Up, Down).
    pub dpad: u8,
    /// Pressed action buttons, bit set = pressed (A, B, Select, Start).
    pub buttons: u8,
}

impl Default for Joypad {
    fn default() -> (r: Joypad)
        ensures
            r == (Joypad { select: 0x30, dpad: 0, buttons: 0 }),
    {
        Joypad { select: 0x30, dpad: 0, buttons: 0 }
    }
}

/// Whether `b` is one of the four direction buttons.
pub open spec fn is_dpad(b: Button) -> bool {
    b is Right || b is Left || b is Up || b is Down
}

/// The bit of a button in its group.
pub open spec fn button_bit(b: Button) -> u8 {
    match b {
        Button::Right | Button::A => 0,
        Button::Left | Button::B => 1,
        Button::Up | Button::Select => 2,
        Button::Down | Button::Start => 3,
    }
}

impl Joypad {
    /// P1: the selected groups' pressed buttons read as 0 bits.
    pub open spec fn read_spec(self) -> u8 {
        let v0 = 0xC0u8 | self.select | 0x0Fu8;
        let v1 = if self.select & 0x10 == 0 {
            v0 & (!(self.dpad & 0x0F) | 0xF0)
        } else {
            v0
        };
        if self.select & 0x20 == 0 {
            v1 & (!(self.buttons & 0x0F) | 0xF0)
        } else {
            v1
        }
    }

    /// Whether `b` is currently held.
    pub open spec fn pressed(self, b: Button) -> bool {
        if is_dpad(b) {
            self.dpad & (1u8 << button_bit(b)) != 0
        } else {
            self.buttons & (1u8 << button_bit(b)) != 0
        }
    }

    pub open spec fn set_button_spec(self, b: Button, pressed: bool) -> Joypad {
        let mask = 1u8 << button_bit(b);
        if is_dpad(b) {
            Joypad {
                dpad: if pressed {
                    self.dpad | mask
                } else {
                    self.dpad & !mask
                },
                ..self
            }
        } else {
            Joypad {
                buttons: if pressed {
                    self.buttons | mask
                } else {
                    self.buttons & !mask
                },
                ..self
            }
        }
    }

    pub fn read(&self) -> (r: u8)
        ensures
            r == self.read_spec(),
    {
        let mut v = 0xC0u8 | self.select | 0x0Fu8;
        if self.select & 0x10 == 0 {
            v = v & (!(self.dpad & 0x0F) | 0xF0);
        }
        if self.select & 0x20 == 0 {
            v = v & (!(self.buttons & 0x0F) | 0xF0);
        }
        v
    }

    /// The game selects which button group P1 reports.
    pub fn write(&mut self, val: u8)
        ensures
            *final(self) == (Joypad { select: val & 0x30, ..*old(self) }),
    {
        self.select = val & 0x30;
    }

    /// Press or release a button; a fresh press requests the joypad
    /// interrupt.
    pub fn set_button(&mut self, b: Button, pressed: bool, ints: &mut Interrupts)
        ensures
            *final(self) == old(self).set_button_spec(b, pressed),
            *final(ints) == if pressed && !old(self).pressed(b) {
                Interrupts { request: old(ints).request | INT_JOYPAD, ..*old(ints) }
            } else {
                *old(ints)
            },
    {
        let (dpad, bit): (bool, u8) = match b {
            Button::Right => (true, 0),
            Button::Left => (true, 1),
            Button::Up => (true, 2),
            Button::Down => (true, 3),
            Button::A => (false, 0),
            Button::B => (false, 1),
            Button::Select => (false, 2),
            Button::Start => (false, 3),
        };
        let mask = 1u8 << bit;
        let field = if dpad {
            self.dpad
        } else {
            self.buttons
        };
        let was = field & mask != 0;
        let new_field = if pressed {
            field | mask
        } else {
            field & !mask
        };
        if dpad {
            self.dpad = new_field;
        } else {
            self.buttons = new_field;
        }
        if pressed && !was {
            ints.raise(INT_JOYPAD);
        }
    }
}

/// A low line of P1 means some selected group has that button held.
pub proof fn lemma_read_bits(j: Joypad, bit: u8)
    requires
        bit < 4,
    ensures
        (j.read_spec() & (1u8 << bit) == 0) == ((j.select & 0x10 == 0 && j.dpad & (1u8 << bit) != 0)
            || (j.select & 0x20 == 0 && j.buttons & (1u8 << bit) != 0)),
{
    let s = j.select;
    let d = j.dpad;
    let a = j.buttons;
    assert(({
        let v0 = 0xC0u8 | s | 0x0Fu8;
        let v1 = if s & 0x10 == 0 {
            v0 & (!(d & 0x0F) | 0xF0)
        } else {
            v0
        };
        let v2 = if s & 0x20 == 0 {
            v1 & (!(a & 0x0F) | 0xF0)
        } else {
            v1
        };
        (v2 & (1u8 << bit) == 0) == ((s & 0x10 == 0 && d & (1u8 << bit) != 0) || (s & 0x20 == 0
            && a & (1u8 << bit) != 0))
    })) by (bit_vector)
        requires
            bit < 4,
    ;
}

/// Pressing or releasing a button is what `pressed` then reports; with only
/// its group selected, P1 reads the button's line low exactly when it is
/// held.
pub proof fn lemma_press_reads_low(j: Joypad, b: Button, pressed: bool)
    ensures
        j.set_button_spec(b, pressed).pressed(b) == pressed,
        is_dpad(b) && j.select & 0x10 == 0 && j.select & 0x20 != 0 ==> (j.set_button_spec(
            b,
            pressed,
        ).read_spec() & (1u8 << button_bit(b)) == 0) == pressed,
        !is_dpad(b) && j.select & 0x20 == 0 && j.select & 0x10 != 0 ==> (j.set_button_spec(
            b,
            pressed,
        ).read_spec() & (1u8 << button_bit(b)) == 0) == pressed,
{
    let bit = button_bit(b);
    let d0 = j.dpad;
    let a0 = j.buttons;
    assert(bit < 4);
    lemma_read_bits(j.set_button_spec(b, pressed), bit);
    if is_dpad(b) {
        assert(((if pressed { d0 | (1u8 << bit) } else { d0 & !(1u8 << bit) }) & (1u8 << bit) != 0)
            == pressed) by (bit_vector)
            requires
                bit < 4,
        ;
    } else {
        assert(((if pressed { a0 | (1u8 << bit) } else { a0 & !(1u8 << bit) }) & (1u8 << bit) != 0)
            == pressed) by (bit_vector)
            requires
                bit < 4,
        ;
    }
}

} // verus!
