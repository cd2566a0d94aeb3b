//! The pressed state of the eight Game Boy buttons as a game controller
//! reports it. The frontend ORs it with the keyboard per button each frame.
use vstd::prelude::*;
use crate::joypad::Button;

verus! {

#[derive(Debug, Default, Clone, Copy, PartialEq, Eq, Structural)]
pub struct PadState {
    pub up: bool,
    pub down: bool,
    pub left: bool,
    pub right: bool,
    pub a: bool,
    pub b: bool,
    pub start: bool,
    pub select: bool,
}

impl PadState {
    pub open spec fn pressed_spec(self, b: Button) -> bool {
        match b {
            Button::Up => self.up,
            Button::Down => self.down,
            Button::Left => self.left,
            Button::Right => self.right,
            Button::A => self.a,
            Button::B => self.b,
            Button::Start => self.start,
            Button::Select => self.select,
        }
    }

    /// Whether the controller holds `b`.
    pub fn pressed(&self, b: Button) -> (r: bool)
        ensures
            r == self.pressed_spec(b),
    {
        match b {
            Button::Up => self.up,
            Button::Down => self.down,
            Button::Left => self.left,
            Button::Right => self.right,
            Button::A => self.a,
            Button::B => self.b,
            Button::Start => self.start,
            Button::Select => self.select,
        }
    }
}

} // verus!
