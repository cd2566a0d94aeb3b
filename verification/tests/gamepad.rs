use gb_core::gamepad::PadState;
use gb_core::Button;

#[test]
fn pad_state_reports_each_button() {
    let p = PadState { up: true, a: true, select: true, ..PadState::default() };
    assert!(p.pressed(Button::Up));
    assert!(p.pressed(Button::A));
    assert!(p.pressed(Button::Select));
    assert!(!p.pressed(Button::Down));
    assert!(!p.pressed(Button::Start));
    assert!(!PadState::default().pressed(Button::Right));
}
