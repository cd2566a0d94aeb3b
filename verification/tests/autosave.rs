use gb_core::autosave::{Autosave, AUTOSAVE_DEBOUNCE_MS};

#[test]
fn save_waits_for_quiet_ram() {
    let mut a = Autosave::new();
    assert!(!a.tick(false, 0));
    assert!(!a.tick(true, 100)); // a write: not yet
    assert!(!a.tick(false, 100 + AUTOSAVE_DEBOUNCE_MS - 1));
    assert!(!a.tick(true, 1500)); // another write restarts the wait
    assert!(!a.tick(false, 3499));
    assert!(a.tick(false, 3500));
    a.saved();
    assert!(!a.unsaved);
    assert!(!a.tick(false, 10_000));
}

#[test]
fn clock_going_backwards_is_not_due_and_reset_forgets() {
    let mut a = Autosave::new();
    assert!(!a.tick(true, 5000));
    assert!(!a.tick(false, 10));
    a.reset();
    assert_eq!(a, Autosave { unsaved: false, last_change: None });
}
