use gb_core::debugger::Debugger;

#[test]
fn breakpoint_toggle() {
    let mut d = Debugger::new();
    d.toggle_breakpoint(0x150);
    assert!(d.has_breakpoint(0x150));
    d.toggle_breakpoint(0x150);
    assert!(!d.has_breakpoint(0x150));
}

#[test]
fn trace_ring_buffer() {
    let mut d = Debugger::new();
    d.trace_capacity = 4;
    for pc in 0..6u16 {
        d.record_pc(pc);
    }
    assert_eq!(d.trace(), vec![2, 3, 4, 5]);
}

#[test]
fn breakpoints_listed_ascending() {
    let mut d = Debugger::new();
    d.toggle_breakpoint(0x300);
    d.toggle_breakpoint(0x100);
    d.toggle_breakpoint(0x200);
    assert_eq!(d.breakpoints(), vec![0x100, 0x200, 0x300]);
    assert!(!d.is_paused());
    d.set_paused(true);
    assert!(d.is_paused());
}
