use gb_core::interrupts::{Interrupts, INT_TIMER};
use gb_core::timer::Timer;

fn fresh() -> (Timer, Interrupts) {
    let mut t = Timer::default();
    t.div = 0;
    (t, Interrupts::default())
}

#[test]
fn div_increments_every_256_cycles() {
    let (mut t, mut i) = fresh();
    t.tick(255, &mut i);
    assert_eq!(t.read(0xFF04), 0);
    t.tick(1, &mut i);
    assert_eq!(t.read(0xFF04), 1);
}

#[test]
fn div_write_resets() {
    let (mut t, mut i) = fresh();
    t.tick(512, &mut i);
    assert_eq!(t.read(0xFF04), 2);
    t.write(0xFF04, 0x55, &mut i);
    assert_eq!(t.read(0xFF04), 0);
}

#[test]
fn tima_ticks_at_selected_rate() {
    let (mut t, mut i) = fresh();
    t.write(0xFF07, 0b101, &mut i); // enabled, 262144 Hz => every 16 T-cycles
    t.tick(16 * 10, &mut i);
    assert_eq!(t.tima, 10);
}

#[test]
fn tima_overflow_reloads_tma_and_raises_interrupt() {
    let (mut t, mut i) = fresh();
    i.enable = 0xFF;
    t.write(0xFF06, 0x42, &mut i); // TMA
    t.write(0xFF07, 0b101, &mut i);
    t.tima = 0xFF;
    t.tick(16 + 4, &mut i); // overflow + 4-cycle reload delay
    assert_eq!(t.tima, 0x42);
    assert!(i.pending() & INT_TIMER != 0);
}

#[test]
fn disabled_timer_does_not_tick_tima() {
    let (mut t, mut i) = fresh();
    t.write(0xFF07, 0b001, &mut i); // rate set but disabled
    t.tick(1024, &mut i);
    assert_eq!(t.tima, 0);
}

#[test]
fn timer_registers_read_back() {
    let (mut t, mut i) = fresh();
    t.write(0xFF06, 0x12, &mut i);
    t.write(0xFF07, 0x06, &mut i);
    assert_eq!(t.read(0xFF06), 0x12);
    assert_eq!(t.read(0xFF07), 0xFE); // upper bits read as set
    assert_eq!(t.read(0xFF08), 0xFF);
}
