use gb_core::cpu::registers::{Registers, FLAG_C, FLAG_N, FLAG_Z};

#[test]
fn wide_registers_roundtrip() {
    let mut r = Registers::default();
    r.set_bc(0xBEEF);
    assert_eq!(r.b, 0xBE);
    assert_eq!(r.c, 0xEF);
    assert_eq!(r.bc(), 0xBEEF);
    r.set_hl(0x1234);
    assert_eq!(r.hl(), 0x1234);
}

#[test]
fn f_low_nibble_forced_zero() {
    let mut r = Registers::default();
    r.set_af(0xABCD);
    assert_eq!(r.f, 0xC0);
    assert_eq!(r.af(), 0xABC0);
}

#[test]
fn flag_helpers() {
    let mut r = Registers::default();
    r.set_flag(FLAG_Z, true);
    r.set_flag(FLAG_C, true);
    assert!(r.flag(FLAG_Z));
    assert!(r.flag(FLAG_C));
    assert!(!r.flag(FLAG_N));
    r.set_flag(FLAG_Z, false);
    assert!(!r.flag(FLAG_Z));
}

#[test]
fn de_pair_roundtrip_and_dmg_state() {
    let mut r = Registers::dmg();
    assert_eq!(r.af(), 0x01B0);
    assert_eq!(r.bc(), 0x0013);
    assert_eq!(r.de(), 0x00D8);
    assert_eq!(r.hl(), 0x014D);
    assert_eq!(r.sp, 0xFFFE);
    assert_eq!(r.pc, 0x0100);
    r.set_de(0x0F0E);
    assert_eq!(r.d, 0x0F);
    assert_eq!(r.e, 0x0E);
    assert_eq!(r.de(), 0x0F0E);
}
