use gb_core::cartridge::{CartError, Cartridge, MbcKind};

fn rom(kind: u8, ram: u8, banks: usize) -> Vec<u8> {
    let mut r = vec![0u8; 0x4000 * banks];
    r[0x147] = kind;
    r[0x149] = ram;
    // Stamp each bank with its index for identification.
    for b in 0..banks {
        r[b * 0x4000 + 0x1000] = b as u8;
    }
    r
}

#[test]
fn rejects_tiny_rom() {
    assert!(Cartridge::from_rom(vec![0; 16]).is_err());
}

#[test]
fn has_battery_detects_battery_types() {
    // 0x03 = MBC1+RAM+BATTERY; 0x01 = MBC1 (no battery).
    assert!(Cartridge::from_rom(rom(0x03, 0x02, 2)).unwrap().has_battery());
    assert!(!Cartridge::from_rom(rom(0x01, 0x02, 2)).unwrap().has_battery());
}

#[test]
fn ram_writes_set_dirty_flag() {
    let mut c = Cartridge::from_rom(rom(0x03, 0x02, 2)).unwrap();
    assert!(!c.take_ram_dirty());
    c.write(0x0000, 0x0A); // enable RAM
    c.write(0xA000, 0x42);
    assert!(c.take_ram_dirty());
    assert!(!c.take_ram_dirty(), "flag cleared after being taken");
}

#[test]
fn save_and_restore_ram_roundtrips() {
    let mut c = Cartridge::from_rom(rom(0x03, 0x02, 2)).unwrap();
    c.write(0x0000, 0x0A);
    c.write(0xA000, 0xAB);
    c.write(0xA001, 0xCD);
    let saved = c.ram().to_vec();

    let mut fresh = Cartridge::from_rom(rom(0x03, 0x02, 2)).unwrap();
    fresh.load_ram(&saved);
    fresh.write(0x0000, 0x0A); // enable to read back
    assert_eq!(fresh.read(0xA000), 0xAB);
    assert_eq!(fresh.read(0xA001), 0xCD);
    assert!(!fresh.take_ram_dirty(), "loading a save is not a dirtying write");
}

#[test]
fn load_ram_ignores_size_mismatch() {
    let mut c = Cartridge::from_rom(rom(0x03, 0x02, 2)).unwrap(); // 8 KiB RAM
    c.load_ram(&[0xFF; 4]); // wrong size: ignored
    c.write(0x0000, 0x0A);
    assert_eq!(c.read(0xA000), 0x00);
}

#[test]
fn rom_only_reads_flat() {
    let c = Cartridge::from_rom(rom(0x00, 0, 2)).unwrap();
    assert_eq!(c.read(0x1000), 0);
    assert_eq!(c.read(0x5000), 1);
}

#[test]
fn mbc1_bank_switching() {
    let mut c = Cartridge::from_rom(rom(0x01, 0, 8)).unwrap();
    assert_eq!(c.read(0x5000), 1); // default bank 1
    c.write(0x2000, 5);
    assert_eq!(c.read(0x5000), 5);
    c.write(0x2000, 0); // bank 0 maps to 1
    assert_eq!(c.read(0x5000), 1);
}

#[test]
fn mbc1_ram_enable_gate() {
    let mut c = Cartridge::from_rom(rom(0x03, 0x02, 2)).unwrap();
    c.write(0xA000, 0x42);
    assert_eq!(c.read(0xA000), 0xFF); // disabled
    c.write(0x0000, 0x0A);
    c.write(0xA000, 0x42);
    assert_eq!(c.read(0xA000), 0x42);
    c.write(0x0000, 0x00);
    assert_eq!(c.read(0xA000), 0xFF);
}

#[test]
fn mbc5_nine_bit_rom_bank() {
    let mut c = Cartridge::from_rom(rom(0x19, 0, 4)).unwrap();
    c.write(0x2000, 3);
    assert_eq!(c.read(0x5000), 3);
    // 9th bit wraps modulo bank count
    c.write(0x3000, 1);
    assert_eq!(c.read(0x5000), (256usize + 3) as u8 % 4);
}

#[test]
fn mbc5_bank_zero_is_real_zero() {
    let mut c = Cartridge::from_rom(rom(0x19, 0, 4)).unwrap();
    c.write(0x2000, 0);
    assert_eq!(c.read(0x5000), 0);
}

#[test]
fn title_parsed() {
    let mut r = rom(0x00, 0, 2);
    r[0x134..0x13A].copy_from_slice(b"TETRIS");
    let c = Cartridge::from_rom(r).unwrap();
    assert_eq!(c.title, "TETRIS");
}

#[test]
fn header_errors_and_kinds() {
    assert_eq!(Cartridge::from_rom(vec![0; 0x14F]).err(), Some(CartError::TooSmall));
    assert_eq!(Cartridge::from_rom(rom(0x20, 0, 2)).err(), Some(CartError::UnsupportedMbc(0x20)));
    assert_eq!(Cartridge::from_rom(rom(0x00, 0, 2)).unwrap().kind, MbcKind::RomOnly);
    assert_eq!(Cartridge::from_rom(rom(0x13, 0x03, 2)).unwrap().kind, MbcKind::Mbc3);
    assert_eq!(Cartridge::from_rom(rom(0x13, 0x03, 2)).unwrap().ram().len(), 0x8000);
}

#[test]
fn rom_identity_is_title_and_checksum() {
    let mut r = rom(0x00, 0, 2);
    r[0x134] = b'Z';
    r[0x14E] = 0xAB;
    r[0x14F] = 0xCD;
    let c = Cartridge::from_rom(r).unwrap();
    let id = c.rom_identity();
    assert_eq!(id.len(), 18);
    assert_eq!(id[0], b'Z');
    assert_eq!(id[16], 0xAB);
    assert_eq!(id[17], 0xCD);
}

#[test]
fn short_rom_reads_ff_past_its_end() {
    let mut c = Cartridge::from_rom(rom(0x00, 0, 2)).unwrap();
    c.rom = vec![1, 2, 3];
    assert_eq!(c.read(0x0001), 2);
    assert_eq!(c.read(0x0100), 0xFF);
    assert_eq!(c.read(0x5000), 0xFF);
}
