use gb_core::bus::Bus;
use gb_core::cartridge::Cartridge;
use gb_core::CpuBus;

fn bus() -> Bus {
    let mut rom = vec![0u8; 0x8000];
    rom[0x147] = 0;
    Bus::new(Cartridge::from_rom(rom).unwrap())
}

#[test]
fn key1_stop_switches_double_speed() {
    let mut b = bus();
    assert_eq!(b.read(0xFF4D) & 0x80, 0); // starts single speed
    b.write(0xFF4D, 0x01); // arm the switch
    CpuBus::stop(&mut b);
    assert_eq!(b.read(0xFF4D) & 0x80, 0x80); // now double speed
    assert_eq!(b.read(0xFF4D) & 0x01, 0); // armed bit cleared
    // A STOP without arming does not switch.
    CpuBus::stop(&mut b);
    assert_eq!(b.read(0xFF4D) & 0x80, 0x80);
}

#[test]
fn double_speed_halves_ppu_stepping() {
    // 114 M-cycles = 456 dots = one scanline at single speed.
    let mut single = bus();
    for _ in 0..114 {
        single.advance_m();
    }
    assert_eq!(single.ppu.ly, 1);

    // At double speed the PPU only advances 2 dots per M-cycle, so the same
    // 114 M-cycles is 228 dots — still on line 0.
    let mut double = bus();
    double.write(0xFF4D, 0x01);
    CpuBus::stop(&mut double);
    for _ in 0..114 {
        double.advance_m();
    }
    assert_eq!(double.ppu.ly, 0);
}

#[test]
fn gdma_copies_immediately() {
    let mut b = bus();
    for i in 0..0x10u16 {
        b.write(0xC000 + i, i as u8);
    }
    b.write(0xFF51, 0xC0); // src 0xC000
    b.write(0xFF52, 0x00);
    b.write(0xFF53, 0x00); // dst VRAM 0x8000
    b.write(0xFF54, 0x00);
    b.write(0xFF55, 0x00); // 1 block, bit 7 clear -> immediate
    assert_eq!(b.ppu.vram[0], 0x00);
    assert_eq!(b.ppu.vram[0x0F], 0x0F);
    assert_eq!(b.read(0xFF55), 0xFF); // idle/complete
}

#[test]
fn hdma_hblank_steps_one_block_per_hblank() {
    let mut b = bus();
    for i in 0..0x20u16 {
        b.write(0xC000 + i, i as u8);
    }
    b.write(0xFF51, 0xC0);
    b.write(0xFF52, 0x00);
    b.write(0xFF53, 0x00);
    b.write(0xFF54, 0x00);
    b.write(0xFF55, 0x80 | 0x01); // HBlank DMA, 2 blocks
    assert_eq!(b.read(0xFF55), 0x01); // active, 2 blocks left (remaining-1)
    assert_eq!(b.ppu.vram[0], 0x00); // nothing copied yet

    // First visible-line HBlank starts at dot 252 = 63 M-cycles.
    for _ in 0..63 {
        b.advance_m();
    }
    assert_eq!(b.ppu.vram[0], 0x00);
    assert_eq!(b.ppu.vram[0x0F], 0x0F); // one block copied
    assert_eq!(b.read(0xFF55), 0x00); // 1 block left

    // Next line's HBlank copies the last block and completes.
    for _ in 0..114 {
        b.advance_m();
    }
    assert_eq!(b.ppu.vram[0x10], 0x10);
    assert_eq!(b.read(0xFF55), 0xFF); // complete
}

#[test]
fn hdma_cancel_stops_transfer() {
    let mut b = bus();
    b.write(0xFF55, 0x80 | 0x03); // start a 4-block HBlank DMA
    assert_eq!(b.read(0xFF55) & 0x80, 0); // active
    b.write(0xFF55, 0x00); // bit 7 clear cancels it
    assert_eq!(b.read(0xFF55), 0xFF); // idle
}

#[test]
fn wram_and_echo() {
    let mut b = bus();
    b.write(0xC123, 0xAB);
    assert_eq!(b.read(0xC123), 0xAB);
    assert_eq!(b.read(0xE123), 0xAB);
    b.write(0xE200, 0x55);
    assert_eq!(b.read(0xC200), 0x55);
}

#[test]
fn hram_roundtrip() {
    let mut b = bus();
    b.write(0xFF80, 0x11);
    b.write(0xFFFE, 0x22);
    assert_eq!(b.read(0xFF80), 0x11);
    assert_eq!(b.read(0xFFFE), 0x22);
}

#[test]
fn ie_and_if_registers() {
    let mut b = bus();
    b.write(0xFFFF, 0x1F);
    b.write(0xFF0F, 0x05);
    assert_eq!(b.read(0xFFFF), 0x1F);
    assert_eq!(b.read(0xFF0F), 0xE5);
}

#[test]
fn oam_dma_copies_160_bytes() {
    let mut b = bus();
    for i in 0..0xA0u16 {
        b.write(0xC000 + i, i as u8);
    }
    b.write(0xFF46, 0xC0);
    assert!(b.dma_active());
    assert_eq!(b.ppu.oam[0], 0);
    assert_eq!(b.ppu.oam[0x9F], 0x9F);
    b.tick(640);
    assert!(!b.dma_active());
}

#[test]
fn serial_capture() {
    let mut b = bus();
    b.write(0xFF01, b'H');
    b.write(0xFF02, 0x81);
    b.write(0xFF01, b'i');
    b.write(0xFF02, 0x81);
    assert_eq!(b.serial_out, b"Hi");
}

#[test]
fn cgb_header_selects_cgb_mode_and_wram_banks() {
    let mut rom = vec![0u8; 0x8000];
    rom[0x143] = 0x80;
    let mut b = Bus::new(Cartridge::from_rom(rom).unwrap());
    assert!(b.cgb);
    assert!(b.ppu.cgb);
    b.write(0xD000, 0x11); // bank 1
    b.write(0xFF70, 0x02);
    assert_eq!(b.read(0xFF70), 0xFA);
    assert_eq!(b.read(0xD000), 0x00); // bank 2 is fresh
    b.write(0xD000, 0x22);
    b.write(0xFF70, 0x00); // bank 0 selects 1
    assert_eq!(b.read(0xD000), 0x11);
    assert_eq!(b.read(0xC000), 0x00);
}

#[test]
fn clocked_access_advances_elapsed() {
    let mut b = bus();
    assert_eq!(CpuBus::elapsed(&b), 0);
    b.write(0xC000, 0x99);
    assert_eq!(CpuBus::read(&mut b, 0xC000), 0x99);
    CpuBus::idle(&mut b);
    CpuBus::write(&mut b, 0xC001, 0x01);
    assert_eq!(CpuBus::elapsed(&b), 12);
    assert_eq!(CpuBus::peek(&b, 0xC001), 0x01);
    assert_eq!(CpuBus::elapsed(&b), 12);
}

#[test]
fn unmapped_io_reads_ff() {
    let b = bus();
    assert_eq!(b.read(0xFEA0), 0xFF);
    assert_eq!(b.read(0xFF03), 0xFF);
    assert_eq!(b.read(0xFF02), 0x7E);
}
