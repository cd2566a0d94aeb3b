use gb_core::interrupts::{Interrupts, INT_STAT, INT_VBLANK};
use gb_core::ppu::{Mode, Ppu, LCDC_OBJ_ENABLE, SCREEN_W, STAT_LYC_EQ, STAT_LYC_INT};

fn run_line(ppu: &mut Ppu, ints: &mut Interrupts) {
    ppu.tick(456, ints);
}

#[test]
fn mode_sequence_and_frame_timing() {
    let mut ppu = Ppu::default();
    let mut ints = Interrupts::default();
    assert_eq!(ppu.mode(), Mode::OamScan);
    ppu.tick(80, &mut ints);
    assert_eq!(ppu.mode(), Mode::Drawing);
    ppu.tick(172, &mut ints);
    assert_eq!(ppu.mode(), Mode::HBlank);
    ppu.tick(456 - 252, &mut ints);
    assert_eq!(ppu.ly, 1);
    assert_eq!(ppu.mode(), Mode::OamScan);
    // Complete the frame: 154 lines total.
    for _ in 1..154 {
        run_line(&mut ppu, &mut ints);
    }
    assert_eq!(ppu.ly, 0);
    assert!(ppu.frame_ready);
}

#[test]
fn vblank_interrupt_at_line_144() {
    let mut ppu = Ppu::default();
    let mut ints = Interrupts::default();
    ints.enable = 0xFF;
    for _ in 0..144 {
        run_line(&mut ppu, &mut ints);
    }
    assert_eq!(ppu.mode(), Mode::VBlank);
    assert!(ints.pending() & INT_VBLANK != 0);
}

#[test]
fn lyc_coincidence_raises_stat() {
    let mut ppu = Ppu::default();
    let mut ints = Interrupts::default();
    ints.enable = 0xFF;
    ppu.write(0xFF45, 5, &mut ints); // LYC = 5
    ppu.write(0xFF41, STAT_LYC_INT, &mut ints);
    for _ in 0..5 {
        run_line(&mut ppu, &mut ints);
    }
    assert!(ints.pending() & INT_STAT != 0);
    assert!(ppu.read(0xFF41) & STAT_LYC_EQ != 0);
}

#[test]
fn renders_solid_bg_tile() {
    let mut ppu = Ppu::default();
    let mut ints = Interrupts::default();
    // Tile 0: all pixels colour index 3.
    for i in 0..16 {
        ppu.vram[i] = 0xFF;
    }
    // BG map already zeroed -> tile 0 everywhere. BGP identity: 11 10 01 00.
    ppu.bgp = 0b11100100;
    run_line(&mut ppu, &mut ints);
    assert!(ppu.framebuffer[..SCREEN_W].iter().all(|&p| p == 3));
}

#[test]
fn bgp_remaps_shades() {
    let mut ppu = Ppu::default();
    let mut ints = Interrupts::default();
    for i in 0..16 {
        ppu.vram[i] = 0xFF; // index 3
    }
    ppu.bgp = 0b00_11_11_11; // index 3 -> shade 0
    run_line(&mut ppu, &mut ints);
    assert!(ppu.framebuffer[..SCREEN_W].iter().all(|&p| p == 0));
}

#[test]
fn sprite_renders_over_bg() {
    let mut ppu = Ppu::default();
    let mut ints = Interrupts::default();
    ppu.lcdc |= LCDC_OBJ_ENABLE;
    // Sprite tile 1: solid colour index 1.
    for i in 0..8 {
        ppu.vram[16 + i * 2] = 0xFF;
        ppu.vram[16 + i * 2 + 1] = 0x00;
    }
    ppu.obp0 = 0b11100100;
    // Sprite 0 at top-left: y=16, x=8 -> screen (0,0)
    ppu.oam[0] = 16;
    ppu.oam[1] = 8;
    ppu.oam[2] = 1;
    ppu.oam[3] = 0;
    run_line(&mut ppu, &mut ints);
    assert_eq!(ppu.framebuffer[0], 1);
    assert_eq!(ppu.framebuffer[7], 1);
    assert_eq!(ppu.framebuffer[8], 0);
}

#[test]
fn stat_mode_bits_track_live_mode() {
    // Regression: Tetris polls STAT & 3 == 0 to write VRAM during
    // HBlank; stale mode bits in the stored STAT byte must never leak
    // into reads.
    let mut ppu = Ppu::default();
    let mut ints = Interrupts::default();
    ppu.tick(80, &mut ints); // OAM scan done
    assert_eq!(ppu.read(0xFF41) & 0x03, Mode::Drawing as u8);
    ppu.tick(172, &mut ints);
    assert_eq!(ppu.read(0xFF41) & 0x03, 0, "HBlank must read mode 0");
    // Writes only affect the interrupt-enable bits.
    ppu.write(0xFF41, 0xFF, &mut ints);
    assert_eq!(ppu.read(0xFF41) & 0x03, 0);
    // And VBlank reads mode 1.
    for _ in 0..144 {
        ppu.tick(456, &mut ints);
    }
    assert_eq!(ppu.read(0xFF41) & 0x03, 1);
}

#[test]
fn lcd_off_freezes_ly() {
    let mut ppu = Ppu::default();
    let mut ints = Interrupts::default();
    ppu.write(0xFF40, 0x00, &mut ints);
    ppu.tick(456 * 10, &mut ints);
    assert_eq!(ppu.ly, 0);
}

#[test]
fn vram_and_registers_read_back() {
    let mut ppu = Ppu::default();
    let mut ints = Interrupts::default();
    ppu.write(0x8123, 0x5A, &mut ints);
    ppu.write(0xFE10, 0x33, &mut ints);
    ppu.write(0xFF42, 0x07, &mut ints);
    assert_eq!(ppu.read(0x8123), 0x5A);
    assert_eq!(ppu.read(0xFE10), 0x33);
    assert_eq!(ppu.read(0xFF42), 0x07);
    assert_eq!(ppu.read(0xFF4C), 0xFF);
}
