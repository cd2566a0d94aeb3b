use gb_core::apu::Apu;
use gb_core::bus::Bus;
use gb_core::cartridge::Cartridge;
use gb_core::debugger::{Debugger, StopReason};
use gb_core::gameboy::{GameBoy, StateError};
use gb_core::ppu::Ppu;
use gb_core::Button;

fn gb_with(code: &[u8]) -> GameBoy {
    let mut rom = vec![0u8; 0x8000];
    rom[0x100..0x100 + code.len()].copy_from_slice(code);
    GameBoy::new(Cartridge::from_rom(rom).unwrap())
}

fn gb_with_rom(code: &[u8], id_byte: u8) -> GameBoy {
    let mut rom = vec![0u8; 0x8000];
    rom[0x100..0x100 + code.len()].copy_from_slice(code);
    rom[0x134] = id_byte; // vary the title so ROM identities differ
    GameBoy::new(Cartridge::from_rom(rom).unwrap())
}

/// What a save state carries: the header bytes, and the machine state that
/// the body encodes (everything but the ROM, the debugger and the undrained
/// audio/serial buffers).
struct Snapshot {
    bytes: Vec<u8>,
    machine: GameBoy,
}

fn copy_machine(gb: &GameBoy) -> GameBoy {
    let c = &gb.bus.cart;
    let p = &gb.bus.ppu;
    let a = &gb.bus.apu;
    let b = &gb.bus;
    GameBoy {
        cpu: gb.cpu,
        bus: Bus {
            cart: Cartridge {
                rom: Vec::new(),
                ram: c.ram.clone(),
                kind: c.kind,
                title: c.title.clone(),
                rom_bank: c.rom_bank,
                ram_bank: c.ram_bank,
                ram_enabled: c.ram_enabled,
                banking_mode: c.banking_mode,
                ram_dirty: c.ram_dirty,
            },
            ppu: Ppu {
                vram: p.vram.clone(),
                oam: p.oam.clone(),
                lcdc: p.lcdc,
                stat: p.stat,
                scy: p.scy,
                scx: p.scx,
                ly: p.ly,
                lyc: p.lyc,
                bgp: p.bgp,
                obp0: p.obp0,
                obp1: p.obp1,
                wy: p.wy,
                wx: p.wx,
                mode: p.mode,
                dot: p.dot,
                window_line: p.window_line,
                framebuffer: p.framebuffer.clone(),
                frame_ready: p.frame_ready,
                entered_hblank: p.entered_hblank,
                cgb: p.cgb,
            },
            apu: Apu {
                enabled: a.enabled,
                ch1: a.ch1,
                ch2: a.ch2,
                ch3: a.ch3,
                ch4: a.ch4,
                wave_table: a.wave_table.clone(),
                nr50: a.nr50,
                nr51: a.nr51,
                frame_seq: a.frame_seq,
                frame_timer: a.frame_timer,
                sample_rate: a.sample_rate,
                sample_counter: a.sample_counter,
                samples: Vec::new(),
            },
            timer: b.timer,
            joypad: b.joypad,
            ints: b.ints,
            wram: b.wram.clone(),
            hram: b.hram.clone(),
            serial_data: b.serial_data,
            serial_ctrl: b.serial_ctrl,
            serial_out: Vec::new(),
            dma_src: b.dma_src,
            dma_countdown: b.dma_countdown,
            cgb: b.cgb,
            svbk: b.svbk,
            key1: b.key1,
            hdma_src: b.hdma_src,
            hdma_dst: b.hdma_dst,
            hdma_active: b.hdma_active,
            hdma_blocks: b.hdma_blocks,
            double_speed: b.double_speed,
            elapsed: b.elapsed,
        },
        debugger: Debugger::new(),
        cycles: gb.cycles,
    }
}

fn save_state(gb: &GameBoy) -> Snapshot {
    Snapshot { bytes: gb.state_header(), machine: copy_machine(gb) }
}

fn load_state(gb: &mut GameBoy, snap: Snapshot) -> Result<(), StateError> {
    gb.check_state(&snap.bytes)?;
    gb.restore(snap.machine)
}

#[test]
fn run_frame_produces_frame() {
    let mut gb = gb_with(&[0x18, 0xFE]); // JR -2: spin forever
    assert!(gb.run_frame().is_none());
    assert!(gb.cycles >= 65664); // at least 144 visible lines
}

#[test]
fn breakpoint_stops_run() {
    // NOP; NOP; JR -2
    let mut gb = gb_with(&[0x00, 0x00, 0x18, 0xFE]);
    gb.toggle_breakpoint(0x0102);
    let stop = gb.run_frame();
    assert_eq!(stop, Some(StopReason::Breakpoint(0x0102)));
    assert_eq!(gb.cpu.regs.pc, 0x0102);
    assert!(gb.is_paused());
}

#[test]
fn paused_machine_does_not_run() {
    let mut gb = gb_with(&[0x00]);
    gb.pause();
    let pc = gb.cpu.regs.pc;
    assert_eq!(gb.run_frame(), Some(StopReason::Paused));
    assert_eq!(gb.cpu.regs.pc, pc);
}

#[test]
fn step_instruction_advances_one_instruction() {
    let mut gb = gb_with(&[0x00, 0x00]);
    gb.pause();
    gb.step_instruction();
    assert_eq!(gb.cpu.regs.pc, 0x0101);
}

#[test]
fn step_frame_runs_one_frame_and_stays_paused() {
    let mut gb = gb_with(&[0x18, 0xFE]); // spin
    gb.pause();
    let c0 = gb.cycles;
    let stop = gb.step_frame();
    assert!(stop.is_none());
    assert!(gb.cycles > c0); // a frame's worth of work happened
    assert!(gb.is_paused()); // ...and we're paused again
}

#[test]
fn step_frame_stops_and_stays_paused_on_breakpoint() {
    let mut gb = gb_with(&[0x00, 0x00, 0x18, 0xFE]);
    gb.pause();
    gb.toggle_breakpoint(0x0102);
    let stop = gb.step_frame();
    assert_eq!(stop, Some(StopReason::Breakpoint(0x0102)));
    assert!(gb.is_paused());
}

#[test]
fn toggle_pause_flips_state() {
    let mut gb = gb_with(&[0x00]);
    assert!(!gb.is_paused());
    gb.toggle_pause();
    assert!(gb.is_paused());
    gb.toggle_pause();
    assert!(!gb.is_paused());
}

#[test]
fn save_state_roundtrips() {
    let mut gb = gb_with_rom(&[0x18, 0xFE], b'A');
    for _ in 0..3 {
        gb.run_frame();
    }
    gb.cpu.regs.a = 0x99;
    gb.bus.wram[0x100] = 0x77;
    let snapshot = save_state(&gb);
    let cycles = gb.cycles;

    // Diverge, then restore.
    gb.run_frame();
    gb.cpu.regs.a = 0x00;
    gb.bus.wram[0x100] = 0x00;

    load_state(&mut gb, snapshot).unwrap();
    assert_eq!(gb.cpu.regs.a, 0x99);
    assert_eq!(gb.bus.wram[0x100], 0x77);
    assert_eq!(gb.cycles, cycles);
    // ROM is preserved across a load.
    assert_eq!(gb.bus.read(0x0100), 0x18);
}

#[test]
fn load_state_preserves_breakpoints() {
    let mut gb = gb_with_rom(&[0x00], b'A');
    gb.toggle_breakpoint(0x0123);
    let snapshot = save_state(&gb);
    load_state(&mut gb, snapshot).unwrap();
    assert!(gb.has_breakpoint(0x0123), "debugger state survives a load");
}

#[test]
fn load_state_rejects_bad_magic() {
    let mut gb = gb_with_rom(&[0x00], b'A');
    let snap = Snapshot { bytes: b"not a state".to_vec(), machine: copy_machine(&gb) };
    assert_eq!(load_state(&mut gb, snap), Err(StateError::BadMagic));
}

#[test]
fn load_state_rejects_other_game() {
    let snapshot = save_state(&gb_with_rom(&[0x00], b'A'));
    let mut other = gb_with_rom(&[0x00], b'B'); // different ROM identity
    assert_eq!(load_state(&mut other, snapshot), Err(StateError::RomMismatch));
}

#[test]
fn timer_and_ppu_advance_with_cpu() {
    let mut gb = gb_with(&[0x18, 0xFE]);
    let div0 = gb.bus.read(0xFF04);
    gb.run_frame();
    assert_ne!(gb.bus.read(0xFF04), div0);
    assert!(gb.bus.ppu.frame_ready);
}

#[test]
fn state_header_layout_and_errors() {
    let gb = gb_with_rom(&[0x00], b'A');
    let h = gb.state_header();
    assert_eq!(h.len(), 30);
    assert_eq!(&h[..8], b"GBEMSAVE");
    assert_eq!(&h[8..12], &[2, 0, 0, 0]);
    assert_eq!(h[12], b'A');
    assert_eq!(gb.check_state(&h), Ok(30));
    assert_eq!(gb.check_state(&h[..20]), Err(StateError::Corrupt));
    let mut v = h.clone();
    v[8] = 3;
    assert_eq!(gb.check_state(&v), Err(StateError::VersionMismatch { found: 3, expected: 2 }));
}

#[test]
fn restore_refuses_inconsistent_state() {
    let mut gb = gb_with_rom(&[0x00], b'A');
    let mut bad = copy_machine(&gb);
    bad.bus.wram.truncate(10);
    bad.cpu.regs.a = 0x42;
    assert_eq!(gb.restore(bad), Err(StateError::Corrupt));
    assert_ne!(gb.cpu.regs.a, 0x42);
    assert_eq!(gb.bus.read(0x0100), 0x00);
}

#[test]
fn step_counts_cycles_and_traces_pc() {
    let mut gb = gb_with(&[0x00, 0x00]);
    assert_eq!(gb.step(), 4);
    assert_eq!(gb.step(), 4);
    assert_eq!(gb.cycles, 8);
    assert_eq!(gb.trace(), vec![0x0100, 0x0101]);
    assert_eq!(gb.bus.elapsed, 8);
}

#[test]
fn button_press_reaches_joypad_and_interrupt() {
    let mut gb = gb_with(&[0x00]);
    gb.set_button(Button::Start, true);
    assert_eq!(gb.bus.ints.request & 0x10, 0x10);
    gb.bus.write(0xFF00, 0x10); // select action buttons
    assert_eq!(gb.bus.read(0xFF00) & 0x0F, 0b0111);
    let fb = gb.framebuffer();
    assert_eq!(fb.len(), 160 * 144 * 4);
    assert_eq!(&fb[..4], &[155, 188, 15, 255]); // shade 0 in the DMG palette
    assert_eq!(gb.breakpoints(), Vec::<u16>::new());
}

#[test]
fn push_pop_through_the_bus() {
    // LD SP,$DFF0; LD BC,$1234; PUSH BC; POP DE
    let mut gb = gb_with(&[0x31, 0xF0, 0xDF, 0x01, 0x34, 0x12, 0xC5, 0xD1]);
    for _ in 0..4 {
        gb.step();
    }
    assert_eq!(gb.cpu.regs.de(), 0x1234);
    assert_eq!(gb.cpu.regs.sp, 0xDFF0);
    assert_eq!(gb.bus.read(0xDFEF), 0x12);
    assert_eq!(gb.bus.read(0xDFEE), 0x34);
}

#[test]
fn every_m_cycle_clocks_the_bus() {
    // JR -2 (taken): 3 M-cycles; CALL $0100 from a spin: 6 M-cycles.
    let mut gb = gb_with(&[0x18, 0xFE]);
    let e0 = gb.bus.elapsed;
    assert_eq!(gb.step(), 12);
    assert_eq!(gb.bus.elapsed - e0, 12);
    let mut gb = gb_with(&[0xCD, 0x00, 0x01]);
    let e0 = gb.bus.elapsed;
    assert_eq!(gb.step(), 24);
    assert_eq!(gb.bus.elapsed - e0, 24);
    // PUSH BC: 4 M-cycles, the writes land in the last two.
    let mut gb = gb_with(&[0xC5]);
    let e0 = gb.bus.elapsed;
    assert_eq!(gb.step(), 16);
    assert_eq!(gb.bus.elapsed - e0, 16);
}
