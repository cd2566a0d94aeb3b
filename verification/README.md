# gb-core

A Game Boy (DMG, with CGB bus features) emulator core whose logic is
specified and proved with Verus, plus the desktop frontend around it.

## Layout

- `src/` — the verified core. Every executable function states its result
  in `requires`/`ensures` over spec models (`CartView`, `PpuView`,
  `ApuView`, `BusView`, `GameView`, ...), and the laws of the machine are
  public proof functions:
  - `cpu` — the SM83: each instruction's effect is a spec function over the
    CPU state and an abstract clocked bus (`memory::CpuBus`); `Cpu::step`
    computes exactly `step_spec`.
  - `bus` — address decoding, OAM and VRAM DMA, WRAM banking, double speed;
    `Bus` implements `CpuBus` with `BusView` as its model.
  - `ppu`, `apu`, `timer`, `joypad`, `interrupts`, `cartridge` — the
    peripherals, each with exact read/write/tick specifications.
  - `gameboy` — the machine: stepping, frame runs, breakpoints, pause, and
    save-state framing (header, version, ROM identity, adoption of a decoded
    state).
  - `debugger`, `disasm`, `saves`, `autosave`, `gamepad` — tooling and
    frontend policy that needs no I/O.
- `tests/` — unit and scenario tests run against the compiled core.
- `app/` — the eframe/wgpu frontend: window, audio (cpal), controller input
  (gilrs), file I/O, the bincode body of save states, and frame pacing.
