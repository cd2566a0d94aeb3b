//! Platform-independent Game Boy emulator core, verified with Verus.
//!
//! No I/O, no clocks, no threads: callers drive the emulation with
//! [`GameBoy::step`] / [`GameBoy::run_frame`] and read the PPU framebuffer
//! and the APU samples out of the machine state.

pub mod apu;
pub mod autosave;
pub mod bus;
pub mod cartridge;
pub mod cpu;
pub mod debugger;
pub mod disasm;
pub mod gameboy;
pub mod gamepad;
pub mod interrupts;
pub mod joypad;
pub mod memory;
pub mod palette;
pub mod ppu;
pub mod saves;
pub mod stack;
pub mod text;
pub mod timer;

pub use cartridge::Cartridge;
pub use debugger::Debugger;
pub use gameboy::GameBoy;
pub use joypad::Button;
pub use memory::CpuBus;
pub use ppu::{SCREEN_H, SCREEN_W};
