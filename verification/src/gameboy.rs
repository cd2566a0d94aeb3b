//! Top-level machine: wires CPU and bus together and integrates the debugger.
use vstd::prelude::*;
use crate::bus::{Bus, BusView};
use crate::cartridge::Cartridge;
use crate::cpu::{lemma_step_cycles, Cpu};
use crate::cpu::registers::Registers;
use crate::debugger::{window, Debugger, StopReason};
use crate::interrupts::{Interrupts, INT_JOYPAD};
use crate::joypad::Button;
use crate::cpu::timing::add_t;
use crate::palette::rgba_spec;
use crate::stack::lemma_bus_step_timing;
use crate::ppu::PpuView;

verus! {

pub const CYCLES_PER_FRAME: u32 = 70224;

pub struct GameBoy {
    pub cpu: Cpu,
    pub bus: Bus,
    /// Breakpoints, trace and pause are debugging aids, not machine state:
    /// they are not part of a save state and survive a load.
    pub debugger: Debugger,
    /// Total T-cycles executed (modulo 2^64).
    pub cycles: u64,
}

pub ghost struct GameView {
    pub cpu: Cpu,
    pub bus: BusView,
    pub breakpoints: Set<u16>,
    pub paused: bool,
    pub trace: Seq<u16>,
    pub trace_capacity: usize,
    pub cycles: u64,
}

impl View for GameBoy {
    type V = GameView;

    open spec fn view(&self) -> GameView {
        GameView {
            cpu: self.cpu,
            bus: self.bus@,
            breakpoints: self.debugger.breakpoints@,
            paused: self.debugger.paused,
            trace: self.debugger.trace_view(),
            trace_capacity: self.debugger.trace_capacity,
            cycles: self.cycles,
        }
    }
}

/// Save-state format version.
pub const STATE_VERSION: u32 = 2;

/// Length of the save-state header: magic, version, ROM identity.
pub const STATE_HEADER_LEN: usize = 30;

#[derive(Debug, Clone, Copy, PartialEq, Eq, Structural)]
pub enum StateError {
    BadMagic,
    VersionMismatch { found: u32, expected: u32 },
    RomMismatch,
    Corrupt,
}

/// The save-state magic, "GBEMSAVE".
pub open spec fn state_magic() -> Seq<u8> {
    seq![0x47u8, 0x42u8, 0x45u8, 0x4Du8, 0x53u8, 0x41u8, 0x56u8, 0x45u8]
}

/// `x` as 4 little-endian bytes.
pub open spec fn le32(x: u32) -> Seq<u8> {
    seq![(x % 256) as u8, ((x / 256) % 256) as u8, ((x / 65536) % 256) as u8, (x / 16777216) as u8]
}

/// The `u32` whose little-endian bytes are `b[0..4]`.
pub open spec fn from_le32(b: Seq<u8>) -> u32 {
    (b[0] + 256 * b[1] + 65536 * b[2] + 16777216 * b[3]) as u32
}

/// The header of a save state for a ROM with identity `id`.
pub open spec fn state_header_spec(id: Seq<u8>) -> Seq<u8> {
    state_magic() + le32(STATE_VERSION) + id
}

/// What a save state's header says of `data` for a ROM with identity `id`:
/// the offset of the machine-state body, or why the state is refused.
pub open spec fn check_state_spec(id: Seq<u8>, data: Seq<u8>) -> Result<usize, StateError> {
    if data.len() < 8 || data.subrange(0, 8) != state_magic() {
        Err(StateError::BadMagic)
    } else if data.len() < STATE_HEADER_LEN {
        Err(StateError::Corrupt)
    } else if from_le32(data.subrange(8, 12)) != STATE_VERSION {
        Err(StateError::VersionMismatch { found: from_le32(data.subrange(8, 12)), expected: STATE_VERSION })
    } else if data.subrange(12, 30) != id {
        Err(StateError::RomMismatch)
    } else {
        Ok(STATE_HEADER_LEN)
    }
}

/// Reading back the header of a state written for the same ROM finds the
/// body right after it, whatever follows.
pub proof fn lemma_header_roundtrip(id: Seq<u8>, body: Seq<u8>)
    requires
        id.len() == 18,
    ensures
        check_state_spec(id, state_header_spec(id) + body) == Ok::<usize, StateError>(STATE_HEADER_LEN),
{
    let data = state_header_spec(id) + body;
    assert(data.subrange(0, 8) =~= state_magic());
    assert(data.subrange(8, 12) =~= le32(STATE_VERSION));
    assert(data.subrange(12, 30) =~= id);
}

/// A state written for one ROM is refused by a machine running a ROM with
/// another identity.
pub proof fn lemma_header_other_rom(id: Seq<u8>, other: Seq<u8>, body: Seq<u8>)
    requires
        id.len() == 18,
        other != id,
    ensures
        check_state_spec(other, state_header_spec(id) + body) == Err::<usize, StateError>(StateError::RomMismatch),
{
    let data = state_header_spec(id) + body;
    assert(data.subrange(0, 8) =~= state_magic());
    assert(data.subrange(8, 12) =~= le32(STATE_VERSION));
    assert(data.subrange(12, 30) =~= id);
}

/// The machine after adopting a decoded state (`bus`, `cpu`, `cycles`): the
/// current ROM, debugger and undrained audio/serial buffers are kept.
pub open spec fn adopt_spec(cur: GameView, bus: BusView, cpu: Cpu, cycles: u64) -> GameView {
    GameView { cpu, cycles, bus: bus.with_kept(cur.bus), ..cur }
}

impl GameView {
    /// One instruction: the CPU clocks the bus once per M-cycle (every
    /// access and every internal cycle). The PC is recorded in the trace
    /// first.
    #[verifier::opaque]
    pub open spec fn step_spec(self) -> (GameView, u32) {
        let (c, b1, n) = crate::cpu::step_spec::<BusView, Bus>(self.cpu, self.bus);
        (
            GameView {
                cpu: c,
                bus: b1,
                trace: window(self.trace.push(self.cpu.regs.pc), self.trace_capacity as nat),
                cycles: self.cycles.wrapping_add(n as u64),
                ..self
            },
            n,
        )
    }

    /// Steps until a frame is ready, the cycle budget is spent, or a
    /// breakpoint is reached (which pauses the machine).
    pub open spec fn frame_loop_spec(self, budget: u32) -> (GameView, Option<StopReason>)
        decreases budget,
    {
        if self.bus.ppu.frame_ready || budget == 0 {
            (self, None)
        } else {
            proof {
                lemma_game_step_cycles(self);
            }
            let (g1, n) = self.step_spec();
            if g1.breakpoints.contains(g1.cpu.regs.pc) {
                (GameView { paused: true, ..g1 }, Some(StopReason::Breakpoint(g1.cpu.regs.pc)))
            } else {
                g1.frame_loop_spec(budget.saturating_sub(n))
            }
        }
    }

    /// One frame: nothing runs while paused; otherwise the frame-ready flag
    /// is cleared and the machine runs with a budget of two frames' cycles
    /// (the LCD may be off).
    pub open spec fn run_frame_spec(self) -> (GameView, Option<StopReason>) {
        if self.paused {
            (self, Some(StopReason::Paused))
        } else {
            GameView {
                bus: BusView { ppu: PpuView { frame_ready: false, ..self.bus.ppu }, ..self.bus },
                ..self
            }.frame_loop_spec((CYCLES_PER_FRAME * 2) as u32)
        }
    }

    /// One frame regardless of the pause flag, which is restored afterwards
    /// unless a breakpoint paused the machine.
    pub open spec fn step_frame_spec(self) -> (GameView, Option<StopReason>) {
        let (g, stop) = GameView { paused: false, ..self }.run_frame_spec();
        if stop matches Some(StopReason::Breakpoint(_)) {
            (g, stop)
        } else {
            (GameView { paused: self.paused, ..g }, stop)
        }
    }
}

/// Every instruction step takes at least one M-cycle.
pub proof fn lemma_game_step_cycles(g: GameView)
    ensures
        g.step_spec().1 >= 4,
{
    reveal(GameView::step_spec);
    lemma_step_cycles::<BusView, Bus>(g.cpu, g.bus);
}

/// Loading a save state restores the machine it was saved from: for a
/// decoded machine equal to the saved one up to the ROM, the undrained
/// samples and the serial capture (which a state does not carry), the
/// adopted machine is consistent (so `restore` succeeds) and has the saved
/// CPU, cycle count and machine state, this machine's ROM and buffers, and
/// this machine's breakpoints, pause flag and trace, whatever ran in
/// between. On the same game the cartridge is exactly the saved one.
pub proof fn lemma_load_restores_saved(saved: GameView, cur: GameView, decoded: BusView)
    requires
        saved.bus.wf(),
        cur.bus.wf(),
        decoded.with_kept(cur.bus) == saved.bus.with_kept(cur.bus),
    ensures
        ({
            let a = adopt_spec(cur, decoded, saved.cpu, saved.cycles);
            &&& a.bus.wf()
            &&& a.cpu == saved.cpu
            &&& a.cycles == saved.cycles
            &&& a.bus == saved.bus.with_kept(cur.bus)
            &&& a.breakpoints == cur.breakpoints
            &&& a.paused == cur.paused
            &&& a.trace == cur.trace
            &&& (cur.bus.cart.rom == saved.bus.cart.rom ==> a.bus.cart == saved.bus.cart)
        }),
{
}

impl GameBoy {
    pub open spec fn wf(&self) -> bool {
        self.bus@.wf() && self.debugger.wf()
    }

    /// A machine in the post-boot state running `cart`.
    pub fn new(cart: Cartridge) -> (r: Self)
        requires
            cart.wf(),
        ensures
            r.wf(),
            r@ == (GameView {
                cpu: Cpu { regs: Registers::dmg_spec(), ime: false, ei_pending: false, halted: false, halt_bug: false },
                bus: BusView::power_on(cart@),
                breakpoints: Set::empty(),
                paused: false,
                trace: Seq::empty(),
                trace_capacity: 256,
                cycles: 0,
            }),
    {
        GameBoy { cpu: Cpu::new(), bus: Bus::new(cart), debugger: Debugger::new(), cycles: 0 }
    }

    /// Execute a single instruction and advance all hardware; returns the
    /// T-cycles it took.
    pub fn step(&mut self) -> (r: u32)
        requires
            old(self).wf(),
        ensures
            final(self).wf(),
            (final(self)@, r) == old(self)@.step_spec(),
            final(self).bus.elapsed == add_t(old(self).bus.elapsed, r as int),
    {
        reveal(GameView::step_spec);
        proof {
            lemma_bus_step_timing(self.cpu, self.bus@);
        }
        self.debugger.record_pc(self.cpu.regs.pc);
        let cycles = self.cpu.step(&mut self.bus);
        self.cycles = self.cycles.wrapping_add(cycles as u64);
        cycles
    }

    /// Run until a full frame is rendered, a breakpoint is hit, or the
    /// debugger pauses. Returns the reason the run stopped, if any.
    pub fn run_frame(&mut self) -> (r: Option<StopReason>)
        requires
            old(self).wf(),
        ensures
            final(self).wf(),
            (final(self)@, r) == old(self)@.run_frame_spec(),
    {
        if self.debugger.is_paused() {
            return Some(StopReason::Paused);
        }
        self.bus.ppu.frame_ready = false;
        let ghost g0 = self@;
        let mut budget: u32 = CYCLES_PER_FRAME * 2;
        while !self.bus.ppu.frame_ready && budget > 0
            invariant
                self.wf(),
                self@.frame_loop_spec(budget) == g0.frame_loop_spec((CYCLES_PER_FRAME * 2) as u32),
                old(self)@.run_frame_spec() == g0.frame_loop_spec((CYCLES_PER_FRAME * 2) as u32),
            decreases budget,
        {
            proof {
                lemma_game_step_cycles(self@);
            }
            let n = self.step();
            budget = budget.saturating_sub(n);
            if self.debugger.has_breakpoint(self.cpu.regs.pc) {
                self.debugger.set_paused(true);
                return Some(StopReason::Breakpoint(self.cpu.regs.pc));
            }
        }
        None
    }
    pub fn is_paused(&self) -> (r: bool)
        ensures
            r == self@.paused,
    {
        self.debugger.is_paused()
    }

    pub fn pause(&mut self)
        ensures
            final(self)@ == (GameView { paused: true, ..old(self)@ }),
            final(self).wf() == old(self).wf(),
    {
        self.debugger.set_paused(true);
    }

    pub fn resume(&mut self)
        ensures
            final(self)@ == (GameView { paused: false, ..old(self)@ }),
            final(self).wf() == old(self).wf(),
    {
        self.debugger.set_paused(false);
    }

    pub fn toggle_pause(&mut self)
        ensures
            final(self)@ == (GameView { paused: !old(self)@.paused, ..old(self)@ }),
            final(self).wf() == old(self).wf(),
    {
        let p = self.debugger.is_paused();
        self.debugger.set_paused(!p);
    }

    /// Execute exactly one instruction, regardless of the pause flag.
    pub fn step_instruction(&mut self) -> (r: StopReason)
        requires
            old(self).wf(),
        ensures
            final(self).wf(),
            final(self)@ == old(self)@.step_spec().0,
            r == StopReason::Step,
    {
        self.step();
        StopReason::Step
    }

    /// Run a single frame even while paused, leaving the pause flag as it
    /// was unless a breakpoint stopped the frame (which pauses).
    pub fn step_frame(&mut self) -> (r: Option<StopReason>)
        requires
            old(self).wf(),
        ensures
            final(self).wf(),
            (final(self)@, r) == old(self)@.step_frame_spec(),
    {
        let was_paused = self.debugger.is_paused();
        self.debugger.set_paused(false);
        let stop = self.run_frame();
        // A breakpoint mid-frame already re-paused us; otherwise restore.
        let hit_breakpoint = match stop {
            Some(StopReason::Breakpoint(_)) => true,
            _ => false,
        };
        if !hit_breakpoint {
            self.debugger.set_paused(was_paused);
        }
        stop
    }

    pub fn toggle_breakpoint(&mut self, addr: u16)
        ensures
            final(self)@ == (GameView {
                breakpoints: if old(self)@.breakpoints.contains(addr) {
                    old(self)@.breakpoints.remove(addr)
                } else {
                    old(self)@.breakpoints.insert(addr)
                },
                ..old(self)@
            }),
            final(self).wf() == old(self).wf(),
    {
        self.debugger.toggle_breakpoint(addr);
    }

    pub fn has_breakpoint(&self, addr: u16) -> (r: bool)
        ensures
            r == self@.breakpoints.contains(addr),
    {
        self.debugger.has_breakpoint(addr)
    }

    /// Breakpoint addresses, ascending.
    pub fn breakpoints(&self) -> (r: Vec<u16>)
        ensures
            forall|i: int, j: int| 0 <= i < j < r.len() ==> r@[i] < r@[j],
            forall|a: u16| self@.breakpoints.contains(a) <==> r@.contains(a),
    {
        self.debugger.breakpoints()
    }

    /// Recently executed PCs, oldest first.
    pub fn trace(&self) -> (r: Vec<u16>)
        requires
            self.wf(),
        ensures
            r@ == self@.trace,
    {
        self.debugger.trace()
    }

    /// The current frame as RGBA8, one pixel per (x, y), row-major: the
    /// PPU's DMG shades through the classic green palette.
    pub fn framebuffer(&self) -> (r: Vec<u8>)
        ensures
            r@ == rgba_spec(self@.bus.ppu.framebuffer),
    {
        let fb = &self.bus.ppu.framebuffer;
        let mut r: Vec<u8> = Vec::new();
        let mut i: usize = 0;
        while i < fb.len()
            invariant
                i <= fb.len(),
                r@ == rgba_spec(fb@.subrange(0, i as int)),
            decreases fb.len() - i,
        {
            let s = fb[i];
            let (red, green, blue): (u8, u8, u8) = if s == 0 {
                (155, 188, 15)
            } else if s == 1 {
                (139, 172, 15)
            } else if s == 2 {
                (48, 98, 48)
            } else {
                (15, 56, 15)
            };
            r.push(red);
            r.push(green);
            r.push(blue);
            r.push(255);
            proof {
                assert(fb@.subrange(0, i as int + 1).drop_last() =~= fb@.subrange(0, i as int));
                assert(r@ =~= rgba_spec(fb@.subrange(0, i as int + 1)));
            }
            i = i + 1;
        }
        assert(fb@.subrange(0, fb.len() as int) =~= fb@);
        r
    }

    /// Press or release a button; a fresh press requests the joypad
    /// interrupt.
    pub fn set_button(&mut self, b: Button, pressed: bool)
        ensures
            final(self)@ == (GameView {
                bus: BusView {
                    joypad: old(self)@.bus.joypad.set_button_spec(b, pressed),
                    ints: if pressed && !old(self)@.bus.joypad.pressed(b) {
                        Interrupts { request: old(self)@.bus.ints.request | INT_JOYPAD, ..old(self)@.bus.ints }
                    } else {
                        old(self)@.bus.ints
                    },
                    ..old(self)@.bus
                },
                ..old(self)@
            }),
            final(self).wf() == old(self).wf(),
    {
        self.bus.joypad.set_button(b, pressed, &mut self.bus.ints);
    }
    /// The save-state header for the loaded ROM: magic, format version and
    /// ROM identity. The machine-state body follows it.
    pub fn state_header(&self) -> (r: Vec<u8>)
        requires
            self.bus.cart.wf(),
        ensures
            r@ == state_header_spec(self.bus.cart.identity_spec()),
    {
        let mut r: Vec<u8> = vec![0x47u8, 0x42u8, 0x45u8, 0x4Du8, 0x53u8, 0x41u8, 0x56u8, 0x45u8];
        let v = STATE_VERSION;
        r.push((v % 256) as u8);
        r.push(((v / 256) % 256) as u8);
        r.push(((v / 65536) % 256) as u8);
        r.push((v / 16777216) as u8);
        let mut id = self.bus.cart.rom_identity();
        r.append(&mut id);
        proof {
            assert(r@ =~= state_header_spec(self.bus.cart.identity_spec()));
        }
        r
    }

    /// Check the header of a save state against the loaded ROM; on success
    /// returns where the machine-state body starts.
    pub fn check_state(&self, data: &[u8]) -> (r: Result<usize, StateError>)
        requires
            self.bus.cart.wf(),
        ensures
            r == check_state_spec(self.bus.cart.identity_spec(), data@),
    {
        let magic: [u8; 8] = [0x47u8, 0x42u8, 0x45u8, 0x4Du8, 0x53u8, 0x41u8, 0x56u8, 0x45u8];
        if data.len() < 8 {
            return Err(StateError::BadMagic);
        }
        let mut i: usize = 0;
        while i < 8
            invariant
                i <= 8,
                data.len() >= 8,
                magic@ == state_magic(),
                data@.subrange(0, i as int) == state_magic().subrange(0, i as int),
            decreases 8 - i,
        {
            if data[i] != magic[i] {
                proof {
                    assert(data@.subrange(0, 8)[i as int] != state_magic()[i as int]);
                }
                return Err(StateError::BadMagic);
            }
            i = i + 1;
            proof {
                assert(data@.subrange(0, i as int) =~= state_magic().subrange(0, i as int));
            }
        }
        assert(data@.subrange(0, 8) =~= state_magic());
        if data.len() < STATE_HEADER_LEN {
            return Err(StateError::Corrupt);
        }
        let version: u32 = data[8] as u32 + 256 * data[9] as u32 + 65536 * data[10] as u32
            + 16777216 * data[11] as u32;
        assert(version == from_le32(data@.subrange(8, 12)));
        if version != STATE_VERSION {
            return Err(StateError::VersionMismatch { found: version, expected: STATE_VERSION });
        }
        let id = self.bus.cart.rom_identity();
        let mut k: usize = 0;
        while k < 18
            invariant
                k <= 18,
                data.len() >= 30,
                id@ == self.bus.cart.identity_spec(),
                id@.len() == 18,
                data@.subrange(0, 8) == state_magic(),
                from_le32(data@.subrange(8, 12)) == STATE_VERSION,
                data@.subrange(12, 12 + k) == id@.subrange(0, k as int),
            decreases 18 - k,
        {
            if data[12 + k] != id[k] {
                proof {
                    assert(data@.subrange(12, 30)[k as int] != id@[k as int]);
                }
                return Err(StateError::RomMismatch);
            }
            k = k + 1;
            proof {
                assert(data@.subrange(12, 12 + k) =~= id@.subrange(0, k as int));
            }
        }
        assert(data@.subrange(12, 30) =~= id@);
        Ok(STATE_HEADER_LEN)
    }
    /// Adopt a machine state decoded from a save-state body. The ROM, the
    /// debugger and the undrained audio/serial buffers of this machine are
    /// kept. A state that is not consistent is refused as corrupt, and this
    /// machine is left as it was.
    pub fn restore(&mut self, restored: GameBoy) -> (r: Result<(), StateError>)
        requires
            old(self).wf(),
        ensures
            final(self).wf(),
            ({
                let a = adopt_spec(old(self)@, restored.bus@, restored.cpu, restored.cycles);
                &&& r is Ok <==> a.bus.wf()
                &&& r is Ok ==> final(self)@ == a
                &&& r is Err ==> r == Err::<(), StateError>(StateError::Corrupt) && final(self)@ == old(self)@
            }),
    {
        let mut restored = restored;
        restored.bus.exchange_kept(&mut self.bus);
        if restored.bus.is_valid() {
            std::mem::swap(&mut restored.debugger, &mut self.debugger);
            *self = restored;
            Ok(())
        } else {
            restored.bus.exchange_kept(&mut self.bus);
            assert(self.bus@ == old(self).bus@);
            Err(StateError::Corrupt)
        }
    }
}

} // verus!
