//! System bus: routes CPU memory accesses to all peripherals and advances
//! them in lock-step with CPU cycles.
use vstd::prelude::*;
use crate::apu::{Apu, ApuView};
use crate::cartridge::{CartView, Cartridge};
use crate::interrupts::Interrupts;
use crate::joypad::Joypad;
use crate::memory::CpuBus;
use crate::ppu::{Ppu, PpuView};
use crate::timer::Timer;

verus! {

pub struct Bus {
    pub cart: Cartridge,
    pub ppu: Ppu,
    pub apu: Apu,
    pub timer: Timer,
    pub joypad: Joypad,
    pub ints: Interrupts,
    /// 8 banks of 4 KiB (CGB); DMG uses banks 0-1.
    pub wram: Vec<u8>,
    pub hram: Vec<u8>,
    pub serial_data: u8,
    pub serial_ctrl: u8,
    /// Bytes written to the serial port (handy for test ROMs). A debug
    /// capture, not machine state.
    pub serial_out: Vec<u8>,
    pub dma_src: u8,
    /// Remaining T-cycles of an active OAM DMA.
    pub dma_countdown: u16,
    /// True for CGB ROMs.
    pub cgb: bool,
    /// WRAM bank select (SVBK); bank 0 maps to 1.
    pub svbk: u8,
    /// KEY1: bit 0 arms a speed switch for the next STOP.
    pub key1: u8,
    /// CGB VRAM DMA source/destination; also the running pointers during a
    /// transfer.
    pub hdma_src: u16,
    pub hdma_dst: u16,
    /// An HBlank VRAM DMA is in progress, with this many 0x10-byte blocks left.
    pub hdma_active: bool,
    pub hdma_blocks: u16,
    /// CGB double-speed mode (KEY1 bit 7).
    pub double_speed: bool,
    /// Total T-cycles the machine has advanced (for CPU cycle accounting).
    pub elapsed: u64,
}

pub ghost struct BusView {
    pub cart: CartView,
    pub ppu: PpuView,
    pub apu: ApuView,
    pub timer: Timer,
    pub joypad: Joypad,
    pub ints: Interrupts,
    pub wram: Seq<u8>,
    pub hram: Seq<u8>,
    pub serial_data: u8,
    pub serial_ctrl: u8,
    pub serial_out: Seq<u8>,
    pub dma_src: u8,
    pub dma_countdown: u16,
    pub cgb: bool,
    pub svbk: u8,
    pub key1: u8,
    pub hdma_src: u16,
    pub hdma_dst: u16,
    pub hdma_active: bool,
    pub hdma_blocks: u16,
    pub double_speed: bool,
    pub elapsed: u64,
}

impl View for Bus {
    type V = BusView;

    open spec fn view(&self) -> BusView {
        BusView {
            cart: self.cart@,
            ppu: self.ppu@,
            apu: self.apu@,
            timer: self.timer,
            joypad: self.joypad,
            ints: self.ints,
            wram: self.wram@,
            hram: self.hram@,
            serial_data: self.serial_data,
            serial_ctrl: self.serial_ctrl,
            serial_out: self.serial_out@,
            dma_src: self.dma_src,
            dma_countdown: self.dma_countdown,
            cgb: self.cgb,
            svbk: self.svbk,
            key1: self.key1,
            hdma_src: self.hdma_src,
            hdma_dst: self.hdma_dst,
            hdma_active: self.hdma_active,
            hdma_blocks: self.hdma_blocks,
            double_speed: self.double_speed,
            elapsed: self.elapsed,
        }
    }
}

/// Whether `addr` is routed to the cartridge (ROM or external RAM).
pub open spec fn is_cart_addr(addr: u16) -> bool {
    addr <= 0x7FFF || (0xA000 <= addr <= 0xBFFF)
}

/// Whether `addr` is a PPU register reached through the I/O page.
pub open spec fn is_ppu_io(addr: u16) -> bool {
    (0xFF40 <= addr <= 0xFF4B) || addr == 0xFF4F || (0xFF68 <= addr <= 0xFF6B)
}

impl BusView {
    pub open spec fn wf(self) -> bool {
        &&& self.cart.wf()
        &&& self.ppu.wf()
        &&& self.apu.wf()
        &&& self.wram.len() == 0x8000
        &&& self.hram.len() == 0x7F
        &&& (self.hdma_active ==> 1 <= self.hdma_blocks <= 0x80)
    }

    /// The WRAM bank mapped at 0xD000-0xDFFF (SVBK, bank 0 selects 1).
    pub open spec fn wram_bank(self) -> int {
        if self.svbk & 7 == 0 {
            1
        } else {
            (self.svbk & 7) as int
        }
    }

    /// Flat WRAM index of a 0xC000-0xFDFF address (echo RAM included).
    pub open spec fn wram_index(self, addr: u16) -> int {
        let off = (addr & 0x1FFF) as int;
        if off < 0x1000 {
            off
        } else {
            self.wram_bank() * 0x1000 + (off - 0x1000)
        }
    }

    /// A read of the I/O page and high RAM (0xFF00-0xFFFF).
    pub open spec fn io_read_spec(self, addr: u16) -> u8 {
        if addr == 0xFF00 {
            self.joypad.read_spec()
        } else if addr == 0xFF01 {
            self.serial_data
        } else if addr == 0xFF02 {
            self.serial_ctrl | 0x7E
        } else if 0xFF04 <= addr <= 0xFF07 {
            self.timer.read_spec(addr)
        } else if addr == 0xFF0F {
            self.ints.request | 0xE0
        } else if 0xFF10 <= addr <= 0xFF3F {
            self.apu.read_spec(addr)
        } else if addr == 0xFF46 {
            self.dma_src
        } else if addr == 0xFF4D {
            (0x7Eu8 | (self.key1 & 0x01)) | (if self.double_speed { 0x80u8 } else { 0u8 })
        } else if is_ppu_io(addr) {
            self.ppu.read_spec(addr)
        } else if addr == 0xFF55 {
            // Bit 7 clear and (blocks left - 1) while active; 0xFF when idle.
            if self.hdma_active {
                ((self.hdma_blocks - 1) as u8) & 0x7F
            } else {
                0xFF
            }
        } else if addr == 0xFF70 {
            0xF8 | (self.svbk & 0x07)
        } else if 0xFF80 <= addr <= 0xFFFE {
            self.hram[addr - 0xFF80]
        } else if addr == 0xFFFF {
            self.ints.enable
        } else {
            0xFF
        }
    }

    /// A non-clocking read of the full address space.
    pub open spec fn read_spec(self, addr: u16) -> u8 {
        if is_cart_addr(addr) {
            self.cart.read_spec(addr)
        } else if addr <= 0x9FFF {
            self.ppu.read_spec(addr)
        } else if addr <= 0xFDFF {
            self.wram[self.wram_index(addr)]
        } else if addr <= 0xFE9F {
            self.ppu.read_spec(addr)
        } else if addr <= 0xFEFF {
            0xFF
        } else {
            self.io_read_spec(addr)
        }
    }

    /// A PPU register or memory write, which may request a STAT interrupt.
    pub open spec fn ppu_write_spec(self, addr: u16, val: u8) -> BusView {
        let (p, i) = self.ppu.write_spec(addr, val, self.ints);
        BusView { ppu: p, ints: i, ..self }
    }

    /// OAM DMA: bytes `0..n` of the 0xA0-byte copy from `base`, in order.
    pub open spec fn oam_copy_spec(self, base: int, n: nat) -> BusView
        decreases n,
    {
        if n == 0 {
            self
        } else {
            let v = self.oam_copy_spec(base, (n - 1) as nat);
            let b = v.read_spec((base + n - 1) as u16);
            BusView { ppu: PpuView { oam: v.ppu.oam.update(n - 1, b), ..v.ppu }, ..v }
        }
    }

    /// Writing 0xFF46: copy 0xA0 bytes from `src * 0x100` into OAM at once
    /// and mark the transfer as running for 640 T-cycles.
    pub open spec fn start_dma_spec(self, src: u8) -> BusView {
        let v = BusView { dma_src: src, ..self }.oam_copy_spec(src as int * 256, 0xA0);
        BusView { dma_countdown: 640, ..v }
    }

    /// VRAM DMA: bytes `0..n` of the current 0x10-byte block, from the
    /// source pointer into VRAM.
    pub open spec fn block_bytes_spec(self, src: u16, dst: u16, n: nat) -> BusView
        decreases n,
    {
        if n == 0 {
            self
        } else {
            let v = self.block_bytes_spec(src, dst, (n - 1) as nat);
            let b = v.read_spec(src.wrapping_add((n - 1) as u16));
            v.ppu_write_spec((dst + n - 1) as u16, b)
        }
    }

    /// One 0x10-byte VRAM DMA block; both running pointers advance.
    pub open spec fn block_spec(self) -> BusView {
        let dst = 0x8000u16 | (self.hdma_dst & 0x1FF0);
        let src = self.hdma_src & 0xFFF0;
        let v = self.block_bytes_spec(src, dst, 16);
        BusView { hdma_src: v.hdma_src.wrapping_add(0x10), hdma_dst: v.hdma_dst.wrapping_add(0x10), ..v }
    }

    /// `n` VRAM DMA blocks.
    pub open spec fn blocks_spec(self, n: nat) -> BusView
        decreases n,
    {
        if n == 0 {
            self
        } else {
            self.blocks_spec((n - 1) as nat).block_spec()
        }
    }

    /// Writing HDMA5: bit 7 set starts an HBlank transfer of
    /// `(ctrl & 0x7F) + 1` blocks; bit 7 clear cancels a running one, or
    /// otherwise copies that many blocks at once.
    pub open spec fn vram_dma_spec(self, ctrl: u8) -> BusView {
        let blocks = ((ctrl & 0x7F) + 1) as u16;
        if ctrl & 0x80 != 0 {
            BusView { hdma_active: true, hdma_blocks: blocks, ..self }
        } else if self.hdma_active {
            BusView { hdma_active: false, ..self }
        } else {
            self.blocks_spec(blocks as nat)
        }
    }

    /// Writing SC: with bit 7 set the byte in SB is "sent" at once (kept in
    /// the capture, which stops growing at 0x10000 bytes) and bit 7 clears.
    pub open spec fn serial_ctrl_spec(self, val: u8) -> BusView {
        if val & 0x80 != 0 {
            BusView {
                serial_ctrl: val & 0x7F,
                serial_out: if self.serial_out.len() < 0x10000 {
                    self.serial_out.push(self.serial_data)
                } else {
                    self.serial_out
                },
                ..self
            }
        } else {
            BusView { serial_ctrl: val, ..self }
        }
    }

    /// A write to the I/O page and high RAM (0xFF00-0xFFFF).
    pub open spec fn io_write_spec(self, addr: u16, val: u8) -> BusView {
        if addr == 0xFF00 {
            BusView { joypad: Joypad { select: val & 0x30, ..self.joypad }, ..self }
        } else if addr == 0xFF01 {
            BusView { serial_data: val, ..self }
        } else if addr == 0xFF02 {
            self.serial_ctrl_spec(val)
        } else if 0xFF04 <= addr <= 0xFF07 {
            BusView { timer: self.timer.write_spec(addr, val), ..self }
        } else if addr == 0xFF0F {
            BusView { ints: Interrupts { request: val & 0x1F, ..self.ints }, ..self }
        } else if 0xFF10 <= addr <= 0xFF3F {
            BusView { apu: self.apu.write_spec(addr, val), ..self }
        } else if addr == 0xFF46 {
            self.start_dma_spec(val)
        } else if addr == 0xFF4D {
            BusView { key1: (self.key1 & 0x80) | (val & 0x01), ..self }
        } else if is_ppu_io(addr) {
            self.ppu_write_spec(addr, val)
        } else if addr == 0xFF51 {
            BusView { hdma_src: (self.hdma_src & 0x00FF) | ((val as u16) << 8u16), ..self }
        } else if addr == 0xFF52 {
            BusView { hdma_src: (self.hdma_src & 0xFF00) | ((val as u16) & 0xF0), ..self }
        } else if addr == 0xFF53 {
            BusView { hdma_dst: (self.hdma_dst & 0x00FF) | (((val as u16) & 0x1F) << 8u16), ..self }
        } else if addr == 0xFF54 {
            BusView { hdma_dst: (self.hdma_dst & 0xFF00) | ((val as u16) & 0xF0), ..self }
        } else if addr == 0xFF55 {
            self.vram_dma_spec(val)
        } else if addr == 0xFF70 {
            BusView { svbk: val & 0x07, ..self }
        } else if 0xFF80 <= addr <= 0xFFFE {
            BusView { hram: self.hram.update(addr - 0xFF80, val), ..self }
        } else if addr == 0xFFFF {
            BusView { ints: Interrupts { enable: val, ..self.ints }, ..self }
        } else {
            self
        }
    }

    /// A non-clocking write of the full address space.
    pub open spec fn write_spec(self, addr: u16, val: u8) -> BusView {
        if is_cart_addr(addr) {
            BusView { cart: self.cart.write_spec(addr, val), ..self }
        } else if addr <= 0x9FFF {
            self.ppu_write_spec(addr, val)
        } else if addr <= 0xFDFF {
            BusView { wram: self.wram.update(self.wram_index(addr), val), ..self }
        } else if addr <= 0xFE9F {
            self.ppu_write_spec(addr, val)
        } else if addr <= 0xFEFF {
            self
        } else {
            self.io_write_spec(addr, val)
        }
    }
    /// One CPU M-cycle of machine time. The timer runs on the CPU clock
    /// (4 T); the PPU and APU on the base clock, which is half as fast per
    /// M-cycle in double speed. An HBlank VRAM DMA copies one block each
    /// time a visible-line HBlank begins. `elapsed` counts CPU T-cycles
    /// (modulo 2^64).
    #[verifier::opaque]
    pub open spec fn advance_spec(self) -> BusView {
        let base: nat = if self.double_speed { 2 } else { 4 };
        let (t, i1) = self.timer.tick_spec(self.ints, 4);
        let (p, i2) = self.ppu.tick_spec(i1, base);
        let v = BusView {
            timer: t,
            ppu: p,
            ints: i2,
            apu: self.apu.tick_spec(base),
            dma_countdown: self.dma_countdown.saturating_sub(4),
            elapsed: self.elapsed.wrapping_add(4),
            ..self
        };
        if v.hdma_active && v.ppu.entered_hblank {
            let v2 = BusView { ppu: PpuView { entered_hblank: false, ..v.ppu }, ..v }.blocks_spec(1);
            let n = (v2.hdma_blocks - 1) as u16;
            BusView { hdma_blocks: n, hdma_active: n != 0, ..v2 }
        } else {
            v
        }
    }

    /// Advance the peripherals by `cycles` T-cycles.
    pub open spec fn tick_spec(self, cycles: u32) -> BusView {
        let (t, i1) = self.timer.tick_spec(self.ints, cycles as nat);
        let (p, i2) = self.ppu.tick_spec(i1, cycles as nat);
        BusView {
            timer: t,
            ppu: p,
            ints: i2,
            apu: self.apu.tick_spec(cycles as nat),
            dma_countdown: self.dma_countdown.saturating_sub(cycles as u16),
            ..self
        }
    }

    /// STOP switches the CGB speed when KEY1 has armed it, disarming it.
    pub open spec fn stop_spec(self) -> BusView {
        if self.key1 & 0x01 != 0 {
            BusView { double_speed: !self.double_speed, key1: self.key1 & !0x01u8, ..self }
        } else {
            self
        }
    }

    /// This state with the ROM, the undrained samples and the serial capture
    /// of `from`.
    pub open spec fn with_kept(self, from: BusView) -> BusView {
        BusView {
            cart: CartView { rom: from.cart.rom, ..self.cart },
            apu: ApuView { samples: from.apu.samples, ..self.apu },
            serial_out: from.serial_out,
            ..self
        }
    }

    /// A freshly wired bus for `cart`: CGB mode comes from header byte 0x143.
    pub open spec fn power_on(cart: CartView) -> BusView {
        BusView {
            cart,
            ppu: PpuView { cgb: cart.read_spec(0x0143) & 0x80 != 0, ..PpuView::power_on() },
            apu: ApuView::power_on(),
            timer: Timer { div: 0xABCC, tima: 0, tma: 0, tac: 0xF8, overflow_delay: 0 },
            joypad: Joypad { select: 0x30, dpad: 0, buttons: 0 },
            ints: Interrupts { enable: 0, request: 0 },
            wram: Seq::new(0x8000, |i: int| 0u8),
            hram: Seq::new(0x7F, |i: int| 0u8),
            serial_data: 0,
            serial_ctrl: 0,
            serial_out: Seq::empty(),
            dma_src: 0,
            dma_countdown: 0,
            cgb: cart.read_spec(0x0143) & 0x80 != 0,
            svbk: 1,
            key1: 0,
            hdma_src: 0,
            hdma_dst: 0,
            hdma_active: false,
            hdma_blocks: 0,
            double_speed: false,
            elapsed: 0,
        }
    }
}

/// Every work-RAM address (echo included) maps into the 32 KiB of WRAM.
pub proof fn lemma_wram_index(v: BusView, addr: u16)
    requires
        0xC000 <= addr <= 0xFDFF,
    ensures
        0 <= v.wram_index(addr) < 0x8000,
{
    let s = v.svbk;
    assert(addr & 0x1FFF < 0x2000) by (bit_vector);
    assert(s & 7 < 8) by (bit_vector);
}

/// A byte written to work RAM (or its echo) reads back from the same
/// address, and from its mirror 0x2000 away.
pub proof fn lemma_wram_write_read(v: BusView, addr: u16, val: u8)
    requires
        v.wf(),
        0xC000 <= addr <= 0xDDFF,
    ensures
        v.write_spec(addr, val).read_spec(addr) == val,
        v.write_spec(addr, val).read_spec((addr + 0x2000) as u16) == val,
        v.write_spec(addr, val).wf(),
{
    let e = (addr + 0x2000) as u16;
    assert(e & 0x1FFF == addr & 0x1FFF) by (bit_vector)
        requires
            0xC000 <= addr <= 0xDDFF,
            e == (addr + 0x2000) as u16,
    ;
    lemma_wram_index(v, addr);
    lemma_wram_index(v, e);
}

/// A byte written to high RAM reads back.
pub proof fn lemma_hram_write_read(v: BusView, addr: u16, val: u8)
    requires
        v.wf(),
        0xFF80 <= addr <= 0xFFFE,
    ensures
        v.write_spec(addr, val).read_spec(addr) == val,
        v.write_spec(addr, val).wf(),
{
}

/// IE reads back as written; IF keeps its low five bits and reads the
/// upper three as set.
pub proof fn lemma_interrupt_regs(v: BusView, ie: u8, iflag: u8)
    requires
        v.wf(),
    ensures
        v.write_spec(0xFFFF, ie).read_spec(0xFFFF) == ie,
        v.write_spec(0xFF0F, iflag).read_spec(0xFF0F) == (iflag & 0x1F) | 0xE0,
{
}

/// An armed STOP toggles double speed and disarms; an unarmed one changes
/// nothing.
pub proof fn lemma_stop_switch(v: BusView)
    requires
        v.wf(),
    ensures
        v.key1 & 1 != 0 ==> v.stop_spec().double_speed == !v.double_speed && v.stop_spec().key1 & 1 == 0,
        v.key1 & 1 == 0 ==> v.stop_spec() == v,
{
    let k = v.key1;
    assert((k & !0x01u8) & 1 == 0) by (bit_vector);
}

/// The OAM DMA copy of bytes `0..n` from work RAM: each OAM byte is the
/// source byte as it was before the copy, and nothing but OAM changes.
proof fn lemma_oam_copy_wram(v: BusView, base: int, n: nat)
    requires
        v.wf(),
        0xC000 <= base,
        base + 0xA0 <= 0xDE00,
        n <= 0xA0,
    ensures
        v.oam_copy_spec(base, n).wf(),
        v.oam_copy_spec(base, n) == (BusView {
            ppu: PpuView { oam: v.oam_copy_spec(base, n).ppu.oam, ..v.ppu },
            ..v
        }),
        v.oam_copy_spec(base, n).ppu.oam.len() == 0xA0,
        forall|i: int| 0 <= i < n ==> #[trigger] v.oam_copy_spec(base, n).ppu.oam[i] == v.read_spec((base + i) as u16),
        forall|i: int| n <= i < 0xA0 ==> #[trigger] v.oam_copy_spec(base, n).ppu.oam[i] == v.ppu.oam[i],
    decreases n,
{
    if n > 0 {
        lemma_oam_copy_wram(v, base, (n - 1) as nat);
        let w = v.oam_copy_spec(base, (n - 1) as nat);
        let a = (base + n - 1) as u16;
        assert(w.read_spec(a) == v.read_spec(a));
    }
}

/// Writing DMA (0xFF46) with a work-RAM page copies its 160 bytes into OAM
/// at once and starts the 640-cycle transfer window.
pub proof fn lemma_oam_dma_copies(v: BusView, src: u8)
    requires
        v.wf(),
        0xC0 <= src <= 0xDD,
    ensures
        v.write_spec(0xFF46, src).wf(),
        v.write_spec(0xFF46, src).dma_countdown == 640,
        v.write_spec(0xFF46, src).dma_src == src,
        forall|i: int| 0 <= i < 0xA0 ==> #[trigger] v.write_spec(0xFF46, src).ppu.oam[i] == v.read_spec((src as int * 256 + i) as u16),
{
    let v1 = BusView { dma_src: src, ..v };
    lemma_oam_copy_wram(v1, src as int * 256, 0xA0);
    assert forall|i: int| 0 <= i < 0xA0 implies #[trigger] v.write_spec(0xFF46, src).ppu.oam[i] == v.read_spec((src as int * 256 + i) as u16) by {
        assert(v1.read_spec((src as int * 256 + i) as u16) == v.read_spec((src as int * 256 + i) as u16));
    }
}

/// Bytes `0..n` of a VRAM DMA block from work RAM: each VRAM byte is the
/// source byte as it was before, and nothing but VRAM changes.
proof fn lemma_block_bytes_wram(v: BusView, src: u16, dst: u16, n: nat)
    requires
        v.wf(),
        0xC000 <= src,
        src + 0x10 <= 0xDE00,
        0x8000 <= dst <= 0x9FF0,
        n <= 0x10,
    ensures
        v.block_bytes_spec(src, dst, n).wf(),
        v.block_bytes_spec(src, dst, n) == (BusView {
            ppu: PpuView { vram: v.block_bytes_spec(src, dst, n).ppu.vram, ..v.ppu },
            ..v
        }),
        v.block_bytes_spec(src, dst, n).ppu.vram.len() == 0x2000,
        forall|i: int| 0 <= i < n ==> #[trigger] v.block_bytes_spec(src, dst, n).ppu.vram[dst - 0x8000 + i] == v.read_spec((src + i) as u16),
    decreases n,
{
    if n > 0 {
        lemma_block_bytes_wram(v, src, dst, (n - 1) as nat);
        let w = v.block_bytes_spec(src, dst, (n - 1) as nat);
        let a = src.wrapping_add((n - 1) as u16);
        assert(a == (src + n - 1) as u16);
        assert(w.read_spec(a) == v.read_spec(a));
    }
}

/// A general-purpose VRAM DMA of one block (HDMA5 written with bit 7 clear
/// and length 0, no HBlank transfer running) copies 16 bytes from work RAM
/// into VRAM at once, advances both pointers and leaves HDMA5 reading idle.
pub proof fn lemma_gdma_one_block(v: BusView)
    requires
        v.wf(),
        !v.hdma_active,
        0xC000 <= v.hdma_src & 0xFFF0,
        (v.hdma_src & 0xFFF0) + 0x10 <= 0xDE00,
    ensures
        ({
            let w = v.write_spec(0xFF55, 0x00);
            let src = v.hdma_src & 0xFFF0;
            let dst = 0x8000u16 | (v.hdma_dst & 0x1FF0);
            &&& w.wf()
            &&& forall|i: int| 0 <= i < 0x10 ==> #[trigger] w.ppu.vram[dst - 0x8000 + i] == v.read_spec((src + i) as u16)
            &&& w.hdma_src == v.hdma_src.wrapping_add(0x10)
            &&& w.hdma_dst == v.hdma_dst.wrapping_add(0x10)
            &&& w.read_spec(0xFF55) == 0xFF
        }),
{
    let src = v.hdma_src & 0xFFF0;
    let d = v.hdma_dst;
    let dst = 0x8000u16 | (d & 0x1FF0);
    assert(0x8000 <= (0x8000u16 | (d & 0x1FF0)) <= 0x9FF0) by (bit_vector);
    assert((0x00u8 & 0x7F) + 1 == 1) by (bit_vector);
    assert(0x00u8 & 0x80 == 0) by (bit_vector);
    lemma_block_bytes_wram(v, src, dst, 0x10);
    assert(v.blocks_spec(1) == v.blocks_spec(0).block_spec());
}

impl Bus {
    fn wram_index(&self, addr: u16) -> (r: usize)
        requires
            0xC000 <= addr <= 0xFDFF,
        ensures
            r == self@.wram_index(addr),
            r < 0x8000,
    {
        proof {
            lemma_wram_index(self@, addr);
        }
        let off = (addr & 0x1FFF) as usize;
        if off < 0x1000 {
            off
        } else {
            let b = (self.svbk & 0x07) as usize;
            let bank: usize = if b == 0 {
                1
            } else {
                b
            };
            bank * 0x1000 + (off - 0x1000)
        }
    }

    fn io_read(&self, addr: u16) -> (r: u8)
        requires
            self@.wf(),
            addr >= 0xFF00,
        ensures
            r == self@.io_read_spec(addr),
    {
        if addr == 0xFF00 {
            self.joypad.read()
        } else if addr == 0xFF01 {
            self.serial_data
        } else if addr == 0xFF02 {
            self.serial_ctrl | 0x7E
        } else if 0xFF04 <= addr && addr <= 0xFF07 {
            self.timer.read(addr)
        } else if addr == 0xFF0F {
            self.ints.request | 0xE0
        } else if 0xFF10 <= addr && addr <= 0xFF3F {
            self.apu.read(addr)
        } else if addr == 0xFF46 {
            self.dma_src
        } else if addr == 0xFF4D {
            (0x7Eu8 | (self.key1 & 0x01)) | (if self.double_speed { 0x80u8 } else { 0u8 })
        } else if (0xFF40 <= addr && addr <= 0xFF4B) || addr == 0xFF4F || (0xFF68 <= addr && addr <= 0xFF6B) {
            self.ppu.read(addr)
        } else if addr == 0xFF55 {
            if self.hdma_active {
                ((self.hdma_blocks - 1) as u8) & 0x7F
            } else {
                0xFF
            }
        } else if addr == 0xFF70 {
            0xF8 | (self.svbk & 0x07)
        } else if 0xFF80 <= addr && addr <= 0xFFFE {
            self.hram[(addr - 0xFF80) as usize]
        } else if addr == 0xFFFF {
            self.ints.enable
        } else {
            0xFF
        }
    }

    /// A non-clocking read (tooling, DMA, the CPU's interrupt queries).
    pub fn read(&self, addr: u16) -> (r: u8)
        requires
            self@.wf(),
        ensures
            r == self@.read_spec(addr),
    {
        if addr <= 0x7FFF || (0xA000 <= addr && addr <= 0xBFFF) {
            self.cart.read(addr)
        } else if addr <= 0x9FFF {
            self.ppu.read(addr)
        } else if addr <= 0xFDFF {
            self.wram[self.wram_index(addr)]
        } else if addr <= 0xFE9F {
            self.ppu.read(addr)
        } else if addr <= 0xFEFF {
            0xFF
        } else {
            self.io_read(addr)
        }
    }

    fn ppu_write(&mut self, addr: u16, val: u8)
        requires
            old(self)@.wf(),
        ensures
            final(self)@.wf(),
            final(self)@ == old(self)@.ppu_write_spec(addr, val),
    {
        self.ppu.write(addr, val, &mut self.ints);
    }

    fn start_dma(&mut self, src: u8)
        requires
            old(self)@.wf(),
        ensures
            final(self)@.wf(),
            final(self)@ == old(self)@.start_dma_spec(src),
    {
        self.dma_src = src;
        // Copy immediately (games wait in HRAM for the 160 M-cycle duration).
        let base: u16 = (src as u16) << 8u16;
        assert(base == src as int * 256) by (bit_vector)
            requires
                base == (src as u16) << 8u16,
        ;
        let ghost start = self@;
        let mut i: u16 = 0;
        while i < 0xA0
            invariant
                i <= 0xA0,
                base == src as int * 256,
                self@.wf(),
                self@ == start.oam_copy_spec(base as int, i as nat),
            decreases 0xA0 - i,
        {
            let b = Bus::read(self, base + i);
            self.ppu.oam.set(i as usize, b);
            i = i + 1;
        }
        self.dma_countdown = 640;
    }

    /// Copy one 0x10-byte block from the source pointer to VRAM, advancing
    /// both running pointers.
    fn copy_block(&mut self)
        requires
            old(self)@.wf(),
        ensures
            final(self)@.wf(),
            final(self)@ == old(self)@.block_spec(),
            final(self).hdma_active == old(self).hdma_active,
            final(self).hdma_blocks == old(self).hdma_blocks,
    {
        let dst: u16 = 0x8000u16 | (self.hdma_dst & 0x1FF0);
        let src: u16 = self.hdma_src & 0xFFF0;
        let d = self.hdma_dst;
        assert(0x8000 <= (0x8000u16 | (d & 0x1FF0)) <= 0x9FF0) by (bit_vector);
        let ghost start = self@;
        let mut i: u16 = 0;
        while i < 0x10
            invariant
                i <= 0x10,
                dst == 0x8000u16 | (start.hdma_dst & 0x1FF0),
                src == start.hdma_src & 0xFFF0,
                0x8000 <= dst <= 0x9FF0,
                self@.wf(),
                self@ == start.block_bytes_spec(src, dst, i as nat),
                self.hdma_src == start.hdma_src,
                self.hdma_dst == start.hdma_dst,
                self.hdma_active == start.hdma_active,
                self.hdma_blocks == start.hdma_blocks,
            decreases 0x10 - i,
        {
            let b = Bus::read(self, src.wrapping_add(i));
            self.ppu.write(dst + i, b, &mut self.ints);
            i = i + 1;
        }
        self.hdma_src = self.hdma_src.wrapping_add(0x10);
        self.hdma_dst = self.hdma_dst.wrapping_add(0x10);
    }

    /// Copy `blocks` x 0x10 bytes from the source pointer to VRAM.
    fn hdma_copy(&mut self, blocks: u16)
        requires
            old(self)@.wf(),
        ensures
            final(self)@.wf(),
            final(self)@ == old(self)@.blocks_spec(blocks as nat),
            final(self).hdma_active == old(self).hdma_active,
            final(self).hdma_blocks == old(self).hdma_blocks,
    {
        let mut k: u16 = 0;
        while k < blocks
            invariant
                k <= blocks,
                self@.wf(),
                self@ == old(self)@.blocks_spec(k as nat),
                self.hdma_active == old(self).hdma_active,
                self.hdma_blocks == old(self).hdma_blocks,
            decreases blocks - k,
        {
            self.copy_block();
            k = k + 1;
        }
    }

    /// CGB VRAM DMA (HDMA5).
    fn vram_dma(&mut self, ctrl: u8)
        requires
            old(self)@.wf(),
        ensures
            final(self)@.wf(),
            final(self)@ == old(self)@.vram_dma_spec(ctrl),
    {
        let blocks: u16 = ((ctrl & 0x7F) as u16) + 1;
        assert(ctrl & 0x7F <= 0x7F) by (bit_vector);
        if ctrl & 0x80 != 0 {
            self.hdma_active = true;
            self.hdma_blocks = blocks;
        } else if self.hdma_active {
            // Cancel the in-progress HBlank transfer.
            self.hdma_active = false;
        } else {
            self.hdma_copy(blocks);
        }
    }

    fn serial_ctrl_write(&mut self, val: u8)
        requires
            old(self)@.wf(),
        ensures
            final(self)@.wf(),
            final(self)@ == old(self)@.serial_ctrl_spec(val),
    {
        self.serial_ctrl = val;
        if val & 0x80 != 0 {
            // Instant transfer, no external device: record the byte. Cap the
            // log, since games poll the link port forever.
            if self.serial_out.len() < 0x10000 {
                self.serial_out.push(self.serial_data);
            }
            self.serial_ctrl = self.serial_ctrl & 0x7F;
        }
    }

    fn io_write(&mut self, addr: u16, val: u8)
        requires
            old(self)@.wf(),
            addr >= 0xFF00,
        ensures
            final(self)@.wf(),
            final(self)@ == old(self)@.io_write_spec(addr, val),
    {
        if addr == 0xFF00 {
            self.joypad.write(val);
        } else if addr == 0xFF01 {
            self.serial_data = val;
        } else if addr == 0xFF02 {
            self.serial_ctrl_write(val);
        } else if 0xFF04 <= addr && addr <= 0xFF07 {
            self.timer.write(addr, val, &mut self.ints);
        } else if addr == 0xFF0F {
            self.ints.request = val & 0x1F;
        } else if 0xFF10 <= addr && addr <= 0xFF3F {
            self.apu.write(addr, val);
        } else if addr == 0xFF46 {
            self.start_dma(val);
        } else if addr == 0xFF4D {
            self.key1 = (self.key1 & 0x80) | (val & 0x01);
        } else if (0xFF40 <= addr && addr <= 0xFF4B) || addr == 0xFF4F || (0xFF68 <= addr && addr <= 0xFF6B) {
            self.ppu_write(addr, val);
        } else if addr == 0xFF51 {
            self.hdma_src = (self.hdma_src & 0x00FF) | ((val as u16) << 8u16);
        } else if addr == 0xFF52 {
            self.hdma_src = (self.hdma_src & 0xFF00) | ((val as u16) & 0xF0);
        } else if addr == 0xFF53 {
            self.hdma_dst = (self.hdma_dst & 0x00FF) | (((val as u16) & 0x1F) << 8u16);
        } else if addr == 0xFF54 {
            self.hdma_dst = (self.hdma_dst & 0xFF00) | ((val as u16) & 0xF0);
        } else if addr == 0xFF55 {
            self.vram_dma(val);
        } else if addr == 0xFF70 {
            self.svbk = val & 0x07;
        } else if 0xFF80 <= addr && addr <= 0xFFFE {
            self.hram.set((addr - 0xFF80) as usize, val);
        } else if addr == 0xFFFF {
            self.ints.enable = val;
        }
    }

    /// A non-clocking write (tooling and DMA).
    pub fn write(&mut self, addr: u16, val: u8)
        requires
            old(self)@.wf(),
        ensures
            final(self)@.wf(),
            final(self)@ == old(self)@.write_spec(addr, val),
    {
        if addr <= 0x7FFF || (0xA000 <= addr && addr <= 0xBFFF) {
            self.cart.write(addr, val);
        } else if addr <= 0x9FFF {
            self.ppu_write(addr, val);
        } else if addr <= 0xFDFF {
            let i = self.wram_index(addr);
            self.wram.set(i, val);
        } else if addr <= 0xFE9F {
            self.ppu_write(addr, val);
        } else if addr <= 0xFEFF {
        } else {
            self.io_write(addr, val);
        }
    }
    /// A bus wired to `cart`, with every peripheral in its post-boot state.
    pub fn new(cart: Cartridge) -> (r: Bus)
        requires
            cart.wf(),
        ensures
            r@.wf(),
            r@ == BusView::power_on(cart@),
    {
        let cgb = cart.read(0x0143) & 0x80 != 0;
        let mut ppu = Ppu::default();
        ppu.set_cgb(cgb);
        let r = Bus {
            cart,
            ppu,
            apu: Apu::default(),
            timer: Timer::default(),
            joypad: Joypad::default(),
            ints: Interrupts { enable: 0, request: 0 },
            wram: vec![0u8; 0x8000],
            hram: vec![0u8; 0x7F],
            serial_data: 0,
            serial_ctrl: 0,
            serial_out: Vec::new(),
            dma_src: 0,
            dma_countdown: 0,
            cgb,
            svbk: 1,
            key1: 0,
            hdma_src: 0,
            hdma_dst: 0,
            hdma_active: false,
            hdma_blocks: 0,
            double_speed: false,
            elapsed: 0,
        };
        assert(r@.wram =~= Seq::new(0x8000, |i: int| 0u8));
        assert(r@.hram =~= Seq::new(0x7F, |i: int| 0u8));
        r
    }

    /// Advance the whole machine by one CPU M-cycle.
    pub fn advance_m(&mut self)
        requires
            old(self)@.wf(),
        ensures
            final(self)@.wf(),
            final(self)@ == old(self)@.advance_spec(),
    {
        reveal(BusView::advance_spec);
        let base: u32 = if self.double_speed {
            2
        } else {
            4
        };
        self.timer.tick(4, &mut self.ints);
        self.ppu.tick(base, &mut self.ints);
        self.apu.tick(base);
        self.dma_countdown = self.dma_countdown.saturating_sub(4);
        // Wraps only after some 139,000 years of emulated time.
        self.elapsed = self.elapsed.wrapping_add(4);
        if self.hdma_active && self.ppu.take_entered_hblank() {
            self.hdma_copy(1);
            self.hdma_blocks = self.hdma_blocks - 1;
            if self.hdma_blocks == 0 {
                self.hdma_active = false;
            }
        }
    }

    /// Whether every part of the machine state is consistent.
    pub fn is_valid(&self) -> (r: bool)
        ensures
            r == self@.wf(),
    {
        self.cart.is_valid() && self.ppu.is_valid() && self.apu.is_valid() && self.wram.len() == 0x8000
            && self.hram.len() == 0x7F && (!self.hdma_active || (1 <= self.hdma_blocks && self.hdma_blocks <= 0x80))
    }

    /// Exchange the ROM, the undrained samples and the serial capture with
    /// `other`.
    pub fn exchange_kept(&mut self, other: &mut Bus)
        ensures
            final(self)@ == old(self)@.with_kept(old(other)@),
            final(other)@ == old(other)@.with_kept(old(self)@),
    {
        std::mem::swap(&mut self.cart.rom, &mut other.cart.rom);
        std::mem::swap(&mut self.apu.samples, &mut other.apu.samples);
        std::mem::swap(&mut self.serial_out, &mut other.serial_out);
    }

    /// Whether an OAM DMA transfer is still running.
    pub fn dma_active(&self) -> (r: bool)
        ensures
            r == (self.dma_countdown > 0),
    {
        self.dma_countdown > 0
    }

    /// Advance all peripherals by `cycles` T-cycles.
    pub fn tick(&mut self, cycles: u32)
        requires
            old(self)@.wf(),
        ensures
            final(self)@.wf(),
            final(self)@ == old(self)@.tick_spec(cycles),
    {
        self.timer.tick(cycles, &mut self.ints);
        self.ppu.tick(cycles, &mut self.ints);
        self.apu.tick(cycles);
        self.dma_countdown = self.dma_countdown.saturating_sub(cycles as u16);
    }

    fn stop_switch(&mut self)
        requires
            old(self)@.wf(),
        ensures
            final(self)@.wf(),
            final(self)@ == old(self)@.stop_spec(),
    {
        // STOP performs a CGB speed switch only when KEY1 is armed.
        if self.key1 & 0x01 != 0 {
            self.double_speed = !self.double_speed;
            self.key1 = self.key1 & !0x01u8;
        }
    }
}

/// The CPU's clocked view of the bus: each access first advances the
/// machine one M-cycle; the inherent `read`/`write` stay non-clocking.
impl CpuBus<BusView> for Bus {
    open spec fn bus_inv(&self) -> bool {
        self@.wf()
    }

    open spec fn model(&self) -> BusView {
        self@
    }

    open spec fn peek_model(s: BusView, addr: u16) -> u8 {
        s.read_spec(addr)
    }

    open spec fn tick_model(s: BusView) -> BusView {
        s.advance_spec()
    }

    open spec fn poke_model(s: BusView, addr: u16, val: u8) -> BusView {
        s.write_spec(addr, val)
    }

    open spec fn stop_model(s: BusView) -> BusView {
        s.stop_spec()
    }

    open spec fn elapsed_model(s: BusView) -> u64 {
        s.elapsed
    }

    fn read(&mut self, addr: u16) -> (r: u8) {
        self.advance_m();
        Bus::read(self, addr)
    }

    fn write(&mut self, addr: u16, val: u8) {
        self.advance_m();
        Bus::write(self, addr, val);
    }

    fn idle(&mut self) {
        self.advance_m();
    }

    fn peek(&self, addr: u16) -> (r: u8) {
        Bus::read(self, addr)
    }

    fn poke(&mut self, addr: u16, val: u8) {
        Bus::write(self, addr, val);
    }

    fn elapsed(&self) -> (r: u64) {
        self.elapsed
    }

    fn stop(&mut self) {
        self.stop_switch();
    }
}

} // verus!
