//! Pixel processing unit: scanline renderer with mode timing, STAT
//! interrupts, background, window and sprites.
//!
//! The framebuffer stores one shade index (0..=3, 0 = lightest) per pixel;
//! colour mapping is left to the frontend.
use vstd::prelude::*;
use crate::interrupts::{Interrupts, INT_STAT, INT_VBLANK};
use crate::cpu::alu::sext;

verus! {

pub const SCREEN_W: usize = 160;
pub const SCREEN_H: usize = 144;

// LCDC bits
pub const LCDC_ENABLE: u8 = 0x80;
pub const LCDC_WIN_MAP: u8 = 0x40;
pub const LCDC_WIN_ENABLE: u8 = 0x20;
pub const LCDC_TILE_DATA: u8 = 0x10;
pub const LCDC_BG_MAP: u8 = 0x08;
pub const LCDC_OBJ_SIZE: u8 = 0x04;
pub const LCDC_OBJ_ENABLE: u8 = 0x02;
pub const LCDC_BG_ENABLE: u8 = 0x01;

// STAT bits
pub const STAT_LYC_INT: u8 = 0x40;
pub const STAT_OAM_INT: u8 = 0x20;
pub const STAT_VBLANK_INT: u8 = 0x10;
pub const STAT_HBLANK_INT: u8 = 0x08;
pub const STAT_LYC_EQ: u8 = 0x04;

#[derive(Debug, Clone, Copy, PartialEq, Eq, Structural)]
pub enum Mode {
    HBlank,
    VBlank,
    OamScan,
    Drawing,
}

/// The STAT mode bits of a mode.
pub open spec fn mode_bits(m: Mode) -> u8 {
    match m {
        Mode::HBlank => 0,
        Mode::VBlank => 1,
        Mode::OamScan => 2,
        Mode::Drawing => 3,
    }
}

/// The STAT interrupt-enable bit that entering `m` checks (none for
/// Drawing).
pub open spec fn mode_int_bit(m: Mode) -> u8 {
    match m {
        Mode::HBlank => STAT_HBLANK_INT,
        Mode::VBlank => STAT_VBLANK_INT,
        Mode::OamScan => STAT_OAM_INT,
        Mode::Drawing => 0,
    }
}

impl Mode {
    /// The STAT mode bits (0 HBlank, 1 VBlank, 2 OAM scan, 3 drawing).
    pub fn bits(self) -> (r: u8)
        ensures
            r == mode_bits(self),
    {
        match self {
            Mode::HBlank => 0,
            Mode::VBlank => 1,
            Mode::OamScan => 2,
            Mode::Drawing => 3,
        }
    }
}

pub struct Ppu {
    pub vram: Vec<u8>,
    pub oam: Vec<u8>,
    pub lcdc: u8,
    pub stat: u8,
    pub scy: u8,
    pub scx: u8,
    pub ly: u8,
    pub lyc: u8,
    pub bgp: u8,
    pub obp0: u8,
    pub obp1: u8,
    pub wy: u8,
    pub wx: u8,
    pub mode: Mode,
    /// Dot (T-cycle) within the current line.
    pub dot: u32,
    /// Line of the window to draw next.
    pub window_line: u8,
    /// Shade indices 0..=3 per pixel, row-major.
    pub framebuffer: Vec<u8>,
    /// Set when a full frame has just been completed; the caller clears it.
    pub frame_ready: bool,
    /// Set when an HBlank of a visible line begins; taken by the bus to pace
    /// HBlank VRAM DMA.
    pub entered_hblank: bool,
    /// Running a CGB cartridge.
    pub cgb: bool,
}

pub ghost struct PpuView {
    pub vram: Seq<u8>,
    pub oam: Seq<u8>,
    pub lcdc: u8,
    pub stat: u8,
    pub scy: u8,
    pub scx: u8,
    pub ly: u8,
    pub lyc: u8,
    pub bgp: u8,
    pub obp0: u8,
    pub obp1: u8,
    pub wy: u8,
    pub wx: u8,
    pub mode: Mode,
    pub dot: u32,
    pub window_line: u8,
    pub framebuffer: Seq<u8>,
    pub frame_ready: bool,
    pub entered_hblank: bool,
    pub cgb: bool,
}

impl View for Ppu {
    type V = PpuView;

    open spec fn view(&self) -> PpuView {
        PpuView {
            vram: self.vram@,
            oam: self.oam@,
            lcdc: self.lcdc,
            stat: self.stat,
            scy: self.scy,
            scx: self.scx,
            ly: self.ly,
            lyc: self.lyc,
            bgp: self.bgp,
            obp0: self.obp0,
            obp1: self.obp1,
            wy: self.wy,
            wx: self.wx,
            mode: self.mode,
            dot: self.dot,
            window_line: self.window_line,
            framebuffer: self.framebuffer@,
            frame_ready: self.frame_ready,
            entered_hblank: self.entered_hblank,
            cgb: self.cgb,
        }
    }
}

/// The 2-bit colour index of pixel `bit` (7 = leftmost) of a tile row.
pub open spec fn pixel_index(lo: u8, hi: u8, bit: u8) -> u8 {
    (((hi >> bit) & 1) * 2 + ((lo >> bit) & 1)) as u8
}

/// A colour index mapped through a palette register.
pub open spec fn shade(palette: u8, idx: u8) -> u8 {
    (palette >> ((idx * 2) as u8)) & 3
}

/// Sets `row` of the framebuffer to `line`.
pub open spec fn with_row(fb: Seq<u8>, row: int, line: Seq<u8>) -> Seq<u8> {
    Seq::new(
        fb.len(),
        |i: int|
            if row * 160 <= i < row * 160 + 160 {
                line[i - row * 160]
            } else {
                fb[i]
            },
    )
}

impl PpuView {
    /// The post-boot state: LCD on, memories zeroed.
    pub open spec fn power_on() -> PpuView {
        PpuView {
            vram: Seq::new(0x2000, |i: int| 0u8),
            oam: Seq::new(0xA0, |i: int| 0u8),
            lcdc: 0x91,
            stat: 0x04,
            scy: 0,
            scx: 0,
            ly: 0,
            lyc: 0,
            bgp: 0xFC,
            obp0: 0xFF,
            obp1: 0xFF,
            wy: 0,
            wx: 0,
            mode: Mode::OamScan,
            dot: 0,
            window_line: 0,
            framebuffer: Seq::new(160 * 144, |i: int| 0u8),
            frame_ready: false,
            entered_hblank: false,
            cgb: false,
        }
    }

    /// The memories have their hardware sizes.
    pub open spec fn sized(self) -> bool {
        &&& self.vram.len() == 0x2000
        &&& self.oam.len() == 0xA0
        &&& self.framebuffer.len() == 160 * 144
    }

    pub open spec fn wf(self) -> bool {
        &&& self.sized()
        &&& self.dot < 456
        &&& (self.mode == Mode::OamScan ==> self.dot < 80)
        &&& (self.mode == Mode::Drawing ==> self.dot < 252)
        &&& (self.lcdc & LCDC_ENABLE == 0 ==> self.dot == 0 && self.ly == 0)
        &&& self.ly <= 153
        &&& (self.mode != Mode::VBlank ==> self.ly < 144)
    }

    pub open spec fn read_spec(self, addr: u16) -> u8 {
        if 0x8000 <= addr <= 0x9FFF {
            self.vram[addr - 0x8000]
        } else if 0xFE00 <= addr <= 0xFE9F {
            self.oam[addr - 0xFE00]
        } else if addr == 0xFF40 {
            self.lcdc
        } else if addr == 0xFF41 {
            // Bits 3-6 are the stored interrupt enables, bit 2 the LYC flag;
            // the mode bits always come live from the PPU.
            0x80u8 | (self.stat & 0x7C) | mode_bits(self.mode)
        } else if addr == 0xFF42 {
            self.scy
        } else if addr == 0xFF43 {
            self.scx
        } else if addr == 0xFF44 {
            self.ly
        } else if addr == 0xFF45 {
            self.lyc
        } else if addr == 0xFF47 {
            self.bgp
        } else if addr == 0xFF48 {
            self.obp0
        } else if addr == 0xFF49 {
            self.obp1
        } else if addr == 0xFF4A {
            self.wy
        } else if addr == 0xFF4B {
            self.wx
        } else {
            0xFF
        }
    }

    /// LY == LYC comparison: updates the STAT flag, requesting the STAT
    /// interrupt on a rising match when enabled.
    pub open spec fn check_lyc_spec(self, ints: Interrupts) -> (PpuView, Interrupts) {
        if self.ly == self.lyc {
            let was = self.stat & STAT_LYC_EQ != 0;
            let stat = self.stat | STAT_LYC_EQ;
            (
                PpuView { stat, ..self },
                if !was && stat & STAT_LYC_INT != 0 {
                    Interrupts { request: ints.request | INT_STAT, ..ints }
                } else {
                    ints
                },
            )
        } else {
            (PpuView { stat: self.stat & !STAT_LYC_EQ, ..self }, ints)
        }
    }

    /// Entering `m` requests the STAT interrupt when its enable bit is set.
    pub open spec fn set_mode_spec(self, m: Mode, ints: Interrupts) -> (PpuView, Interrupts) {
        if self.mode == m {
            (self, ints)
        } else {
            (
                PpuView { mode: m, ..self },
                if mode_int_bit(m) != 0 && self.stat & mode_int_bit(m) != 0 {
                    Interrupts { request: ints.request | INT_STAT, ..ints }
                } else {
                    ints
                },
            )
        }
    }

    pub open spec fn write_spec(self, addr: u16, val: u8, ints: Interrupts) -> (PpuView, Interrupts) {
        if 0x8000 <= addr <= 0x9FFF {
            (PpuView { vram: self.vram.update(addr - 0x8000, val), ..self }, ints)
        } else if 0xFE00 <= addr <= 0xFE9F {
            (PpuView { oam: self.oam.update(addr - 0xFE00, val), ..self }, ints)
        } else if addr == 0xFF40 {
            let was_on = self.lcdc & LCDC_ENABLE != 0;
            let now_on = val & LCDC_ENABLE != 0;
            let v = PpuView { lcdc: val, ..self };
            if was_on && !now_on {
                (PpuView { ly: 0, dot: 0, mode: Mode::HBlank, window_line: 0, ..v }, ints)
            } else if !was_on && now_on {
                PpuView { mode: Mode::OamScan, ..v }.check_lyc_spec(ints)
            } else {
                (v, ints)
            }
        } else if addr == 0xFF41 {
            (PpuView { stat: (val & 0x78) | (self.stat & 0x04), ..self }, ints)
        } else if addr == 0xFF42 {
            (PpuView { scy: val, ..self }, ints)
        } else if addr == 0xFF43 {
            (PpuView { scx: val, ..self }, ints)
        } else if addr == 0xFF45 {
            PpuView { lyc: val, ..self }.check_lyc_spec(ints)
        } else if addr == 0xFF47 {
            (PpuView { bgp: val, ..self }, ints)
        } else if addr == 0xFF48 {
            (PpuView { obp0: val, ..self }, ints)
        } else if addr == 0xFF49 {
            (PpuView { obp1: val, ..self }, ints)
        } else if addr == 0xFF4A {
            (PpuView { wy: val, ..self }, ints)
        } else if addr == 0xFF4B {
            (PpuView { wx: val, ..self }, ints)
        } else {
            (self, ints)
        }
    }

    // ---- rendering ----

    /// VRAM offset of row `row` of tile `tile` (signed addressing is based
    /// at 0x9000).
    pub open spec fn tile_base(tile: u8, signed: bool) -> int {
        if signed {
            0x1000 + sext(tile) * 16
        } else {
            tile as int * 16
        }
    }

    /// Colour index of a tile-map pixel: map at `map_base`, map coordinates
    /// (`mx`, `my`) in 0..256.
    pub open spec fn map_pixel(self, map_base: int, mx: int, my: int) -> u8 {
        let tile = self.vram[map_base + (my / 8) * 32 + mx / 8];
        let base = Self::tile_base(tile, self.lcdc & LCDC_TILE_DATA == 0) + (my % 8) * 2;
        pixel_index(self.vram[base], self.vram[base + 1], (7 - mx % 8) as u8)
    }

    /// Whether the window covers part of the current line.
    pub open spec fn window_on(self) -> bool {
        self.lcdc & LCDC_WIN_ENABLE != 0 && self.wy <= self.ly && self.wx < 167
    }

    /// First screen column of the window.
    pub open spec fn window_x0(self) -> int {
        if self.wx >= 7 {
            self.wx - 7
        } else {
            0
        }
    }

    /// The raw (pre-palette) background/window colour index at column `x`.
    pub open spec fn bg_index(self, x: int) -> u8 {
        if self.lcdc & LCDC_BG_ENABLE == 0 {
            0
        } else if self.window_on() && x >= self.window_x0() {
            let map = if self.lcdc & LCDC_WIN_MAP != 0 {
                0x1C00
            } else {
                0x1800
            };
            self.map_pixel(map, x + 7 - self.wx, self.window_line as int)
        } else {
            let map = if self.lcdc & LCDC_BG_MAP != 0 {
                0x1C00
            } else {
                0x1800
            };
            self.map_pixel(map, (x + self.scx) % 256, (self.ly + self.scy) % 256)
        }
    }

    pub open spec fn sprite_height(self) -> int {
        if self.lcdc & LCDC_OBJ_SIZE != 0 {
            16
        } else {
            8
        }
    }

    /// Whether OAM entry `i` covers the current line.
    pub open spec fn on_line(self, i: int) -> bool {
        let sy = self.oam[4 * i] - 16;
        sy <= self.ly < sy + self.sprite_height()
    }

    /// The sprites drawn on the current line: up to 10, the first in OAM
    /// order among entries `0..n` that cover the line.
    pub open spec fn selected(self, n: int) -> Seq<int>
        decreases n,
    {
        if n <= 0 {
            Seq::empty()
        } else {
            let s = self.selected(n - 1);
            if s.len() < 10 && self.on_line(n - 1) {
                s.push(n - 1)
            } else {
                s
            }
        }
    }

    /// The colour index that sprite `i` puts at column `x` (0 where it is
    /// transparent or does not cover `x`).
    pub open spec fn sprite_index(self, i: int, x: int) -> u8 {
        let sx = self.oam[4 * i + 1] - 8;
        if !(sx <= x < sx + 8) {
            0
        } else {
            let sy = self.oam[4 * i] - 16;
            let attr = self.oam[4 * i + 3];
            let h = self.sprite_height();
            let row0 = self.ly - sy;
            let row1 = if attr & 0x40 != 0 {
                h - 1 - row0
            } else {
                row0
            };
            let t0 = self.oam[4 * i + 2];
            let tile = if h == 16 {
                if row1 >= 8 {
                    (t0 & 0xFE) | 1
                } else {
                    t0 & 0xFE
                }
            } else {
                t0
            };
            let row = if h == 16 && row1 >= 8 {
                row1 - 8
            } else {
                row1
            };
            let base = tile as int * 16 + row * 2;
            let px = x - sx;
            let bit = if attr & 0x20 != 0 {
                px
            } else {
                7 - px
            };
            pixel_index(self.vram[base], self.vram[base + 1], bit as u8)
        }
    }

    /// Whether sprite `i` shows at column `x`: opaque there, and not behind
    /// a non-zero background when its priority bit is set.
    pub open spec fn sprite_shows(self, i: int, x: int) -> bool {
        self.sprite_index(i, x) != 0 && !(self.oam[4 * i + 3] & 0x80 != 0 && self.bg_index(x) != 0)
    }

    /// Among the first `k` selected sprites, the one showing at `x` with the
    /// lowest X coordinate, earliest in OAM on ties (DMG priority).
    pub open spec fn winner(self, sel: Seq<int>, k: int, x: int) -> Option<int>
        decreases k,
    {
        if k <= 0 {
            None
        } else {
            let prev = self.winner(sel, k - 1, x);
            let i = sel[k - 1];
            if self.sprite_shows(i, x) && (prev is None || self.oam[4 * i + 1] < self.oam[4
                * prev->Some_0 + 1]) {
                Some(i)
            } else {
                prev
            }
        }
    }

    /// The shade of column `x` of the current line.
    pub open spec fn line_pixel(self, x: int) -> u8 {
        let bg = shade(self.bgp, self.bg_index(x));
        if self.lcdc & LCDC_OBJ_ENABLE == 0 {
            bg
        } else {
            let sel = self.selected(40);
            match self.winner(sel, sel.len() as int, x) {
                Some(i) => shade(
                    if self.oam[4 * i + 3] & 0x10 != 0 {
                        self.obp1
                    } else {
                        self.obp0
                    },
                    self.sprite_index(i, x),
                ),
                None => bg,
            }
        }
    }

    pub open spec fn line_spec(self) -> Seq<u8> {
        Seq::new(160, |x: int| self.line_pixel(x))
    }

    /// Rendering the current line into the framebuffer (visible lines only);
    /// a line that shows the window advances the window's line counter.
    pub open spec fn render_spec(self) -> PpuView {
        if self.ly >= 144 {
            self
        } else {
            PpuView {
                framebuffer: with_row(self.framebuffer, self.ly as int, self.line_spec()),
                window_line: if self.lcdc & LCDC_BG_ENABLE != 0 && self.window_on()
                    && self.window_x0() < 160 {
                    ((self.window_line + 1) % 256) as u8
                } else {
                    self.window_line
                },
                ..self
            }
        }
    }

    // ---- timing ----

    /// One dot of an enabled LCD.
    pub open spec fn step_spec(self, ints: Interrupts) -> (PpuView, Interrupts) {
        let v = PpuView { dot: (self.dot + 1) as u32, ..self };
        match self.mode {
            Mode::OamScan => {
                if v.dot >= 80 {
                    v.set_mode_spec(Mode::Drawing, ints)
                } else {
                    (v, ints)
                }
            },
            Mode::Drawing => {
                if v.dot >= 80 + 172 {
                    let r = v.render_spec();
                    let (r2, i2) = r.set_mode_spec(Mode::HBlank, ints);
                    (PpuView { entered_hblank: r2.entered_hblank || r2.ly < 144, ..r2 }, i2)
                } else {
                    (v, ints)
                }
            },
            Mode::HBlank => {
                if v.dot >= 456 {
                    let v1 = PpuView { dot: 0, ly: (v.ly + 1) as u8, ..v };
                    let (v2, i2) = v1.check_lyc_spec(ints);
                    if v2.ly == 144 {
                        let (v3, i3) = v2.set_mode_spec(Mode::VBlank, i2);
                        (
                            PpuView { frame_ready: true, ..v3 },
                            Interrupts { request: i3.request | INT_VBLANK, ..i3 },
                        )
                    } else {
                        v2.set_mode_spec(Mode::OamScan, i2)
                    }
                } else {
                    (v, ints)
                }
            },
            Mode::VBlank => {
                if v.dot >= 456 {
                    let v1 = PpuView { dot: 0, ly: (v.ly + 1) as u8, ..v };
                    let (v2, i2) = if v1.ly > 153 {
                        PpuView { ly: 0, window_line: 0, ..v1 }.set_mode_spec(Mode::OamScan, ints)
                    } else {
                        (v1, ints)
                    };
                    v2.check_lyc_spec(i2)
                } else {
                    (v, ints)
                }
            },
        }
    }

    pub open spec fn dots_spec(self, ints: Interrupts, n: nat) -> (PpuView, Interrupts)
        decreases n,
    {
        if n == 0 {
            (self, ints)
        } else {
            let (v1, i1) = self.step_spec(ints);
            v1.dots_spec(i1, (n - 1) as nat)
        }
    }

    /// `n` dots: nothing happens while the LCD is off.
    pub open spec fn tick_spec(self, ints: Interrupts, n: nat) -> (PpuView, Interrupts) {
        if self.lcdc & LCDC_ENABLE == 0 {
            (self, ints)
        } else {
            self.dots_spec(ints, n)
        }
    }
}

/// Horizontal flip of a sprite: toggling bit 5 of its attribute byte
/// mirrors its 8 columns, the colour index at column `x` moving to column
/// `2 * sx + 7 - x`. For an 8x8 sprite without vertical flip, column `x`
/// shows pixel `x - sx` of the tile's row `LY - sy` counted from the left
/// (tile bit `7 - (x - sx)`, bit 7 being the leftmost pixel), and with the
/// flip set the pixel counted from the right (tile bit `x - sx`).
pub proof fn lemma_sprite_x_flip(v: PpuView, i: int, x: int)
    requires
        v.sized(),
        0 <= i < 40,
        v.oam[4 * i + 1] - 8 <= x < v.oam[4 * i + 1],
    ensures
        ({
            let sx = v.oam[4 * i + 1] - 8;
            let attr = v.oam[4 * i + 3];
            let flipped = PpuView { oam: v.oam.update(4 * i + 3, attr ^ 0x20u8), ..v };
            &&& flipped.sprite_index(i, 2 * sx + 7 - x) == v.sprite_index(i, x)
            &&& (v.sprite_height() == 8 && attr & 0x40 == 0) ==> {
                let base = v.oam[4 * i + 2] * 16 + (v.ly - (v.oam[4 * i] - 16)) * 2;
                let bit = if attr & 0x20 != 0 { x - sx } else { 7 - (x - sx) };
                v.sprite_index(i, x) == pixel_index(v.vram[base], v.vram[base + 1], bit as u8)
            }
        }),
{
    let attr = v.oam[4 * i + 3];
    let a2 = attr ^ 0x20u8;
    assert(((a2 & 0x20 != 0) == (attr & 0x20 == 0)) && ((a2 & 0x40 != 0) == (attr & 0x40 != 0)))
        by (bit_vector)
        requires
            a2 == attr ^ 0x20u8,
    ;
    let flipped = PpuView { oam: v.oam.update(4 * i + 3, a2), ..v };
    assert(flipped.oam[4 * i + 3] == a2);
    assert(flipped.oam[4 * i] == v.oam[4 * i]);
    assert(flipped.oam[4 * i + 1] == v.oam[4 * i + 1]);
    assert(flipped.oam[4 * i + 2] == v.oam[4 * i + 2]);
}

/// Vertical flip of a sprite: toggling bit 6 of its attribute byte
/// mirrors its rows (8 or 16 with the tall-sprite setting), so that the
/// sprite shows on line `2 * sy + h - 1 - LY` what it showed on line `LY`.
pub proof fn lemma_sprite_y_flip(v: PpuView, i: int, x: int)
    requires
        v.sized(),
        0 <= i < 40,
        v.on_line(i),
        0 <= 2 * (v.oam[4 * i] - 16) + v.sprite_height() - 1 - v.ly < 256,
    ensures
        ({
            let sy = v.oam[4 * i] - 16;
            let attr = v.oam[4 * i + 3];
            let mirrored = PpuView {
                oam: v.oam.update(4 * i + 3, attr ^ 0x40u8),
                ly: (2 * sy + v.sprite_height() - 1 - v.ly) as u8,
                ..v
            };
            mirrored.sprite_index(i, x) == v.sprite_index(i, x)
        }),
{
    let attr = v.oam[4 * i + 3];
    let a2 = attr ^ 0x40u8;
    assert(((a2 & 0x40 != 0) == (attr & 0x40 == 0)) && ((a2 & 0x20 != 0) == (attr & 0x20 != 0)))
        by (bit_vector)
        requires
            a2 == attr ^ 0x40u8,
    ;
    let sy = v.oam[4 * i] - 16;
    let m = PpuView {
        oam: v.oam.update(4 * i + 3, a2),
        ly: (2 * sy + v.sprite_height() - 1 - v.ly) as u8,
        ..v
    };
    assert(m.oam[4 * i + 3] == a2);
    assert(m.oam[4 * i] == v.oam[4 * i]);
    assert(m.oam[4 * i + 1] == v.oam[4 * i + 1]);
    assert(m.oam[4 * i + 2] == v.oam[4 * i + 2]);
}

/// A palette register holds four 2-bit shades, colour index 0 in its
/// lowest two bits and index 3 in its highest.
pub proof fn lemma_shade(palette: u8)
    ensures
        shade(palette, 0) == palette % 4,
        shade(palette, 1) == (palette / 4) % 4,
        shade(palette, 2) == (palette / 16) % 4,
        shade(palette, 3) == palette / 64,
{
    assert((palette >> 0u8) & 3 == palette % 4 && (palette >> 2u8) & 3 == (palette / 4) % 4 && (
    palette >> 4u8) & 3 == (palette / 16) % 4 && (palette >> 6u8) & 3 == palette / 64)
        by (bit_vector);
}

/// Bounds of a pixel's colour index.
pub proof fn lemma_pixel_index(lo: u8, hi: u8, bit: u8)
    ensures
        (hi >> bit) & 1 <= 1,
        (lo >> bit) & 1 <= 1,
        pixel_index(lo, hi, bit) < 4,
{
    assert((hi >> bit) & 1 <= 1 && (lo >> bit) & 1 <= 1) by (bit_vector);
}

/// One dot of an enabled LCD keeps the PPU state well formed and the LCD on.
pub proof fn lemma_step_wf(v: PpuView, ints: Interrupts)
    requires
        v.wf(),
        v.lcdc & LCDC_ENABLE != 0,
    ensures
        v.step_spec(ints).0.wf(),
        v.step_spec(ints).0.lcdc == v.lcdc,
{
}

/// With the LCD on, every dot advances the dot counter; a line lasts 456
/// dots, after which LY moves to the next of the 154 lines (0..=153,
/// wrapping to 0 after the last VBlank line).
pub proof fn lemma_line_timing(v: PpuView, ints: Interrupts)
    requires
        v.wf(),
        v.lcdc & LCDC_ENABLE != 0,
    ensures
        v.step_spec(ints).0.dot == (v.dot + 1) % 456,
        v.step_spec(ints).0.ly == if v.dot + 1 == 456 {
            (v.ly + 1) % 154
        } else {
            v.ly as int
        },
{
}

/// Background-only rendering (LCD on, background on, window and sprites
/// off): rendering line LY sets each of its 160 pixels to the background
/// tile-map pixel under the scroll, through BGP, always a shade 0..=3; every
/// other row of the frame is unchanged.
pub proof fn lemma_render_background_only(v: PpuView, x: int, i: int)
    requires
        v.sized(),
        v.ly < 144,
        v.lcdc & LCDC_BG_ENABLE != 0,
        v.lcdc & LCDC_WIN_ENABLE == 0,
        v.lcdc & LCDC_OBJ_ENABLE == 0,
        0 <= x < 160,
        0 <= i < 160 * 144,
    ensures
        ({
            let map = if v.lcdc & LCDC_BG_MAP != 0 { 0x1C00int } else { 0x1800int };
            let fb = v.render_spec().framebuffer;
            &&& fb[v.ly * 160 + x] == shade(
                v.bgp,
                v.map_pixel(map, (x + v.scx) % 256, (v.ly + v.scy) % 256),
            )
            &&& fb[v.ly * 160 + x] <= 3
            &&& (!(v.ly * 160 <= i < v.ly * 160 + 160) ==> fb[i] == v.framebuffer[i])
        }),
{
    let p = v.bgp;
    let idx = v.bg_index(x);
    assert((p >> ((idx * 2) as u8)) & 3 <= 3) by (bit_vector);
    assert(v.ly * 160 + x < 160 * 144);
}

impl Default for Ppu {
    fn default() -> (r: Ppu)
        ensures
            r@.wf(),
            r@ == PpuView::power_on(),
    {
        let r = Ppu {
            vram: vec![0u8; 0x2000],
            oam: vec![0u8; 0xA0],
            lcdc: 0x91,
            stat: 0x04,  // LY==LYC at boot; mode bits are never stored
            scy: 0,
            scx: 0,
            ly: 0,
            lyc: 0,
            bgp: 0xFC,
            obp0: 0xFF,
            obp1: 0xFF,
            wy: 0,
            wx: 0,
            mode: Mode::OamScan,
            dot: 0,
            window_line: 0,
            framebuffer: vec![0u8; 160 * 144],
            frame_ready: false,
            entered_hblank: false,
            cgb: false,
        };
        assert(r@.vram =~= Seq::new(0x2000, |i: int| 0u8));
        assert(r@.oam =~= Seq::new(0xA0, |i: int| 0u8));
        assert(r@.framebuffer =~= Seq::new(160 * 144, |i: int| 0u8));
        r
    }
}

impl Ppu {
    pub fn mode(&self) -> (r: Mode)
        ensures
            r == self.mode,
    {
        self.mode
    }

    pub fn set_cgb(&mut self, cgb: bool)
        ensures
            final(self)@ == (PpuView { cgb, ..old(self)@ }),
    {
        self.cgb = cgb;
    }

    /// Whether a visible-line HBlank began since the last call; clears it.
    pub fn take_entered_hblank(&mut self) -> (r: bool)
        ensures
            r == old(self).entered_hblank,
            final(self)@ == (PpuView { entered_hblank: false, ..old(self)@ }),
    {
        let r = self.entered_hblank;
        self.entered_hblank = false;
        r
    }

    pub fn read(&self, addr: u16) -> (r: u8)
        requires
            self@.wf(),
        ensures
            r == self@.read_spec(addr),
    {
        if 0x8000 <= addr && addr <= 0x9FFF {
            self.vram[(addr - 0x8000) as usize]
        } else if 0xFE00 <= addr && addr <= 0xFE9F {
            self.oam[(addr - 0xFE00) as usize]
        } else if addr == 0xFF40 {
            self.lcdc
        } else if addr == 0xFF41 {
            0x80u8 | (self.stat & 0x7C) | self.mode.bits()
        } else if addr == 0xFF42 {
            self.scy
        } else if addr == 0xFF43 {
            self.scx
        } else if addr == 0xFF44 {
            self.ly
        } else if addr == 0xFF45 {
            self.lyc
        } else if addr == 0xFF47 {
            self.bgp
        } else if addr == 0xFF48 {
            self.obp0
        } else if addr == 0xFF49 {
            self.obp1
        } else if addr == 0xFF4A {
            self.wy
        } else if addr == 0xFF4B {
            self.wx
        } else {
            0xFF
        }
    }

    pub fn write(&mut self, addr: u16, val: u8, ints: &mut Interrupts)
        requires
            old(self)@.wf(),
        ensures
            final(self)@.wf(),
            (final(self)@, *final(ints)) == old(self)@.write_spec(addr, val, *old(ints)),
    {
        if 0x8000 <= addr && addr <= 0x9FFF {
            self.vram.set((addr - 0x8000) as usize, val);
        } else if 0xFE00 <= addr && addr <= 0xFE9F {
            self.oam.set((addr - 0xFE00) as usize, val);
        } else if addr == 0xFF40 {
            let was_on = self.lcdc & LCDC_ENABLE != 0;
            self.lcdc = val;
            let now_on = self.lcdc & LCDC_ENABLE != 0;
            if was_on && !now_on {
                self.ly = 0;
                self.dot = 0;
                self.mode = Mode::HBlank;
                self.window_line = 0;
            } else if !was_on && now_on {
                self.mode = Mode::OamScan;
                self.check_lyc(ints);
            }
        } else if addr == 0xFF41 {
            self.stat = (val & 0x78) | (self.stat & 0x04);
        } else if addr == 0xFF42 {
            self.scy = val;
        } else if addr == 0xFF43 {
            self.scx = val;
        } else if addr == 0xFF45 {
            self.lyc = val;
            self.check_lyc(ints);
        } else if addr == 0xFF47 {
            self.bgp = val;
        } else if addr == 0xFF48 {
            self.obp0 = val;
        } else if addr == 0xFF49 {
            self.obp1 = val;
        } else if addr == 0xFF4A {
            self.wy = val;
        } else if addr == 0xFF4B {
            self.wx = val;
        }
    }

    fn check_lyc(&mut self, ints: &mut Interrupts)
        ensures
            (final(self)@, *final(ints)) == old(self)@.check_lyc_spec(*old(ints)),
    {
        if self.ly == self.lyc {
            let was = self.stat & STAT_LYC_EQ != 0;
            self.stat = self.stat | STAT_LYC_EQ;
            if !was && self.stat & STAT_LYC_INT != 0 {
                ints.raise(INT_STAT);
            }
        } else {
            self.stat = self.stat & !STAT_LYC_EQ;
        }
    }

    fn set_mode(&mut self, mode: Mode, ints: &mut Interrupts)
        ensures
            (final(self)@, *final(ints)) == old(self)@.set_mode_spec(mode, *old(ints)),
    {
        if self.mode == mode {
            return;
        }
        self.mode = mode;
        let int_bit = match mode {
            Mode::HBlank => STAT_HBLANK_INT,
            Mode::VBlank => STAT_VBLANK_INT,
            Mode::OamScan => STAT_OAM_INT,
            Mode::Drawing => 0,
        };
        if int_bit != 0 && self.stat & int_bit != 0 {
            ints.raise(INT_STAT);
        }
    }

    /// Advance by `cycles` T-cycles (dots).
    pub fn tick(&mut self, cycles: u32, ints: &mut Interrupts)
        requires
            old(self)@.wf(),
        ensures
            final(self)@.wf(),
            (final(self)@, *final(ints)) == old(self)@.tick_spec(*old(ints), cycles as nat),
    {
        if self.lcdc & LCDC_ENABLE == 0 {
            return;
        }
        let mut i: u32 = 0;
        while i < cycles
            invariant
                i <= cycles,
                self@.wf(),
                self.lcdc & LCDC_ENABLE != 0,
                self@.dots_spec(*ints, (cycles - i) as nat) == old(self)@.dots_spec(
                    *old(ints),
                    cycles as nat,
                ),
            decreases cycles - i,
        {
            self.step_dot(ints);
            i = i + 1;
        }
    }

    fn step_dot(&mut self, ints: &mut Interrupts)
        requires
            old(self)@.wf(),
            old(self).lcdc & LCDC_ENABLE != 0,
        ensures
            final(self)@.wf(),
            final(self).lcdc == old(self).lcdc,
            (final(self)@, *final(ints)) == old(self)@.step_spec(*old(ints)),
    {
        proof {
            lemma_step_wf(self@, *ints);
            lemma_selected(self@, 40);
        }
        self.dot = self.dot + 1;
        match self.mode {
            Mode::OamScan => {
                if self.dot >= 80 {
                    self.set_mode(Mode::Drawing, ints);
                }
            },
            Mode::Drawing => {
                if self.dot >= 80 + 172 {
                    self.render_scanline();
                    self.set_mode(Mode::HBlank, ints);
                    self.entered_hblank = self.entered_hblank || self.ly < 144;
                }
            },
            Mode::HBlank => {
                if self.dot >= 456 {
                    self.dot = 0;
                    self.ly = self.ly + 1;
                    self.check_lyc(ints);
                    if self.ly == 144 {
                        self.set_mode(Mode::VBlank, ints);
                        ints.raise(INT_VBLANK);
                        self.frame_ready = true;
                    } else {
                        self.set_mode(Mode::OamScan, ints);
                    }
                }
            },
            Mode::VBlank => {
                if self.dot >= 456 {
                    self.dot = 0;
                    self.ly = self.ly + 1;
                    if self.ly > 153 {
                        self.ly = 0;
                        self.window_line = 0;
                        self.set_mode(Mode::OamScan, ints);
                    }
                    self.check_lyc(ints);
                }
            },
        }
    }

    // ---- rendering ----

    /// The two bytes of row `row` of a tile.
    fn tile_row(&self, tile: u8, row: usize, signed: bool) -> (r: (u8, u8))
        requires
            self@.sized(),
            row < 8,
        ensures
            r.0 == self.vram@[PpuView::tile_base(tile, signed) + row * 2],
            r.1 == self.vram@[PpuView::tile_base(tile, signed) + row * 2 + 1],
    {
        let base: usize = if signed {
            if tile < 128 {
                0x1000 + tile as usize * 16
            } else {
                0x1000 - (256 - tile as usize) * 16
            }
        } else {
            tile as usize * 16
        };
        (self.vram[base + row * 2], self.vram[base + row * 2 + 1])
    }

    fn map_pixel(&self, map_base: usize, mx: usize, my: usize) -> (r: u8)
        requires
            self@.sized(),
            map_base == 0x1800 || map_base == 0x1C00,
            mx < 256,
            my < 256,
        ensures
            r == self@.map_pixel(map_base as int, mx as int, my as int),
            r < 4,
    {
        let tile = self.vram[map_base + (my / 8) * 32 + mx / 8];
        let (lo, hi) = self.tile_row(tile, my % 8, self.lcdc & LCDC_TILE_DATA == 0);
        let bit = (7 - mx % 8) as u8;
        proof {
            lemma_pixel_index(lo, hi, bit);
        }
        ((hi >> bit) & 1) * 2 + ((lo >> bit) & 1)
    }

    fn bg_index(&self, x: usize) -> (r: u8)
        requires
            self@.sized(),
            x < 160,
        ensures
            r == self@.bg_index(x as int),
            r < 4,
    {
        let r = if self.lcdc & LCDC_BG_ENABLE == 0 {
            0
        } else if self.lcdc & LCDC_WIN_ENABLE != 0 && self.wy <= self.ly && self.wx < 167 && x
            >= self.wx.saturating_sub(7) as usize {
            let map: usize = if self.lcdc & LCDC_WIN_MAP != 0 {
                0x1C00
            } else {
                0x1800
            };
            self.map_pixel(map, x + 7 - self.wx as usize, self.window_line as usize)
        } else {
            let map: usize = if self.lcdc & LCDC_BG_MAP != 0 {
                0x1C00
            } else {
                0x1800
            };
            self.map_pixel(map, (x + self.scx as usize) % 256, (self.ly as usize + self.scy as usize) % 256)
        };
        r
    }

    /// The sprites on the current line, at most 10, in OAM order.
    fn select_sprites(&self) -> (r: Vec<usize>)
        requires
            self@.sized(),
        ensures
            r@.len() == self@.selected(40).len(),
            forall|k: int| 0 <= k < r.len() ==> r@[k] as int == self@.selected(40)[k],
    {
        let h: i32 = if self.lcdc & LCDC_OBJ_SIZE != 0 {
            16
        } else {
            8
        };
        let y = self.ly as i32;
        let mut r: Vec<usize> = Vec::new();
        let mut i: usize = 0;
        while i < 40
            invariant
                i <= 40,
                self@.sized(),
                h == self@.sprite_height(),
                y == self.ly,
                r@.len() == self@.selected(i as int).len(),
                forall|k: int| 0 <= k < r.len() ==> r@[k] as int == self@.selected(i as int)[k],
            decreases 40 - i,
        {
            let sy = self.oam[i * 4] as i32 - 16;
            if r.len() < 10 && y >= sy && y < sy + h {
                r.push(i);
            }
            i = i + 1;
        }
        r
    }

    /// The colour index sprite `i` puts at column `x`.
    fn sprite_index(&self, i: usize, x: usize) -> (r: u8)
        requires
            self@.sized(),
            i < 40,
            x < 160,
            self@.on_line(i as int),
        ensures
            r == self@.sprite_index(i as int, x as int),
            r < 4,
    {
        let sx = self.oam[i * 4 + 1] as i32 - 8;
        let xi = x as i32;
        if !(sx <= xi && xi < sx + 8) {
            return 0;
        }
        let sy = self.oam[i * 4] as i32 - 16;
        let attr = self.oam[i * 4 + 3];
        let h: i32 = if self.lcdc & LCDC_OBJ_SIZE != 0 {
            16
        } else {
            8
        };
        let mut row = self.ly as i32 - sy;
        if attr & 0x40 != 0 {
            row = h - 1 - row;
        }
        let mut tile = self.oam[i * 4 + 2];
        if h == 16 {
            tile = tile & 0xFE;
            if row >= 8 {
                tile = tile | 1;
                row = row - 8;
            }
        }
        let (lo, hi) = self.tile_row(tile, row as usize, false);
        let px = xi - sx;
        let bit = if attr & 0x20 != 0 {
            px
        } else {
            7 - px
        } as u8;
        proof {
            lemma_pixel_index(lo, hi, bit);
        }
        ((hi >> bit) & 1) * 2 + ((lo >> bit) & 1)
    }

    /// The shade of column `x`, given the selected sprites.
    fn line_pixel(&self, x: usize, sel: &Vec<usize>) -> (r: u8)
        requires
            self@.sized(),
            x < 160,
            sel@.len() == self@.selected(40).len(),
            forall|k: int| 0 <= k < sel.len() ==> sel@[k] as int == self@.selected(40)[k],
        ensures
            r == self@.line_pixel(x as int),
    {
        proof {
            lemma_selected(self@, 40);
        }
        let bg = self.bg_index(x);
        let bg_shade = (self.bgp >> (bg * 2)) & 3;
        if self.lcdc & LCDC_OBJ_ENABLE == 0 {
            return bg_shade;
        }
        let ghost s = self@.selected(40);
        let mut found = false;
        let mut best: usize = 0;
        let mut k: usize = 0;
        while k < sel.len()
            invariant
                k <= sel.len(),
                self@.sized(),
                x < 160,
                bg == self@.bg_index(x as int),
                s == self@.selected(40),
                sel@.len() == s.len(),
                forall|j: int| 0 <= j < sel.len() ==> sel@[j] as int == s[j],
                forall|j: int| 0 <= j < s.len() ==> 0 <= #[trigger] s[j] < 40 && self@.on_line(s[j]),
                found == self@.winner(s, k as int, x as int) is Some,
                found ==> best as int == self@.winner(s, k as int, x as int)->Some_0,
                found ==> best < 40 && self@.on_line(best as int),
            decreases sel.len() - k,
        {
            let i = sel[k];
            assert(sel@[k as int] as int == s[k as int]);
            assert(0 <= s[k as int] < 40);
            let idx = self.sprite_index(i, x);
            let attr = self.oam[i * 4 + 3];
            let shows = idx != 0 && !(attr & 0x80 != 0 && bg != 0);
            if shows && (!found || self.oam[i * 4 + 1] < self.oam[best * 4 + 1]) {
                found = true;
                best = i;
            }
            k = k + 1;
        }
        if found {
            let attr = self.oam[best * 4 + 3];
            let palette = if attr & 0x10 != 0 {
                self.obp1
            } else {
                self.obp0
            };
            let idx = self.sprite_index(best, x);
            (palette >> (idx * 2)) & 3
        } else {
            bg_shade
        }
    }

    fn render_scanline(&mut self)
        requires
            old(self)@.sized(),
        ensures
            final(self)@ == old(self)@.render_spec(),
    {
        let y = self.ly as usize;
        if y >= 144 {
            return;
        }
        let sel = self.select_sprites();
        let mut line: Vec<u8> = Vec::new();
        let mut x: usize = 0;
        while x < 160
            invariant
                x <= 160,
                self@ == old(self)@,
                self@.sized(),
                sel@.len() == self@.selected(40).len(),
                forall|k: int| 0 <= k < sel.len() ==> sel@[k] as int == self@.selected(40)[k],
                line@ =~= self@.line_spec().subrange(0, x as int),
            decreases 160 - x,
        {
            let p = self.line_pixel(x, &sel);
            line.push(p);
            x = x + 1;
        }
        let ghost fb0 = self.framebuffer@;
        let mut j: usize = 0;
        while j < 160
            invariant
                j <= 160,
                y < 144,
                line@ == old(self)@.line_spec(),
                self.framebuffer@.len() == fb0.len(),
                fb0.len() == 160 * 144,
                forall|i: int|
                    0 <= i < fb0.len() ==> self.framebuffer@[i] == if y * 160 <= i < y * 160 + j {
                        line@[i - y * 160]
                    } else {
                        fb0[i]
                    },
                self@ == (PpuView { framebuffer: self.framebuffer@, ..old(self)@ }),
            decreases 160 - j,
        {
            self.framebuffer.set(y * 160 + j, line[j]);
            j = j + 1;
        }
        assert(self.framebuffer@ =~= with_row(fb0, y as int, line@));
        if self.lcdc & LCDC_BG_ENABLE != 0 && self.lcdc & LCDC_WIN_ENABLE != 0 && self.wy <= self.ly
            && self.wx < 167 && (self.wx.saturating_sub(7) as usize) < 160 {
            self.window_line = self.window_line.wrapping_add(1);
        }
    }
}

/// Every selected sprite is an OAM entry that covers the current line, and
/// at most 10 are selected.
pub proof fn lemma_selected(v: PpuView, n: int)
    requires
        0 <= n <= 40,
    ensures
        v.selected(n).len() <= 10,
        forall|j: int| 0 <= j < v.selected(n).len() ==> 0 <= #[trigger] v.selected(n)[j] < n && v.on_line(v.selected(n)[j]),
    decreases n,
{
    if n > 0 {
        lemma_selected(v, n - 1);
    }
}

impl Ppu {
    /// Whether the state is consistent (a decoded save state may not be).
    pub fn is_valid(&self) -> (r: bool)
        ensures
            r == self@.wf(),
    {
        self.vram.len() == 0x2000 && self.oam.len() == 0xA0 && self.framebuffer.len() == 160 * 144
            && self.dot < 456 && (self.mode != Mode::OamScan || self.dot < 80)
            && (self.mode != Mode::Drawing || self.dot < 252)
            && (self.lcdc & LCDC_ENABLE != 0 || (self.dot == 0 && self.ly == 0)) && self.ly <= 153
            && (self.mode == Mode::VBlank || self.ly < 144)
    }
}

} // verus!
