//! Audio processing unit: 2 pulse channels, wave channel, noise channel.
//!
//! Samples are produced as interleaved stereo pairs of integer mix values:
//! each channel contributes `2 * level - 15` (level 0..=15, 0 when the
//! channel or its DAC is off), the enabled channels of a side are summed and
//! scaled by that side's master volume (1..=8). A mix value `m` corresponds
//! to the amplitude `m / 960` in -0.5..=0.5.
use vstd::prelude::*;
use vstd::arithmetic::power2::{pow2, lemma2_to64, lemma_pow2_strictly_increases};
use vstd::bits::lemma_u32_shl_is_mul;

verus! {

pub const CPU_HZ: u32 = 4_194_304;

/// Sample value of a step of the pulse duty cycles (12.5%, 25%, 50%, 75%).
pub open spec fn duty_bit(duty: u8, pos: u8) -> u8 {
    let d = duty % 4;
    let p = pos % 8;
    if d == 0 {
        if p == 7 { 1 } else { 0 }
    } else if d == 1 {
        if p == 0 || p == 7 { 1 } else { 0 }
    } else if d == 2 {
        if p == 0 || p >= 5 { 1 } else { 0 }
    } else {
        if p == 0 || p == 7 { 0 } else { 1 }
    }
}

fn duty_bit_exec(duty: u8, pos: u8) -> (r: u8)
    ensures
        r == duty_bit(duty, pos),
{
    let d = duty % 4;
    let p = pos % 8;
    if d == 0 {
        if p == 7 { 1 } else { 0 }
    } else if d == 1 {
        if p == 0 || p == 7 { 1 } else { 0 }
    } else if d == 2 {
        if p == 0 || p >= 5 { 1 } else { 0 }
    } else {
        if p == 0 || p == 7 { 0 } else { 1 }
    }
}

#[derive(Debug, Clone, Copy, PartialEq, Eq, Structural)]
pub struct Envelope {
    pub initial_volume: u8,
    pub direction_up: bool,
    pub period: u8,
    pub volume: u8,
    pub timer: u8,
}

impl Envelope {
    pub open spec fn default_spec() -> Envelope {
        Envelope { initial_volume: 0, direction_up: false, period: 0, volume: 0, timer: 0 }
    }

    pub open spec fn wf(self) -> bool {
        self.initial_volume < 16 && self.volume < 16 && self.period < 8
    }

    pub open spec fn write_spec(self, val: u8) -> Envelope {
        Envelope { initial_volume: val / 16, direction_up: val & 0x08 != 0, period: val & 0x07, ..self }
    }

    pub open spec fn read_spec(self) -> u8 {
        ((self.initial_volume * 16) as u8 | (if self.direction_up { 8u8 } else { 0u8 })) | self.period
    }

    pub open spec fn trigger_spec(self) -> Envelope {
        Envelope { volume: self.initial_volume, timer: self.period, ..self }
    }

    /// One envelope clock: every `period` clocks the volume moves one step
    /// towards 15 (up) or 0 (down); period 0 stops it.
    pub open spec fn clock_spec(self) -> Envelope {
        if self.period == 0 {
            self
        } else {
            let t = if self.timer > 0 { (self.timer - 1) as u8 } else { 0u8 };
            if t == 0 {
                let vol = if self.direction_up && self.volume < 15 {
                    (self.volume + 1) as u8
                } else if !self.direction_up && self.volume > 0 {
                    (self.volume - 1) as u8
                } else {
                    self.volume
                };
                Envelope { timer: self.period, volume: vol, ..self }
            } else {
                Envelope { timer: t, ..self }
            }
        }
    }

    /// The DAC is on if the upper 5 bits of NRx2 are non-zero.
    pub open spec fn dac_on_spec(self) -> bool {
        self.initial_volume != 0 || self.direction_up
    }

    fn write(&mut self, val: u8)
        ensures
            *final(self) == old(self).write_spec(val),
            old(self).wf() ==> final(self).wf(),
    {
        self.initial_volume = val / 16;
        self.direction_up = val & 0x08 != 0;
        self.period = val & 0x07;
        assert(val & 0x07 < 8) by (bit_vector);
    }

    fn read(&self) -> (r: u8)
        requires
            self.wf(),
        ensures
            r == self.read_spec(),
    {
        ((self.initial_volume * 16) | (if self.direction_up { 8u8 } else { 0u8 })) | self.period
    }

    fn trigger(&mut self)
        ensures
            *final(self) == old(self).trigger_spec(),
    {
        self.volume = self.initial_volume;
        self.timer = self.period;
    }

    fn clock(&mut self)
        requires
            old(self).wf(),
        ensures
            *final(self) == old(self).clock_spec(),
            final(self).wf(),
    {
        if self.period == 0 {
            return;
        }
        if self.timer > 0 {
            self.timer = self.timer - 1;
        }
        if self.timer == 0 {
            self.timer = self.period;
            if self.direction_up && self.volume < 15 {
                self.volume = self.volume + 1;
            } else if !self.direction_up && self.volume > 0 {
                self.volume = self.volume - 1;
            }
        }
    }

    fn dac_on(&self) -> (r: bool)
        ensures
            r == self.dac_on_spec(),
    {
        self.initial_volume != 0 || self.direction_up
    }
}

/// A pulse (square-wave) channel; channel 1 also has the frequency sweep.
#[derive(Debug, Clone, Copy, PartialEq, Eq, Structural)]
pub struct Pulse {
    pub enabled: bool,
    pub duty: u8,
    pub duty_pos: u8,
    /// 11-bit frequency.
    pub freq: u16,
    pub freq_timer: u32,
    pub length: u16,
    pub length_enable: bool,
    pub envelope: Envelope,
    pub sweep_period: u8,
    pub sweep_up: bool,
    pub sweep_shift: u8,
    pub sweep_timer: u8,
    pub sweep_shadow: u16,
    pub sweep_enabled: bool,
}

impl Pulse {
    pub open spec fn default_spec() -> Pulse {
        Pulse {
            enabled: false,
            duty: 0,
            duty_pos: 0,
            freq: 0,
            freq_timer: 0,
            length: 0,
            length_enable: false,
            envelope: Envelope::default_spec(),
            sweep_period: 0,
            sweep_up: false,
            sweep_shift: 0,
            sweep_timer: 0,
            sweep_shadow: 0,
            sweep_enabled: false,
        }
    }

    pub open spec fn wf(self) -> bool {
        &&& self.freq < 2048
        &&& self.duty < 4
        &&& self.duty_pos < 8
        &&& self.sweep_shift < 8
        &&& self.sweep_period < 8
        &&& self.sweep_shadow < 2048
        &&& self.length <= 64
        &&& self.freq_timer <= 8192
        &&& self.envelope.wf()
    }

    /// The frequency the sweep would move to next.
    pub open spec fn sweep_next_spec(self) -> int {
        let delta = self.sweep_shadow >> self.sweep_shift;
        if self.sweep_up {
            self.sweep_shadow + delta
        } else {
            self.sweep_shadow - delta
        }
    }

    pub open spec fn trigger_spec(self, has_sweep: bool) -> Pulse {
        let p = Pulse {
            enabled: self.envelope.dac_on_spec(),
            length: if self.length == 0 { 64 } else { self.length },
            freq_timer: ((2048 - self.freq) * 4) as u32,
            envelope: self.envelope.trigger_spec(),
            ..self
        };
        if has_sweep {
            let p2 = Pulse {
                sweep_shadow: p.freq,
                sweep_timer: if p.sweep_period == 0 { 8 } else { p.sweep_period },
                sweep_enabled: p.sweep_period != 0 || p.sweep_shift != 0,
                ..p
            };
            if p2.sweep_shift != 0 && p2.sweep_next_spec() > 2047 {
                Pulse { enabled: false, ..p2 }
            } else {
                p2
            }
        } else {
            p
        }
    }

    /// One sweep clock (128 Hz): a due, enabled sweep moves the frequency,
    /// and an overflow past 2047 silences the channel.
    pub open spec fn clock_sweep_spec(self) -> Pulse {
        let t = if self.sweep_timer > 0 { (self.sweep_timer - 1) as u8 } else { 0u8 };
        if t != 0 {
            Pulse { sweep_timer: t, ..self }
        } else {
            let p = Pulse { sweep_timer: if self.sweep_period == 0 { 8 } else { self.sweep_period }, ..self };
            if p.sweep_enabled && p.sweep_period != 0 {
                let next = p.sweep_next_spec();
                if next <= 2047 && p.sweep_shift != 0 {
                    let p2 = Pulse { sweep_shadow: next as u16, freq: next as u16, ..p };
                    if p2.sweep_next_spec() > 2047 {
                        Pulse { enabled: false, ..p2 }
                    } else {
                        p2
                    }
                } else if next > 2047 {
                    Pulse { enabled: false, ..p }
                } else {
                    p
                }
            } else {
                p
            }
        }
    }

    /// One length clock (256 Hz): an enabled length counter runs down and
    /// silences the channel at zero.
    pub open spec fn clock_length_spec(self) -> Pulse {
        if self.length_enable && self.length > 0 {
            Pulse {
                length: (self.length - 1) as u16,
                enabled: if self.length == 1 { false } else { self.enabled },
                ..self
            }
        } else {
            self
        }
    }

    /// `c` T-cycles of the frequency timer; each expiry advances the duty
    /// step.
    pub open spec fn tick_spec(self, c: nat) -> Pulse
        decreases c,
    {
        if c == 0 {
            self
        } else {
            let step: nat = if self.freq_timer >= 1 && (self.freq_timer as nat) < c {
                self.freq_timer as nat
            } else if self.freq_timer >= 1 {
                c
            } else {
                1
            };
            if self.freq_timer as nat <= step {
                Pulse {
                    freq_timer: ((2048 - self.freq) * 4) as u32,
                    duty_pos: ((self.duty_pos + 1) % 8) as u8,
                    ..self
                }.tick_spec((c - step) as nat)
            } else {
                Pulse { freq_timer: (self.freq_timer - step) as u32, ..self }
            }
        }
    }

    /// The channel's contribution to the mix: `2 * level - 15`, or 0 when off.
    pub open spec fn output_spec(self) -> int {
        if !self.enabled || !self.envelope.dac_on_spec() {
            0
        } else {
            2 * (duty_bit(self.duty, self.duty_pos) * self.envelope.volume) - 15
        }
    }

    fn trigger(&mut self, has_sweep: bool)
        requires
            old(self).wf(),
        ensures
            *final(self) == old(self).trigger_spec(has_sweep),
            final(self).wf(),
    {
        self.enabled = self.envelope.dac_on();
        if self.length == 0 {
            self.length = 64;
        }
        self.freq_timer = (2048 - self.freq as u32) * 4;
        self.envelope.trigger();
        if has_sweep {
            self.sweep_shadow = self.freq;
            self.sweep_timer = if self.sweep_period == 0 {
                8
            } else {
                self.sweep_period
            };
            self.sweep_enabled = self.sweep_period != 0 || self.sweep_shift != 0;
            if self.sweep_shift != 0 && self.sweep_next() > 2047 {
                self.enabled = false;
            }
        }
    }

    fn sweep_next(&self) -> (r: u32)
        requires
            self.wf(),
        ensures
            r == self.sweep_next_spec(),
    {
        let delta = self.sweep_shadow >> self.sweep_shift;
        proof {
            let s = self.sweep_shadow;
            let sh = self.sweep_shift;
            assert(s >> sh <= s) by (bit_vector);
        }
        if self.sweep_up {
            self.sweep_shadow as u32 + delta as u32
        } else {
            (self.sweep_shadow - delta) as u32
        }
    }

    fn clock_sweep(&mut self)
        requires
            old(self).wf(),
        ensures
            *final(self) == old(self).clock_sweep_spec(),
            final(self).wf(),
    {
        if self.sweep_timer > 0 {
            self.sweep_timer = self.sweep_timer - 1;
        }
        if self.sweep_timer == 0 {
            self.sweep_timer = if self.sweep_period == 0 {
                8
            } else {
                self.sweep_period
            };
            if self.sweep_enabled && self.sweep_period != 0 {
                let next = self.sweep_next();
                if next <= 2047 && self.sweep_shift != 0 {
                    self.sweep_shadow = next as u16;
                    self.freq = next as u16;
                    if self.sweep_next() > 2047 {
                        self.enabled = false;
                    }
                } else if next > 2047 {
                    self.enabled = false;
                }
            }
        }
    }

    fn clock_length(&mut self)
        ensures
            *final(self) == old(self).clock_length_spec(),
            old(self).wf() ==> final(self).wf(),
    {
        if self.length_enable && self.length > 0 {
            self.length = self.length - 1;
            if self.length == 0 {
                self.enabled = false;
            }
        }
    }

    fn tick(&mut self, cycles: u32)
        requires
            old(self).wf(),
        ensures
            *final(self) == old(self).tick_spec(cycles as nat),
            final(self).wf(),
    {
        let mut c = cycles;
        while c > 0
            invariant
                self.wf(),
                self.tick_spec(c as nat) == old(self).tick_spec(cycles as nat),
            decreases c,
        {
            let ft1: u32 = if self.freq_timer >= 1 {
                self.freq_timer
            } else {
                1
            };
            let step = if c < ft1 {
                c
            } else {
                ft1
            };
            if self.freq_timer <= step {
                self.freq_timer = (2048 - self.freq as u32) * 4;
                self.duty_pos = (self.duty_pos + 1) % 8;
                c = c - step;
            } else {
                self.freq_timer = self.freq_timer - step;
                c = 0;
            }
        }
    }

    fn output(&self) -> (r: i16)
        requires
            self.wf(),
        ensures
            r == self.output_spec(),
            -15 <= r <= 15,
    {
        if !self.enabled || !self.envelope.dac_on() {
            return 0;
        }
        let bit = duty_bit_exec(self.duty, self.duty_pos);
        let level: i16 = if bit == 1 {
            assert(bit * self.envelope.volume == self.envelope.volume);
            self.envelope.volume as i16
        } else {
            assert(bit == 0);
            assert(bit * self.envelope.volume == 0);
            0
        };
        2 * level - 15
    }
}

/// The wave channel; its 32 4-bit samples live in the APU's wave table.
#[derive(Debug, Clone, Copy, PartialEq, Eq, Structural)]
pub struct Wave {
    pub enabled: bool,
    pub dac_on: bool,
    /// NR32 output level: 0 mute, 1 100%, 2 50%, 3 25%.
    pub volume_shift: u8,
    pub freq: u16,
    pub freq_timer: u32,
    pub length: u16,
    pub length_enable: bool,
    pub pos: u8,
    pub sample: u8,
}

/// The right shift applied to a wave sample for an NR32 output level.
pub open spec fn wave_shift(volume_shift: u8) -> u8 {
    if volume_shift == 0 {
        4
    } else if volume_shift == 1 {
        0
    } else if volume_shift == 2 {
        1
    } else {
        2
    }
}

impl Wave {
    pub open spec fn default_spec() -> Wave {
        Wave {
            enabled: false,
            dac_on: false,
            volume_shift: 0,
            freq: 0,
            freq_timer: 0,
            length: 0,
            length_enable: false,
            pos: 0,
            sample: 0,
        }
    }

    pub open spec fn wf(self) -> bool {
        &&& self.freq < 2048
        &&& self.pos < 32
        &&& self.sample < 16
        &&& self.length <= 256
        &&& self.freq_timer <= 4096
        &&& self.volume_shift < 4
    }

    pub open spec fn trigger_spec(self) -> Wave {
        Wave {
            enabled: self.dac_on,
            length: if self.length == 0 { 256 } else { self.length },
            freq_timer: ((2048 - self.freq) * 2) as u32,
            pos: 0,
            ..self
        }
    }

    pub open spec fn clock_length_spec(self) -> Wave {
        if self.length_enable && self.length > 0 {
            Wave {
                length: (self.length - 1) as u16,
                enabled: if self.length == 1 { false } else { self.enabled },
                ..self
            }
        } else {
            self
        }
    }

    /// `c` T-cycles; each timer expiry steps to the next 4-bit sample of
    /// `table` (high nibble first).
    pub open spec fn tick_spec(self, table: Seq<u8>, c: nat) -> Wave
        decreases c,
    {
        if c == 0 {
            self
        } else {
            let step: nat = if self.freq_timer >= 1 && (self.freq_timer as nat) < c {
                self.freq_timer as nat
            } else if self.freq_timer >= 1 {
                c
            } else {
                1
            };
            if self.freq_timer as nat <= step {
                let pos = (self.pos + 1) % 32;
                let byte = table[pos / 2];
                Wave {
                    freq_timer: ((2048 - self.freq) * 2) as u32,
                    pos: pos as u8,
                    sample: if pos % 2 == 0 { byte / 16 } else { byte % 16 },
                    ..self
                }.tick_spec(table, (c - step) as nat)
            } else {
                Wave { freq_timer: (self.freq_timer - step) as u32, ..self }
            }
        }
    }

    pub open spec fn output_spec(self) -> int {
        if !self.enabled || !self.dac_on {
            0
        } else {
            2 * (self.sample >> wave_shift(self.volume_shift)) - 15
        }
    }

    fn trigger(&mut self)
        requires
            old(self).wf(),
        ensures
            *final(self) == old(self).trigger_spec(),
            final(self).wf(),
    {
        self.enabled = self.dac_on;
        if self.length == 0 {
            self.length = 256;
        }
        self.freq_timer = (2048 - self.freq as u32) * 2;
        self.pos = 0;
    }

    fn clock_length(&mut self)
        ensures
            *final(self) == old(self).clock_length_spec(),
            old(self).wf() ==> final(self).wf(),
    {
        if self.length_enable && self.length > 0 {
            self.length = self.length - 1;
            if self.length == 0 {
                self.enabled = false;
            }
        }
    }

    fn tick(&mut self, cycles: u32, table: &Vec<u8>)
        requires
            old(self).wf(),
            table.len() == 16,
        ensures
            *final(self) == old(self).tick_spec(table@, cycles as nat),
            final(self).wf(),
    {
        let mut c = cycles;
        while c > 0
            invariant
                self.wf(),
                table.len() == 16,
                self.tick_spec(table@, c as nat) == old(self).tick_spec(table@, cycles as nat),
            decreases c,
        {
            let ft1: u32 = if self.freq_timer >= 1 {
                self.freq_timer
            } else {
                1
            };
            let step = if c < ft1 {
                c
            } else {
                ft1
            };
            if self.freq_timer <= step {
                self.freq_timer = (2048 - self.freq as u32) * 2;
                self.pos = (self.pos + 1) % 32;
                let byte = table[(self.pos / 2) as usize];
                self.sample = if self.pos % 2 == 0 {
                    byte / 16
                } else {
                    byte % 16
                };
                c = c - step;
            } else {
                self.freq_timer = self.freq_timer - step;
                c = 0;
            }
        }
    }

    fn output(&self) -> (r: i16)
        requires
            self.wf(),
        ensures
            r == self.output_spec(),
            -15 <= r <= 15,
    {
        if !self.enabled || !self.dac_on {
            return 0;
        }
        let shift: u8 = if self.volume_shift == 0 {
            4
        } else if self.volume_shift == 1 {
            0
        } else if self.volume_shift == 2 {
            1
        } else {
            2
        };
        proof {
            let s = self.sample;
            assert(s >> shift <= s) by (bit_vector);
        }
        2 * ((self.sample >> shift) as i16) - 15
    }
}

/// The noise channel: a 15-bit (or 7-bit) LFSR clocked by a divided timer.
#[derive(Debug, Clone, Copy, PartialEq, Eq, Structural)]
pub struct Noise {
    pub enabled: bool,
    pub length: u16,
    pub length_enable: bool,
    pub envelope: Envelope,
    pub shift: u8,
    pub width7: bool,
    pub divisor_code: u8,
    pub freq_timer: u32,
    pub lfsr: u16,
}

impl Noise {
    pub open spec fn default_spec() -> Noise {
        Noise {
            enabled: false,
            length: 0,
            length_enable: false,
            envelope: Envelope::default_spec(),
            shift: 0,
            width7: false,
            divisor_code: 0,
            freq_timer: 0,
            lfsr: 0,
        }
    }

    pub open spec fn wf(self) -> bool {
        &&& self.shift < 16
        &&& self.divisor_code < 8
        &&& self.length <= 64
        &&& self.envelope.wf()
    }

    /// Timer period: divisor (8 for code 0, else 16 * code) shifted left.
    pub open spec fn period_spec(self) -> u32 {
        let d: u32 = if self.divisor_code == 0 { 8 } else { (self.divisor_code as u32 * 16) as u32 };
        (d * pow2(self.shift as nat)) as u32
    }

    pub open spec fn trigger_spec(self) -> Noise {
        Noise {
            enabled: self.envelope.dac_on_spec(),
            length: if self.length == 0 { 64 } else { self.length },
            freq_timer: self.period_spec(),
            envelope: self.envelope.trigger_spec(),
            lfsr: 0x7FFF,
            ..self
        }
    }

    pub open spec fn clock_length_spec(self) -> Noise {
        if self.length_enable && self.length > 0 {
            Noise {
                length: (self.length - 1) as u16,
                enabled: if self.length == 1 { false } else { self.enabled },
                ..self
            }
        } else {
            self
        }
    }

    /// One LFSR shift: the XOR of the two low bits enters at bit 14 (and at
    /// bit 6 in 7-bit mode).
    pub open spec fn shift_lfsr(self) -> u16 {
        let x = (self.lfsr & 1) ^ ((self.lfsr >> 1u16) & 1);
        let l = (self.lfsr >> 1u16) | (x << 14u16);
        if self.width7 {
            (l & !(1u16 << 6u16)) | (x << 6u16)
        } else {
            l
        }
    }

    pub open spec fn tick_spec(self, c: nat) -> Noise
        decreases c,
    {
        if c == 0 {
            self
        } else {
            let step: nat = if self.freq_timer >= 1 && (self.freq_timer as nat) < c {
                self.freq_timer as nat
            } else if self.freq_timer >= 1 {
                c
            } else {
                1
            };
            if self.freq_timer as nat <= step {
                Noise { freq_timer: self.period_spec(), lfsr: self.shift_lfsr(), ..self }.tick_spec(
                    (c - step) as nat,
                )
            } else {
                Noise { freq_timer: (self.freq_timer - step) as u32, ..self }
            }
        }
    }

    pub open spec fn output_spec(self) -> int {
        if !self.enabled || !self.envelope.dac_on_spec() {
            0
        } else {
            2 * ((!self.lfsr & 1) * self.envelope.volume) - 15
        }
    }

    fn period(&self) -> (r: u32)
        requires
            self.wf(),
        ensures
            r == self.period_spec(),
    {
        let d: u32 = if self.divisor_code == 0 {
            8
        } else {
            self.divisor_code as u32 * 16
        };
        proof {
            lemma2_to64();
            if self.shift < 15 {
                lemma_pow2_strictly_increases(self.shift as nat, 15);
            }
            assert(d * pow2(self.shift as nat) <= 112 * 32768) by (nonlinear_arith)
                requires
                    d <= 112,
                    pow2(self.shift as nat) <= 32768,
            ;
            lemma_u32_shl_is_mul(d, self.shift as u32);
        }
        d << self.shift as u32
    }

    fn trigger(&mut self)
        requires
            old(self).wf(),
        ensures
            *final(self) == old(self).trigger_spec(),
            final(self).wf(),
    {
        self.enabled = self.envelope.dac_on();
        if self.length == 0 {
            self.length = 64;
        }
        self.freq_timer = self.period();
        self.envelope.trigger();
        self.lfsr = 0x7FFF;
    }

    fn clock_length(&mut self)
        ensures
            *final(self) == old(self).clock_length_spec(),
            old(self).wf() ==> final(self).wf(),
    {
        if self.length_enable && self.length > 0 {
            self.length = self.length - 1;
            if self.length == 0 {
                self.enabled = false;
            }
        }
    }

    fn tick(&mut self, cycles: u32)
        requires
            old(self).wf(),
        ensures
            *final(self) == old(self).tick_spec(cycles as nat),
            final(self).wf(),
    {
        let mut c = cycles;
        while c > 0
            invariant
                self.wf(),
                self.tick_spec(c as nat) == old(self).tick_spec(cycles as nat),
            decreases c,
        {
            let ft1: u32 = if self.freq_timer >= 1 {
                self.freq_timer
            } else {
                1
            };
            let step = if c < ft1 {
                c
            } else {
                ft1
            };
            if self.freq_timer <= step {
                self.freq_timer = self.period();
                let x = (self.lfsr & 1) ^ ((self.lfsr >> 1u16) & 1);
                self.lfsr = (self.lfsr >> 1u16) | (x << 14u16);
                if self.width7 {
                    self.lfsr = (self.lfsr & !(1u16 << 6u16)) | (x << 6u16);
                }
                c = c - step;
            } else {
                self.freq_timer = self.freq_timer - step;
                c = 0;
            }
        }
    }

    fn output(&self) -> (r: i16)
        requires
            self.wf(),
        ensures
            r == self.output_spec(),
            -15 <= r <= 15,
    {
        if !self.enabled || !self.envelope.dac_on() {
            return 0;
        }
        let l = self.lfsr;
        let bit = !l & 1;
        assert(!l & 1 <= 1) by (bit_vector);
        let level: i16 = if bit == 1 {
            assert(bit * self.envelope.volume == self.envelope.volume);
            self.envelope.volume as i16
        } else {
            assert(bit == 0);
            assert(bit * self.envelope.volume == 0);
            0
        };
        2 * level - 15
    }
}

pub struct Apu {
    pub enabled: bool,
    pub ch1: Pulse,
    pub ch2: Pulse,
    pub ch3: Wave,
    pub ch4: Noise,
    /// Wave RAM (0xFF30-0xFF3F): 32 4-bit samples, high nibble first.
    pub wave_table: Vec<u8>,
    pub nr50: u8,
    pub nr51: u8,
    pub frame_seq: u8,
    pub frame_timer: u32,
    pub sample_rate: u32,
    pub sample_counter: u32,
    /// Interleaved stereo mix values produced since the last drain.
    pub samples: Vec<i16>,
}

pub ghost struct ApuView {
    pub enabled: bool,
    pub ch1: Pulse,
    pub ch2: Pulse,
    pub ch3: Wave,
    pub ch4: Noise,
    pub wave_table: Seq<u8>,
    pub nr50: u8,
    pub nr51: u8,
    pub frame_seq: u8,
    pub frame_timer: u32,
    pub sample_rate: u32,
    pub sample_counter: u32,
    pub samples: Seq<i16>,
}

impl View for Apu {
    type V = ApuView;

    open spec fn view(&self) -> ApuView {
        ApuView {
            enabled: self.enabled,
            ch1: self.ch1,
            ch2: self.ch2,
            ch3: self.ch3,
            ch4: self.ch4,
            wave_table: self.wave_table@,
            nr50: self.nr50,
            nr51: self.nr51,
            frame_seq: self.frame_seq,
            frame_timer: self.frame_timer,
            sample_rate: self.sample_rate,
            sample_counter: self.sample_counter,
            samples: self.samples@,
        }
    }
}

/// A channel output when the NR51 routing bit `bit` is set, else 0.
pub open spec fn routed(nr51: u8, bit: u8, out: int) -> int {
    if nr51 & (1u8 << bit) != 0 {
        out
    } else {
        0
    }
}

fn routed_out(nr51: u8, bit: u8, out: i16) -> (r: i16)
    requires
        bit < 8,
        -15 <= out <= 15,
    ensures
        r == routed(nr51, bit, out as int),
        -15 <= r <= 15,
{
    if nr51 & (1u8 << bit) != 0 {
        out
    } else {
        0
    }
}

/// Register `b` read back through a mask of always-set bits.
pub open spec fn flag_u8(on: bool, bit: u8) -> u8 {
    if on {
        bit
    } else {
        0
    }
}

impl ApuView {
    pub open spec fn wf(self) -> bool {
        &&& self.ch1.wf()
        &&& self.ch2.wf()
        &&& self.ch3.wf()
        &&& self.ch4.wf()
        &&& self.wave_table.len() == 16
        &&& self.frame_seq < 8
        &&& self.frame_timer < 8192
        &&& 8000 <= self.sample_rate <= CPU_HZ
        &&& self.sample_counter < CPU_HZ
    }

    /// The state of a freshly built APU: powered, zeroed wave RAM, 48 kHz.
    pub open spec fn power_on() -> ApuView {
        ApuView {
            enabled: true,
            ch1: Pulse::default_spec(),
            ch2: Pulse::default_spec(),
            ch3: Wave::default_spec(),
            ch4: Noise::default_spec(),
            wave_table: Seq::new(16, |i: int| 0u8),
            nr50: 0x77,
            nr51: 0xF3,
            frame_seq: 0,
            frame_timer: 0,
            sample_rate: 48_000,
            sample_counter: 0,
            samples: Seq::empty(),
        }
    }

    /// The power-on state, keeping wave RAM, the sample rate and the
    /// undrained samples.
    pub open spec fn reset_spec(self) -> ApuView {
        ApuView {
            enabled: true,
            ch1: Pulse::default_spec(),
            ch2: Pulse::default_spec(),
            ch3: Wave::default_spec(),
            ch4: Noise::default_spec(),
            nr50: 0x77,
            nr51: 0xF3,
            frame_seq: 0,
            frame_timer: 0,
            sample_counter: 0,
            ..self
        }
    }

    pub open spec fn read_spec(self, addr: u16) -> u8 {
        if addr == 0xFF10 {
            0x80u8 | (self.ch1.sweep_period * 16) as u8 | flag_u8(!self.ch1.sweep_up, 8) | self.ch1.sweep_shift
        } else if addr == 0xFF11 {
            (self.ch1.duty * 64) as u8 | 0x3F
        } else if addr == 0xFF12 {
            self.ch1.envelope.read_spec()
        } else if addr == 0xFF14 {
            0xBFu8 | flag_u8(self.ch1.length_enable, 0x40)
        } else if addr == 0xFF16 {
            (self.ch2.duty * 64) as u8 | 0x3F
        } else if addr == 0xFF17 {
            self.ch2.envelope.read_spec()
        } else if addr == 0xFF19 {
            0xBFu8 | flag_u8(self.ch2.length_enable, 0x40)
        } else if addr == 0xFF1A {
            0x7Fu8 | flag_u8(self.ch3.dac_on, 0x80)
        } else if addr == 0xFF1C {
            0x9Fu8 | (self.ch3.volume_shift * 32) as u8
        } else if addr == 0xFF1E {
            0xBFu8 | flag_u8(self.ch3.length_enable, 0x40)
        } else if addr == 0xFF21 {
            self.ch4.envelope.read_spec()
        } else if addr == 0xFF22 {
            (self.ch4.shift * 16) as u8 | flag_u8(self.ch4.width7, 8) | self.ch4.divisor_code
        } else if addr == 0xFF23 {
            0xBFu8 | flag_u8(self.ch4.length_enable, 0x40)
        } else if addr == 0xFF24 {
            self.nr50
        } else if addr == 0xFF25 {
            self.nr51
        } else if addr == 0xFF26 {
            0x70u8 | flag_u8(self.enabled, 0x80) | flag_u8(self.ch1.enabled, 1) | flag_u8(
                self.ch2.enabled,
                2,
            ) | flag_u8(self.ch3.enabled, 4) | flag_u8(self.ch4.enabled, 8)
        } else if 0xFF30 <= addr <= 0xFF3F {
            self.wave_table[addr - 0xFF30]
        } else {
            0xFF
        }
    }

    /// Writes to the channel-1/2 registers (NR10-NR24).
    pub open spec fn write_pulse_spec(self, addr: u16, val: u8) -> ApuView {
        if addr == 0xFF10 {
            ApuView {
                ch1: Pulse {
                    sweep_period: (val / 16) & 7,
                    sweep_up: val & 8 == 0,
                    sweep_shift: val & 7,
                    ..self.ch1
                },
                ..self
            }
        } else if addr == 0xFF11 {
            ApuView { ch1: Pulse { duty: val / 64, length: (64 - (val & 0x3F)) as u16, ..self.ch1 }, ..self }
        } else if addr == 0xFF12 {
            let e = self.ch1.envelope.write_spec(val);
            ApuView {
                ch1: Pulse { envelope: e, enabled: if !e.dac_on_spec() { false } else { self.ch1.enabled }, ..self.ch1 },
                ..self
            }
        } else if addr == 0xFF13 {
            ApuView { ch1: Pulse { freq: ((self.ch1.freq / 256) * 256 + val) as u16, ..self.ch1 }, ..self }
        } else if addr == 0xFF14 {
            let p = Pulse {
                freq: (self.ch1.freq % 256 + (val & 7) as int * 256) as u16,
                length_enable: val & 0x40 != 0,
                ..self.ch1
            };
            ApuView {
                ch1: if val & 0x80 != 0 {
                    p.trigger_spec(true)
                } else {
                    p
                },
                ..self
            }
        } else if addr == 0xFF16 {
            ApuView { ch2: Pulse { duty: val / 64, length: (64 - (val & 0x3F)) as u16, ..self.ch2 }, ..self }
        } else if addr == 0xFF17 {
            let e = self.ch2.envelope.write_spec(val);
            ApuView {
                ch2: Pulse { envelope: e, enabled: if !e.dac_on_spec() { false } else { self.ch2.enabled }, ..self.ch2 },
                ..self
            }
        } else if addr == 0xFF18 {
            ApuView { ch2: Pulse { freq: ((self.ch2.freq / 256) * 256 + val) as u16, ..self.ch2 }, ..self }
        } else {
            // 0xFF19
            let p = Pulse {
                freq: (self.ch2.freq % 256 + (val & 7) as int * 256) as u16,
                length_enable: val & 0x40 != 0,
                ..self.ch2
            };
            ApuView {
                ch2: if val & 0x80 != 0 {
                    p.trigger_spec(false)
                } else {
                    p
                },
                ..self
            }
        }
    }

    /// Writes to the wave and noise registers (NR30-NR44).
    pub open spec fn write_wave_noise_spec(self, addr: u16, val: u8) -> ApuView {
        if addr == 0xFF1A {
            let on = val & 0x80 != 0;
            ApuView {
                ch3: Wave { dac_on: on, enabled: if !on { false } else { self.ch3.enabled }, ..self.ch3 },
                ..self
            }
        } else if addr == 0xFF1B {
            ApuView { ch3: Wave { length: (256 - val) as u16, ..self.ch3 }, ..self }
        } else if addr == 0xFF1C {
            ApuView { ch3: Wave { volume_shift: (val / 32) & 3, ..self.ch3 }, ..self }
        } else if addr == 0xFF1D {
            ApuView { ch3: Wave { freq: ((self.ch3.freq / 256) * 256 + val) as u16, ..self.ch3 }, ..self }
        } else if addr == 0xFF1E {
            let w = Wave {
                freq: (self.ch3.freq % 256 + (val & 7) as int * 256) as u16,
                length_enable: val & 0x40 != 0,
                ..self.ch3
            };
            ApuView {
                ch3: if val & 0x80 != 0 {
                    w.trigger_spec()
                } else {
                    w
                },
                ..self
            }
        } else if addr == 0xFF20 {
            ApuView { ch4: Noise { length: (64 - (val & 0x3F)) as u16, ..self.ch4 }, ..self }
        } else if addr == 0xFF21 {
            let e = self.ch4.envelope.write_spec(val);
            ApuView {
                ch4: Noise { envelope: e, enabled: if !e.dac_on_spec() { false } else { self.ch4.enabled }, ..self.ch4 },
                ..self
            }
        } else if addr == 0xFF22 {
            ApuView {
                ch4: Noise { shift: val / 16, width7: val & 8 != 0, divisor_code: val & 7, ..self.ch4 },
                ..self
            }
        } else {
            // 0xFF23
            let n = Noise { length_enable: val & 0x40 != 0, ..self.ch4 };
            ApuView {
                ch4: if val & 0x80 != 0 {
                    n.trigger_spec()
                } else {
                    n
                },
                ..self
            }
        }
    }

    /// A register write. While powered off only NR52 and wave RAM take
    /// writes; powering off clears every register except wave RAM.
    pub open spec fn write_spec(self, addr: u16, val: u8) -> ApuView {
        if !self.enabled && addr != 0xFF26 && !(0xFF30 <= addr <= 0xFF3F) {
            self
        } else if 0xFF10 <= addr <= 0xFF19 && addr != 0xFF15 {
            self.write_pulse_spec(addr, val)
        } else if 0xFF1A <= addr <= 0xFF23 && addr != 0xFF1F {
            self.write_wave_noise_spec(addr, val)
        } else if addr == 0xFF24 {
            ApuView { nr50: val, ..self }
        } else if addr == 0xFF25 {
            ApuView { nr51: val, ..self }
        } else if addr == 0xFF26 {
            let on = val & 0x80 != 0;
            if !on && self.enabled {
                ApuView { enabled: false, nr50: 0, nr51: 0, ..self.reset_spec() }
            } else {
                ApuView { enabled: on, ..self }
            }
        } else if 0xFF30 <= addr <= 0xFF3F {
            ApuView { wave_table: self.wave_table.update(addr - 0xFF30, val), ..self }
        } else {
            self
        }
    }

    /// One step of the 512 Hz frame sequencer: lengths on even steps, the
    /// sweep on steps 2 and 6, envelopes on step 7.
    pub open spec fn frame_seq_spec(self) -> ApuView {
        let s = self.frame_seq;
        let v1 = if s % 2 == 0 {
            ApuView {
                ch1: self.ch1.clock_length_spec(),
                ch2: self.ch2.clock_length_spec(),
                ch3: self.ch3.clock_length_spec(),
                ch4: self.ch4.clock_length_spec(),
                ..self
            }
        } else {
            self
        };
        let v2 = if s == 2 || s == 6 {
            ApuView { ch1: v1.ch1.clock_sweep_spec(), ..v1 }
        } else {
            v1
        };
        let v3 = if s == 7 {
            ApuView {
                ch1: Pulse { envelope: v2.ch1.envelope.clock_spec(), ..v2.ch1 },
                ch2: Pulse { envelope: v2.ch2.envelope.clock_spec(), ..v2.ch2 },
                ch4: Noise { envelope: v2.ch4.envelope.clock_spec(), ..v2.ch4 },
                ..v2
            }
        } else {
            v2
        };
        ApuView { frame_seq: ((s + 1) % 8) as u8, ..v3 }
    }

    /// The stereo pair of mix values for the current channel outputs.
    pub open spec fn mix_spec(self) -> (int, int) {
        let o1 = self.ch1.output_spec();
        let o2 = self.ch2.output_spec();
        let o3 = self.ch3.output_spec();
        let o4 = self.ch4.output_spec();
        let left = routed(self.nr51, 4, o1) + routed(self.nr51, 5, o2) + routed(self.nr51, 6, o3)
            + routed(self.nr51, 7, o4);
        let right = routed(self.nr51, 0, o1) + routed(self.nr51, 1, o2) + routed(self.nr51, 2, o3)
            + routed(self.nr51, 3, o4);
        let lvol = ((self.nr50 / 16) & 7) + 1;
        let rvol = (self.nr50 & 7) + 1;
        (left * lvol, right * rvol)
    }

    /// One T-cycle of the powered APU: frame sequencer, channel timers, then
    /// a sample when one is due at the output rate.
    pub open spec fn cycle_spec(self) -> ApuView {
        let v1 = if self.frame_timer + 1 >= 8192 {
            ApuView { frame_timer: 0, ..self }.frame_seq_spec()
        } else {
            ApuView { frame_timer: (self.frame_timer + 1) as u32, ..self }
        };
        let v2 = ApuView {
            ch1: v1.ch1.tick_spec(1),
            ch2: v1.ch2.tick_spec(1),
            ch3: v1.ch3.tick_spec(v1.wave_table, 1),
            ch4: v1.ch4.tick_spec(1),
            ..v1
        };
        let c = v2.sample_counter + v2.sample_rate;
        if c >= CPU_HZ {
            let (l, r) = v2.mix_spec();
            ApuView {
                sample_counter: (c - CPU_HZ) as u32,
                samples: v2.samples.push(l as i16).push(r as i16),
                ..v2
            }
        } else {
            ApuView { sample_counter: c as u32, ..v2 }
        }
    }

    pub open spec fn cycles_spec(self, n: nat) -> ApuView
        decreases n,
    {
        if n == 0 {
            self
        } else {
            self.cycle_spec().cycles_spec((n - 1) as nat)
        }
    }

    /// Silence output while powered off: one zero pair per due sample.
    pub open spec fn silence_spec(samples: Seq<i16>, counter: int) -> (Seq<i16>, int)
        decreases counter,
    {
        if counter >= CPU_HZ {
            Self::silence_spec(samples.push(0).push(0), counter - CPU_HZ)
        } else {
            (samples, counter)
        }
    }

    /// `n` T-cycles.
    pub open spec fn tick_spec(self, n: nat) -> ApuView {
        if !self.enabled {
            let (s, c) = Self::silence_spec(self.samples, self.sample_counter + n * self.sample_rate);
            ApuView { samples: s, sample_counter: c as u32, ..self }
        } else {
            self.cycles_spec(n)
        }
    }
}

pub proof fn lemma_silence_bound(samples: Seq<i16>, counter: int)
    requires
        counter >= 0,
    ensures
        0 <= ApuView::silence_spec(samples, counter).1 < CPU_HZ,
    decreases counter,
{
    if counter >= CPU_HZ {
        lemma_silence_bound(samples.push(0).push(0), counter - CPU_HZ);
    }
}

impl Default for Apu {
    fn default() -> (r: Apu)
        ensures
            r@.wf(),
            r@ == ApuView::power_on(),
    {
        let r = Apu {
            enabled: true,
            ch1: Pulse::new(),
            ch2: Pulse::new(),
            ch3: Wave::new(),
            ch4: Noise::new(),
            wave_table: vec![0u8; 16],
            nr50: 0x77,
            nr51: 0xF3,
            frame_seq: 0,
            frame_timer: 0,
            sample_rate: 48_000,
            sample_counter: 0,
            samples: Vec::new(),
        };
        assert(r@.wave_table =~= Seq::new(16, |i: int| 0u8));
        r
    }
}

impl Envelope {
    fn new() -> (r: Envelope)
        ensures
            r == Envelope::default_spec(),
    {
        Envelope { initial_volume: 0, direction_up: false, period: 0, volume: 0, timer: 0 }
    }
}

impl Pulse {
    fn new() -> (r: Pulse)
        ensures
            r == Pulse::default_spec(),
    {
        Pulse {
            enabled: false,
            duty: 0,
            duty_pos: 0,
            freq: 0,
            freq_timer: 0,
            length: 0,
            length_enable: false,
            envelope: Envelope::new(),
            sweep_period: 0,
            sweep_up: false,
            sweep_shift: 0,
            sweep_timer: 0,
            sweep_shadow: 0,
            sweep_enabled: false,
        }
    }
}

impl Wave {
    fn new() -> (r: Wave)
        ensures
            r == Wave::default_spec(),
    {
        Wave {
            enabled: false,
            dac_on: false,
            volume_shift: 0,
            freq: 0,
            freq_timer: 0,
            length: 0,
            length_enable: false,
            pos: 0,
            sample: 0,
        }
    }
}

impl Noise {
    fn new() -> (r: Noise)
        ensures
            r == Noise::default_spec(),
    {
        Noise {
            enabled: false,
            length: 0,
            length_enable: false,
            envelope: Envelope::new(),
            shift: 0,
            width7: false,
            divisor_code: 0,
            freq_timer: 0,
            lfsr: 0,
        }
    }
}

impl Apu {
    /// Set the output sample rate (at least 8000 Hz).
    pub fn set_sample_rate(&mut self, rate: u32)
        requires
            old(self)@.wf(),
            rate <= CPU_HZ,
        ensures
            final(self)@.wf(),
            final(self)@ == (ApuView { sample_rate: if rate >= 8000 { rate } else { 8000 }, ..old(self)@ }),
    {
        self.sample_rate = if rate >= 8000 {
            rate
        } else {
            8000
        };
    }

    /// Take the samples produced since the last drain.
    pub fn drain_samples(&mut self) -> (r: Vec<i16>)
        ensures
            r@ == old(self)@.samples,
            final(self)@ == (ApuView { samples: Seq::empty(), ..old(self)@ }),
    {
        let mut out: Vec<i16> = Vec::new();
        std::mem::swap(&mut out, &mut self.samples);
        out
    }

    pub fn read(&self, addr: u16) -> (r: u8)
        requires
            self@.wf(),
        ensures
            r == self@.read_spec(addr),
    {
        if addr == 0xFF10 {
            0x80u8 | self.ch1.sweep_period * 16 | (if self.ch1.sweep_up { 0u8 } else { 8u8 })
                | self.ch1.sweep_shift
        } else if addr == 0xFF11 {
            self.ch1.duty * 64 | 0x3F
        } else if addr == 0xFF12 {
            self.ch1.envelope.read()
        } else if addr == 0xFF14 {
            0xBFu8 | (if self.ch1.length_enable { 0x40u8 } else { 0u8 })
        } else if addr == 0xFF16 {
            self.ch2.duty * 64 | 0x3F
        } else if addr == 0xFF17 {
            self.ch2.envelope.read()
        } else if addr == 0xFF19 {
            0xBFu8 | (if self.ch2.length_enable { 0x40u8 } else { 0u8 })
        } else if addr == 0xFF1A {
            0x7Fu8 | (if self.ch3.dac_on { 0x80u8 } else { 0u8 })
        } else if addr == 0xFF1C {
            0x9Fu8 | self.ch3.volume_shift * 32
        } else if addr == 0xFF1E {
            0xBFu8 | (if self.ch3.length_enable { 0x40u8 } else { 0u8 })
        } else if addr == 0xFF21 {
            self.ch4.envelope.read()
        } else if addr == 0xFF22 {
            self.ch4.shift * 16 | (if self.ch4.width7 { 8u8 } else { 0u8 }) | self.ch4.divisor_code
        } else if addr == 0xFF23 {
            0xBFu8 | (if self.ch4.length_enable { 0x40u8 } else { 0u8 })
        } else if addr == 0xFF24 {
            self.nr50
        } else if addr == 0xFF25 {
            self.nr51
        } else if addr == 0xFF26 {
            0x70u8 | (if self.enabled { 0x80u8 } else { 0u8 }) | (if self.ch1.enabled {
                1u8
            } else {
                0u8
            }) | (if self.ch2.enabled {
                2u8
            } else {
                0u8
            }) | (if self.ch3.enabled {
                4u8
            } else {
                0u8
            }) | (if self.ch4.enabled {
                8u8
            } else {
                0u8
            })
        } else if 0xFF30 <= addr && addr <= 0xFF3F {
            self.wave_table[(addr - 0xFF30) as usize]
        } else {
            0xFF
        }
    }

    fn write_pulse(&mut self, addr: u16, val: u8)
        requires
            old(self)@.wf(),
            0xFF10 <= addr <= 0xFF19,
            addr != 0xFF15,
        ensures
            final(self)@.wf(),
            final(self)@ == old(self)@.write_pulse_spec(addr, val),
    {
        proof {
            assert((val / 16) & 7 < 8 && val & 7 < 8 && val & 0x3F < 64 && val / 64 < 4) by (bit_vector);
        }
        if addr == 0xFF10 {
            self.ch1.sweep_period = (val / 16) & 7;
            self.ch1.sweep_up = val & 8 == 0;
            self.ch1.sweep_shift = val & 7;
        } else if addr == 0xFF11 {
            self.ch1.duty = val / 64;
            self.ch1.length = 64 - (val & 0x3F) as u16;
        } else if addr == 0xFF12 {
            self.ch1.envelope.write(val);
            if !self.ch1.envelope.dac_on() {
                self.ch1.enabled = false;
            }
        } else if addr == 0xFF13 {
            self.ch1.freq = (self.ch1.freq / 256) * 256 + val as u16;
        } else if addr == 0xFF14 {
            self.ch1.freq = self.ch1.freq % 256 + (val & 7) as u16 * 256;
            self.ch1.length_enable = val & 0x40 != 0;
            if val & 0x80 != 0 {
                self.ch1.trigger(true);
            }
        } else if addr == 0xFF16 {
            self.ch2.duty = val / 64;
            self.ch2.length = 64 - (val & 0x3F) as u16;
        } else if addr == 0xFF17 {
            self.ch2.envelope.write(val);
            if !self.ch2.envelope.dac_on() {
                self.ch2.enabled = false;
            }
        } else if addr == 0xFF18 {
            self.ch2.freq = (self.ch2.freq / 256) * 256 + val as u16;
        } else {
            self.ch2.freq = self.ch2.freq % 256 + (val & 7) as u16 * 256;
            self.ch2.length_enable = val & 0x40 != 0;
            if val & 0x80 != 0 {
                self.ch2.trigger(false);
            }
        }
    }

    fn write_wave_noise(&mut self, addr: u16, val: u8)
        requires
            old(self)@.wf(),
            0xFF1A <= addr <= 0xFF23,
            addr != 0xFF1F,
        ensures
            final(self)@.wf(),
            final(self)@ == old(self)@.write_wave_noise_spec(addr, val),
    {
        proof {
            assert((val / 32) & 3 < 4 && val & 7 < 8 && val & 0x3F < 64 && val / 16 < 16) by (bit_vector);
        }
        if addr == 0xFF1A {
            self.ch3.dac_on = val & 0x80 != 0;
            if !self.ch3.dac_on {
                self.ch3.enabled = false;
            }
        } else if addr == 0xFF1B {
            self.ch3.length = 256 - val as u16;
        } else if addr == 0xFF1C {
            self.ch3.volume_shift = (val / 32) & 3;
        } else if addr == 0xFF1D {
            self.ch3.freq = (self.ch3.freq / 256) * 256 + val as u16;
        } else if addr == 0xFF1E {
            self.ch3.freq = self.ch3.freq % 256 + (val & 7) as u16 * 256;
            self.ch3.length_enable = val & 0x40 != 0;
            if val & 0x80 != 0 {
                self.ch3.trigger();
            }
        } else if addr == 0xFF20 {
            self.ch4.length = 64 - (val & 0x3F) as u16;
        } else if addr == 0xFF21 {
            self.ch4.envelope.write(val);
            if !self.ch4.envelope.dac_on() {
                self.ch4.enabled = false;
            }
        } else if addr == 0xFF22 {
            self.ch4.shift = val / 16;
            self.ch4.width7 = val & 8 != 0;
            self.ch4.divisor_code = val & 7;
        } else {
            self.ch4.length_enable = val & 0x40 != 0;
            if val & 0x80 != 0 {
                self.ch4.trigger();
            }
        }
    }

    pub fn write(&mut self, addr: u16, val: u8)
        requires
            old(self)@.wf(),
        ensures
            final(self)@.wf(),
            final(self)@ == old(self)@.write_spec(addr, val),
    {
        if !self.enabled && addr != 0xFF26 && !(0xFF30 <= addr && addr <= 0xFF3F) {
            return;
        }
        if 0xFF10 <= addr && addr <= 0xFF19 && addr != 0xFF15 {
            self.write_pulse(addr, val);
        } else if 0xFF1A <= addr && addr <= 0xFF23 && addr != 0xFF1F {
            self.write_wave_noise(addr, val);
        } else if addr == 0xFF24 {
            self.nr50 = val;
        } else if addr == 0xFF25 {
            self.nr51 = val;
        } else if addr == 0xFF26 {
            let on = val & 0x80 != 0;
            if !on && self.enabled {
                // Power off clears everything but wave RAM.
                self.ch1 = Pulse::new();
                self.ch2 = Pulse::new();
                self.ch3 = Wave::new();
                self.ch4 = Noise::new();
                self.frame_seq = 0;
                self.frame_timer = 0;
                self.sample_counter = 0;
                self.nr50 = 0;
                self.nr51 = 0;
            }
            self.enabled = on;
        } else if 0xFF30 <= addr && addr <= 0xFF3F {
            self.wave_table.set((addr - 0xFF30) as usize, val);
        }
    }

    fn clock_frame_sequencer(&mut self)
        requires
            old(self)@.wf(),
        ensures
            final(self)@.wf(),
            final(self)@ == old(self)@.frame_seq_spec(),
    {
        if self.frame_seq % 2 == 0 {
            self.ch1.clock_length();
            self.ch2.clock_length();
            self.ch3.clock_length();
            self.ch4.clock_length();
        }
        if self.frame_seq == 2 || self.frame_seq == 6 {
            self.ch1.clock_sweep();
        }
        if self.frame_seq == 7 {
            self.ch1.envelope.clock();
            self.ch2.envelope.clock();
            self.ch4.envelope.clock();
        }
        self.frame_seq = (self.frame_seq + 1) % 8;
    }

    fn mix(&self) -> (r: (i16, i16))
        requires
            self@.wf(),
        ensures
            (r.0 as int, r.1 as int) == self@.mix_spec(),
    {
        let o1 = self.ch1.output();
        let o2 = self.ch2.output();
        let o3 = self.ch3.output();
        let o4 = self.ch4.output();
        let n = self.nr51;
        let left: i16 = routed_out(n, 4, o1) + routed_out(n, 5, o2) + routed_out(n, 6, o3) + routed_out(n, 7, o4);
        let right: i16 = routed_out(n, 0, o1) + routed_out(n, 1, o2) + routed_out(n, 2, o3) + routed_out(n, 3, o4);
        let lvol = ((self.nr50 / 16) & 7) as i16 + 1;
        let rvol = (self.nr50 & 7) as i16 + 1;
        proof {
            let v = self.nr50;
            assert((v / 16) & 7 < 8 && v & 7 < 8) by (bit_vector);
            assert(-60 <= left <= 60 && -60 <= right <= 60);
            assert(-480 <= left * lvol <= 480 && -480 <= right * rvol <= 480) by (nonlinear_arith)
                requires
                    -60 <= left <= 60,
                    -60 <= right <= 60,
                    1 <= lvol <= 8,
                    1 <= rvol <= 8,
            ;
        }
        (left * lvol, right * rvol)
    }

    fn cycle(&mut self)
        requires
            old(self)@.wf(),
            old(self).enabled,
        ensures
            final(self)@.wf(),
            final(self)@ == old(self)@.cycle_spec(),
    {
        if self.frame_timer + 1 >= 8192 {
            self.frame_timer = 0;
            self.clock_frame_sequencer();
        } else {
            self.frame_timer = self.frame_timer + 1;
        }
        self.ch1.tick(1);
        self.ch2.tick(1);
        self.ch3.tick(1, &self.wave_table);
        self.ch4.tick(1);
        let c = self.sample_counter + self.sample_rate;
        if c >= CPU_HZ {
            self.sample_counter = c - CPU_HZ;
            let (l, r) = self.mix();
            self.samples.push(l);
            self.samples.push(r);
        } else {
            self.sample_counter = c;
        }
    }

    /// Advance by `cycles` T-cycles.
    pub fn tick(&mut self, cycles: u32)
        requires
            old(self)@.wf(),
        ensures
            final(self)@.wf(),
            final(self)@ == old(self)@.tick_spec(cycles as nat),
    {
        if !self.enabled {
            // Still produce silence so audio timing stays consistent.
            let c64: u64 = cycles as u64;
            let r64: u64 = self.sample_rate as u64;
            assert(c64 * r64 <= 0xFFFF_FFFF * 0xFFFF_FFFF) by (nonlinear_arith)
                requires
                    c64 <= 0xFFFF_FFFF,
                    r64 <= 0xFFFF_FFFF,
            ;
            let prod: u64 = c64 * r64;
            let mut counter: u64 = self.sample_counter as u64 + prod;
            proof {
                lemma_silence_bound(self.samples@, counter as int);
            }
            while counter >= CPU_HZ as u64
                invariant
                    ApuView::silence_spec(self.samples@, counter as int) == ApuView::silence_spec(
                        old(self).samples@,
                        old(self).sample_counter + cycles * old(self).sample_rate,
                    ),
                    self@ == (ApuView { samples: self.samples@, ..old(self)@ }),
                decreases counter,
            {
                counter = counter - CPU_HZ as u64;
                self.samples.push(0);
                self.samples.push(0);
            }
            self.sample_counter = counter as u32;
            return;
        }
        let mut i: u32 = 0;
        while i < cycles
            invariant
                i <= cycles,
                self@.wf(),
                self.enabled,
                self@.cycles_spec((cycles - i) as nat) == old(self)@.cycles_spec(cycles as nat),
            decreases cycles - i,
        {
            self.cycle();
            i = i + 1;
        }
    }
}

impl Envelope {
    /// Whether the fields are in range (a decoded save state may not be).
    pub fn is_valid(&self) -> (r: bool)
        ensures
            r == self.wf(),
    {
        self.initial_volume < 16 && self.volume < 16 && self.period < 8
    }
}

impl Pulse {
    pub fn is_valid(&self) -> (r: bool)
        ensures
            r == self.wf(),
    {
        self.freq < 2048 && self.duty < 4 && self.duty_pos < 8 && self.sweep_shift < 8
            && self.sweep_period < 8 && self.sweep_shadow < 2048 && self.length <= 64
            && self.freq_timer <= 8192 && self.envelope.is_valid()
    }
}

impl Wave {
    pub fn is_valid(&self) -> (r: bool)
        ensures
            r == self.wf(),
    {
        self.freq < 2048 && self.pos < 32 && self.sample < 16 && self.length <= 256
            && self.freq_timer <= 4096 && self.volume_shift < 4
    }
}

impl Noise {
    pub fn is_valid(&self) -> (r: bool)
        ensures
            r == self.wf(),
    {
        self.shift < 16 && self.divisor_code < 8 && self.length <= 64 && self.envelope.is_valid()
    }
}

impl Apu {
    pub fn is_valid(&self) -> (r: bool)
        ensures
            r == self@.wf(),
    {
        self.ch1.is_valid() && self.ch2.is_valid() && self.ch3.is_valid() && self.ch4.is_valid()
            && self.wave_table.len() == 16 && self.frame_seq < 8 && self.frame_timer < 8192
            && 8000 <= self.sample_rate && self.sample_rate <= CPU_HZ && self.sample_counter < CPU_HZ
    }
}

} // verus!
