use gb_core::apu::{Apu, CPU_HZ};

#[test]
fn produces_samples_at_requested_rate() {
    let mut apu = Apu::default();
    apu.set_sample_rate(48_000);
    apu.tick(CPU_HZ / 10); // 100 ms
    let n = apu.samples.len() / 2;
    assert!((4700..=4900).contains(&n), "got {n} samples");
}

#[test]
fn triggered_pulse_channel_reports_on() {
    let mut apu = Apu::default();
    apu.write(0xFF12, 0xF0); // full volume envelope
    apu.write(0xFF13, 0x00);
    apu.write(0xFF14, 0x87); // trigger, freq high bits
    assert!(apu.read(0xFF26) & 0x01 != 0);
}

#[test]
fn length_counter_disables_channel() {
    let mut apu = Apu::default();
    apu.write(0xFF12, 0xF0);
    apu.write(0xFF11, 0x3F); // length load = 63 -> counter = 1
    apu.write(0xFF14, 0xC0 | 0x80); // trigger with length enable
    // One frame-sequencer length clock happens within 16384 cycles.
    apu.tick(16384);
    assert!(apu.read(0xFF26) & 0x01 == 0);
}

#[test]
fn apu_power_off_clears_registers() {
    let mut apu = Apu::default();
    apu.write(0xFF25, 0xAB);
    apu.write(0xFF26, 0x00);
    assert_eq!(apu.read(0xFF25), 0x00);
    assert_eq!(apu.read(0xFF26) & 0x80, 0);
    // Writes ignored while off.
    apu.write(0xFF25, 0x55);
    assert_eq!(apu.read(0xFF25), 0x00);
}

#[test]
fn wave_channel_produces_output_when_triggered() {
    // A triggered wave channel must contribute non-zero samples.
    let mut apu = Apu::default();
    apu.set_sample_rate(48_000);
    // Fill wave RAM with a ramp and enable the channel at full volume.
    for i in 0..16 {
        apu.write(0xFF30 + i, 0x0F);
    }
    apu.write(0xFF1A, 0x80); // DAC on
    apu.write(0xFF1C, 0x20); // volume 100%
    apu.write(0xFF1D, 0x00); // freq low
    apu.write(0xFF1E, 0x87); // trigger, freq high
    assert!(apu.read(0xFF26) & 0x04 != 0, "wave channel should be on");
    apu.tick(48_000); // 1 s
    let energy: f32 = apu
        .samples
        .iter()
        .map(|s| {
            let x = *s as f32 / 960.0;
            x * x
        })
        .sum();
    assert!(energy > 0.0, "wave channel produced silence");
}

#[test]
fn pulse_dac_off_silences_channel() {
    let mut apu = Apu::default();
    apu.write(0xFF12, 0xF0);
    apu.write(0xFF14, 0x80);
    assert!(apu.read(0xFF26) & 1 != 0);
    apu.write(0xFF12, 0x00); // DAC off
    assert!(apu.read(0xFF26) & 1 == 0);
}

#[test]
fn drain_takes_samples_and_powered_off_apu_emits_silence() {
    let mut apu = Apu::default();
    apu.set_sample_rate(8_000);
    apu.write(0xFF26, 0x00); // power off
    apu.tick(CPU_HZ / 8); // 1/8 s at 8 kHz: 1000 stereo frames
    let s = apu.drain_samples();
    assert_eq!(s.len(), 2000);
    assert!(s.iter().all(|&v| v == 0));
    assert!(apu.drain_samples().is_empty());
}

#[test]
fn sample_rate_has_a_floor() {
    let mut apu = Apu::default();
    apu.set_sample_rate(100);
    apu.tick(CPU_HZ / 8);
    assert_eq!(apu.drain_samples().len(), 2000);
}
