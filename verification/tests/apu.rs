use rgb_core::apu::{APU, CH2, CH3, CH4};

#[test]
fn apu_stub_reads_open_bus() {
    let mut apu = APU::new();
    apu.write(0xFF24, 0x77);
    assert_eq!(apu.read(0xFF24), 0xFF);
    for div in [0u16, 0x1000, 0x0000, 0x1000, 0x0000] {
        apu.step(div);
    }
    let _ = APU::default();
}

#[test]
fn ch2_registers_read_back() {
    let mut ch = CH2::new();
    assert_eq!(ch.read(0xFF16), 0xBF); // power-on duty 2
    ch.write(0xFF17, 0xA5);
    assert_eq!(ch.read(0xFF17), 0xA5);
    ch.write(0xFF16, 0x41);
    assert_eq!(ch.read(0xFF16), 0x7F);
    ch.write(0xFF18, 0x12);
    assert_eq!(ch.read(0xFF18), 0xFF);
    ch.write(0xFF19, 0x47);
    assert_eq!(ch.read(0xFF19), 0xFF);
    ch.write(0xFF19, 0x07);
    assert_eq!(ch.read(0xFF19), 0xBF);
}

#[test]
fn ch2_trigger_plays_duty_pattern() {
    let mut ch = CH2::new();
    assert_eq!(ch.output(), None);
    ch.write(0xFF16, 0x80); // 50% duty
    ch.write(0xFF17, 0xF0); // volume 15, DAC on
    ch.write(0xFF18, 0x00);
    ch.write(0xFF19, 0x87); // trigger, freq = 0x700 → period (2048-1792)*4 = 1024
    assert!(ch.active());
    // 50% duty: step 0 is high.
    assert_eq!(ch.output(), Some(15));
    ch.step(1024); // → step 1 (low)
    assert_eq!(ch.output(), Some(0));
    ch.step(3 * 1024); // → step 4 (high)
    assert_eq!(ch.output(), Some(15));
    let _ = CH2::default();
}

#[test]
fn ch2_steps_add_up() {
    let mut a = CH2::new();
    let mut b = CH2::new();
    for ch in [&mut a, &mut b] {
        ch.write(0xFF17, 0xF0);
        ch.write(0xFF18, 0x34);
        ch.write(0xFF19, 0x85);
    }
    a.step(700);
    a.step(2500);
    b.step(3200);
    assert_eq!(a.output(), b.output());
    a.step(1);
    b.step(1);
    assert_eq!(a.output(), b.output());
}

#[test]
fn ch2_dac_off_and_length_expiry_silence() {
    let mut ch = CH2::new();
    ch.write(0xFF17, 0xF0);
    ch.write(0xFF19, 0x80);
    assert!(ch.active());
    ch.write(0xFF17, 0x07); // DAC off
    assert!(!ch.active());
    assert_eq!(ch.output(), None);

    let mut ch = CH2::new();
    ch.write(0xFF16, 0x3F); // length counter = 1
    ch.write(0xFF17, 0xF0);
    ch.write(0xFF19, 0xC0); // trigger with length enabled
    assert!(ch.active());
    ch.clock_length();
    assert!(!ch.active());
}

#[test]
fn ch2_envelope_decays_to_zero() {
    let mut ch = CH2::new();
    ch.write(0xFF16, 0x00); // 12.5% duty: only step 7 is high
    ch.write(0xFF17, 0x21); // volume 2, decrease, period 1
    ch.write(0xFF18, 0xFF);
    ch.write(0xFF19, 0x87); // trigger, freq 0x7FF → period 4
    ch.step(7 * 4); // → step 7
    assert_eq!(ch.output(), Some(2));
    ch.clock_envelope();
    assert_eq!(ch.output(), Some(1));
    ch.clock_envelope();
    ch.clock_envelope();
    assert_eq!(ch.output(), Some(0));
}

#[test]
fn ch3_wave_ram_and_registers() {
    let mut ch = CH3::new();
    ch.write(0xFF30, 0xAB);
    ch.write(0xFF3F, 0xCD);
    assert_eq!(ch.read(0xFF30), 0xAB);
    assert_eq!(ch.read(0xFF3F), 0xCD);
    ch.write(0xFF1C, 0xFF);
    assert_eq!(ch.read(0xFF1C), 0xFF);
    ch.write(0xFF1A, 0x00);
    assert_eq!(ch.read(0xFF1A), 0x7F);
    ch.write(0xFF1A, 0x80);
    assert_eq!(ch.read(0xFF1A), 0xFF);
    assert_eq!(ch.read(0xFF1B), 0xFF);
    let _ = CH3::default();
}

#[test]
fn ch3_plays_nibbles_with_volume_shift() {
    let mut ch = CH3::new();
    ch.write(0xFF30, 0xF8); // samples 15, 8
    ch.write(0xFF1A, 0x80); // DAC on
    ch.write(0xFF1C, 0x20); // 100%
    ch.write(0xFF1D, 0x00);
    ch.write(0xFF1E, 0x87); // trigger, freq 0x700 → period 512
    assert!(ch.active());
    assert_eq!(ch.output(), Some(15));
    // Wave RAM is not readable while playing.
    assert_eq!(ch.read(0xFF30), 0xFF);
    ch.step(512);
    assert_eq!(ch.output(), Some(8));
    ch.write(0xFF1C, 0x40); // 50%
    assert_eq!(ch.output(), Some(4));
    ch.write(0xFF1C, 0x00); // mute
    assert_eq!(ch.output(), Some(0));
}

#[test]
fn ch4_noise_channel() {
    let mut ch = CH4::new();
    ch.write(0xFF21, 0xF3);
    assert_eq!(ch.read(0xFF21), 0xF3);
    ch.write(0xFF22, 0x5A);
    assert_eq!(ch.read(0xFF22), 0x5A);
    ch.write(0xFF23, 0xC0); // trigger with length enabled
    assert_eq!(ch.read(0xFF23), 0xFF);
    // LFSR starts at all ones: output bit 0 is inverted → silent level.
    assert_eq!(ch.output(), Some(0));
    ch.write(0xFF22, 0x00); // period 8
    ch.write(0xFF23, 0x80);
    ch.step(8); // one clock: 0x7FFF → 0x3FFF, bit 0 still 1
    assert_eq!(ch.output(), Some(0));
    let mut ch2 = CH4::new();
    ch2.write(0xFF21, 0xF0);
    ch2.write(0xFF23, 0x80);
    ch.step(1000);
    ch2.step(500);
    ch2.step(500);
    ch.clock_envelope();
    ch.clock_length();
    let _ = CH4::default();
}

#[test]
fn ch3_wave_ram_hidden_while_active() {
    let mut ch = CH3::new();
    ch.write(0xFF1A, 0x80); // DAC on
    ch.write(0xFF1E, 0x80); // trigger
    assert!(ch.active());
    ch.write(0xFF35, 0x5A);
    assert_eq!(ch.read(0xFF35), 0xFF);
    // DAC off turns the channel off; the written byte reads back.
    ch.write(0xFF1A, 0x00);
    assert!(!ch.active());
    assert_eq!(ch.read(0xFF35), 0x5A);
    // With the DAC off a trigger does not start the channel.
    ch.write(0xFF1E, 0x80);
    assert!(!ch.active());
    assert_eq!(ch.read(0xFF35), 0x5A);
}

#[test]
fn ch2_registers_survive_other_activity() {
    let mut ch = CH2::new();
    ch.write(0xFF17, 0xF3);
    ch.write(0xFF16, 0x80);
    ch.write(0xFF19, 0xC7); // trigger, length enable
    for _ in 0..10 {
        ch.step(1000);
        ch.clock_length();
        ch.clock_envelope();
    }
    ch.write(0xFF18, 0x55);
    assert_eq!(ch.read(0xFF17), 0xF3);
    assert_eq!(ch.read(0xFF16), 0xBF);
    assert_eq!(ch.read(0xFF19), 0xFF);
    assert_eq!(ch.read(0xFF18), 0xFF);
}

#[test]
fn ch4_registers_survive_other_activity() {
    let mut ch = CH4::new();
    ch.write(0xFF21, 0xA9);
    ch.write(0xFF22, 0x3C);
    ch.write(0xFF23, 0xC0); // trigger, length enable
    for _ in 0..10 {
        ch.step(5000);
        ch.clock_length();
        ch.clock_envelope();
    }
    ch.write(0xFF20, 0x3F);
    assert_eq!(ch.read(0xFF21), 0xA9);
    assert_eq!(ch.read(0xFF22), 0x3C);
    assert_eq!(ch.read(0xFF23), 0xFF);
    assert_eq!(ch.read(0xFF20), 0xFF);
}

#[test]
fn ch3_wave_byte_survives_until_rewritten() {
    let mut ch = CH3::new();
    ch.write(0xFF3A, 0x96);
    ch.write(0xFF1A, 0x80);
    ch.write(0xFF1B, 0xFF); // length 1
    ch.write(0xFF1E, 0xC0); // trigger, length enable
    assert_eq!(ch.read(0xFF3A), 0xFF); // hidden while active
    ch.step(3000);
    ch.write(0xFF39, 0x11);
    ch.clock_length(); // length runs out: channel off
    assert!(!ch.active());
    assert_eq!(ch.read(0xFF3A), 0x96);
}
