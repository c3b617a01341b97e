use ay_psg::Psg;

const LEVELS: [u16; 16] = [
    5, 7, 12, 20, 33, 55, 91, 150, 247, 408, 672, 1109, 1828, 3014, 4969, 8192,
];

/// Selects `reg` and writes `value` through the normal port sequence.
fn poke(psg: &mut Psg, reg: u8, value: u8) {
    psg.select_reg(reg);
    psg.write_reg(value);
}

/// Collects `n` samples with a fixed tick delta.
fn run(psg: &mut Psg, t: u32, n: usize) -> Vec<u16> {
    let mut out = Vec::new();
    for _ in 0..n {
        out.push(psg.next_sample(t));
    }
    out
}

#[test]
fn read_back_masking_four_bit() {
    let mut psg = Psg::new();
    poke(&mut psg, 1, 0xff);
    assert_eq!(psg.read_reg(), 0x0f);
    poke(&mut psg, 0, 0xff);
    assert_eq!(psg.read_reg(), 0xff);
}

#[test]
fn read_back_masking_all_registers() {
    let mut psg = Psg::new();
    for reg in 0..16u8 {
        poke(&mut psg, reg, 0xff);
        let expected = match reg {
            0x01 | 0x03 | 0x05 | 0x0d => 0x0f,
            0x06 | 0x08 | 0x09 | 0x0a => 0x1f,
            _ => 0xff,
        };
        assert_eq!(psg.read_reg(), expected, "register {}", reg);
    }
}

#[test]
fn select_out_of_range_is_ignored() {
    let mut psg = Psg::new();
    poke(&mut psg, 2, 0xab);
    psg.select_reg(16);
    assert_eq!(psg.read_reg(), 0xab);
    psg.select_reg(0xff);
    assert_eq!(psg.read_reg(), 0xab);
    psg.select_reg(15);
    psg.write_reg(0x55);
    assert_eq!(psg.read_reg(), 0x55);
}

#[test]
fn zero_frequency_behaves_as_one() {
    // Tone A only (plus the two always-on idle channels at volume zero):
    // frequency zero and frequency one must produce identical samples.
    let mut with_zero = Psg::new();
    let mut with_one = Psg::new();
    for psg in [&mut with_zero, &mut with_one] {
        poke(psg, 7, 0x3e); // tone A enabled, everything else off
        poke(psg, 8, 0x0f);
    }
    poke(&mut with_zero, 0, 0);
    poke(&mut with_one, 0, 1);
    assert_eq!(run(&mut with_zero, 5, 200), run(&mut with_one, 5, 200));

    // Same for the noise frequency ...
    let mut with_zero = Psg::new();
    let mut with_one = Psg::new();
    for psg in [&mut with_zero, &mut with_one] {
        poke(psg, 7, 0x37); // noise into A, everything else off
        poke(psg, 8, 0x0f);
    }
    poke(&mut with_zero, 6, 0);
    poke(&mut with_one, 6, 1);
    assert_eq!(run(&mut with_zero, 5, 200), run(&mut with_one, 5, 200));

    // ... and for the envelope frequency.
    let mut with_zero = Psg::new();
    let mut with_one = Psg::new();
    for psg in [&mut with_zero, &mut with_one] {
        poke(psg, 7, 0xff);
        poke(psg, 8, 0x10); // channel A in envelope mode
        poke(psg, 13, 8);
    }
    poke(&mut with_zero, 11, 0);
    poke(&mut with_one, 11, 1);
    assert_eq!(run(&mut with_zero, 5, 200), run(&mut with_one, 5, 200));
}

#[test]
fn idle_channels_always_contribute() {
    // With tone and noise both disabled everywhere, each channel plays its
    // volume unconditionally, whatever the tick delta.
    let mut psg = Psg::new();
    poke(&mut psg, 7, 0xff);
    for t in [1, 5, 16, 33, 1000, 100_000] {
        assert_eq!(psg.next_sample(t), 3 * LEVELS[0]);
    }
    poke(&mut psg, 8, 3);
    poke(&mut psg, 9, 7);
    poke(&mut psg, 10, 15);
    for t in [1, 5, 16, 33, 1000, 100_000] {
        assert_eq!(psg.next_sample(t), LEVELS[3] + LEVELS[7] + LEVELS[15]);
    }
}

#[test]
fn volume_table_is_exact() {
    // Channel A sweeps the sixteen levels; B and C idle at level zero.
    let mut psg = Psg::new();
    poke(&mut psg, 7, 0xff);
    for i in 0..16u8 {
        poke(&mut psg, 8, i);
        assert_eq!(
            psg.next_sample(1),
            LEVELS[i as usize] + 2 * LEVELS[0],
            "volume index {}",
            i
        );
    }
}

#[test]
fn tone_half_period_square_wave() {
    // Frequency 2 gives a divisor of 64 ticks: sampled every 16 ticks the
    // output is high for the first quarter of the four-call cycle only
    // (the boundary phase equal to half the divisor already reads low).
    let mut psg = Psg::new();
    poke(&mut psg, 7, 0x3e); // tone A enabled, everything else off
    poke(&mut psg, 8, 0x0f);
    poke(&mut psg, 0, 2);
    let base = 2 * LEVELS[0];
    let high = base + LEVELS[15];
    assert_eq!(
        run(&mut psg, 16, 8),
        vec![high, base, base, base, high, base, base, base]
    );
}

#[test]
fn coarse_tone_register_keeps_four_bits() {
    // The coarse byte contributes only its low nibble to the 12-bit period,
    // so 0x11 and 0x01 configure the same oscillator.
    let mut masked = Psg::new();
    let mut plain = Psg::new();
    for psg in [&mut masked, &mut plain] {
        poke(psg, 7, 0x3e);
        poke(psg, 8, 0x0f);
        poke(psg, 0, 0);
    }
    poke(&mut masked, 1, 0x11);
    poke(&mut plain, 1, 0x01);
    assert_eq!(run(&mut masked, 4093, 64), run(&mut plain, 4093, 64));
}

#[test]
fn envelope_repeat_ramp_down() {
    // Shape 8 with frequency 1: one period crossing per 33-tick call, and
    // the level ramps 14, 13, ..., 0, then wraps to 15 and keeps cycling.
    let mut psg = Psg::new();
    poke(&mut psg, 7, 0xff);
    poke(&mut psg, 8, 0x10); // channel A follows the envelope
    poke(&mut psg, 11, 1);
    poke(&mut psg, 12, 0);
    poke(&mut psg, 13, 8);
    let base = 2 * LEVELS[0];
    let expected: Vec<u16> = [
        14, 13, 12, 11, 10, 9, 8, 7, 6, 5, 4, 3, 2, 1, 0, 15, 14, 13,
    ]
    .iter()
    .map(|&lvl: &usize| LEVELS[lvl] + base)
    .collect();
    assert_eq!(run(&mut psg, 33, 18), expected);
}

#[test]
fn envelope_one_shot_ramp_down_holds_low() {
    // Shape 0 ramps down once and then holds at level zero.
    let mut psg = Psg::new();
    poke(&mut psg, 7, 0xff);
    poke(&mut psg, 8, 0x10);
    poke(&mut psg, 11, 1);
    poke(&mut psg, 13, 0);
    let base = 2 * LEVELS[0];
    let got = run(&mut psg, 33, 24);
    assert_eq!(got[0], LEVELS[14] + base);
    assert_eq!(got[14], LEVELS[0] + base);
    for i in 15..24 {
        assert_eq!(got[i], LEVELS[0] + base, "call {}", i);
    }
}

#[test]
fn envelope_ramp_up_holds_high() {
    // Shape 0x0d ramps up once and then holds at level fifteen.
    let mut psg = Psg::new();
    poke(&mut psg, 7, 0xff);
    poke(&mut psg, 8, 0x10);
    poke(&mut psg, 11, 1);
    poke(&mut psg, 13, 0x0d);
    let base = 2 * LEVELS[0];
    let got = run(&mut psg, 33, 24);
    assert_eq!(got[0], LEVELS[1] + base);
    assert_eq!(got[13], LEVELS[14] + base);
    assert_eq!(got[14], LEVELS[15] + base);
    for i in 15..24 {
        assert_eq!(got[i], LEVELS[15] + base, "call {}", i);
    }
}

#[test]
fn envelope_shape_register_keeps_four_bits() {
    // Only the low nibble of the shape byte selects a shape.
    let mut masked = Psg::new();
    let mut plain = Psg::new();
    for psg in [&mut masked, &mut plain] {
        poke(psg, 7, 0xff);
        poke(psg, 8, 0x10);
        poke(psg, 11, 1);
    }
    poke(&mut masked, 13, 0xf8);
    poke(&mut plain, 13, 0x08);
    assert_eq!(run(&mut masked, 33, 40), run(&mut plain, 33, 40));
}

#[test]
fn noise_regression_sequence() {
    // Noise into channel A only, at full volume: with the power-on shift
    // register value and one period crossing per call, the level is high for
    // exactly the first sixteen crossings and then drops.
    let mut psg = Psg::new();
    poke(&mut psg, 7, 0x37); // noise into A, everything else off
    poke(&mut psg, 8, 0x0f);
    poke(&mut psg, 6, 1);
    let base = 2 * LEVELS[0];
    let on = base + LEVELS[15];
    let got = run(&mut psg, 33, 20);
    let mut expected = vec![on; 16];
    expected.extend_from_slice(&[base, base, base, base]);
    assert_eq!(got, expected);
}

#[test]
fn noise_is_deterministic() {
    let mut first = Psg::new();
    let mut second = Psg::new();
    for psg in [&mut first, &mut second] {
        poke(psg, 7, 0x37);
        poke(psg, 8, 0x0f);
        poke(psg, 6, 3);
    }
    assert_eq!(run(&mut first, 50, 300), run(&mut second, 50, 300));
}

#[test]
fn snapshot_layout() {
    let mut psg = Psg::new();
    for reg in 0..16u8 {
        poke(&mut psg, reg, 0x20 + reg);
    }
    psg.select_reg(9);
    let snap = psg.snapshot();
    assert_eq!(snap.len(), 17);
    assert_eq!(snap[0], 9);
    for reg in 0..16u8 {
        // Registers store the full byte; masking happens only on read.
        assert_eq!(snap[1 + reg as usize], 0x20 + reg);
    }
}

#[test]
fn snapshot_round_trip_reproduces_samples() {
    let mut original = Psg::new();
    poke(&mut original, 0, 0x34);
    poke(&mut original, 1, 0x02);
    poke(&mut original, 2, 0x80);
    poke(&mut original, 4, 0x19);
    poke(&mut original, 5, 0x01);
    poke(&mut original, 6, 0x0b);
    poke(&mut original, 7, 0x2c);
    poke(&mut original, 8, 0x10);
    poke(&mut original, 9, 0x0d);
    poke(&mut original, 10, 0x07);
    poke(&mut original, 11, 0x40);
    poke(&mut original, 12, 0x01);
    poke(&mut original, 13, 0x0e);
    original.select_reg(5);

    let snap = original.snapshot();
    let mut restored = Psg::load_snapshot(&snap);
    assert_eq!(restored.snapshot(), snap);
    for t in [7, 16, 33, 100, 257] {
        assert_eq!(run(&mut original, t, 100), run(&mut restored, t, 100));
    }
}

#[test]
fn fresh_controller_matches_restored_copy_in_envelope_mode() {
    // A controller whose envelope registers were never written still equals
    // the replay of its own snapshot: the power-on envelope state is the
    // shape-zero ramp that the zeroed registers decode to, so switching a
    // channel to envelope mode shows no difference.
    let mut original = Psg::new();
    poke(&mut original, 7, 0xff);
    poke(&mut original, 8, 0x10);
    let snap = original.snapshot();
    let mut restored = Psg::load_snapshot(&snap);
    let a = run(&mut original, 33, 40);
    let b = run(&mut restored, 33, 40);
    assert_eq!(a, b);
    assert_eq!(a[0], LEVELS[14] + 2 * LEVELS[0]);
}

#[test]
fn snapshot_of_fresh_controller_round_trips() {
    let psg = Psg::new();
    let snap = psg.snapshot();
    assert_eq!(snap, vec![0u8; 17]);
    let restored = Psg::load_snapshot(&snap);
    assert_eq!(restored.snapshot(), snap);
}
