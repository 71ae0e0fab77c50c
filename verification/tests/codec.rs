use tsc2046::{command_word, decode_sample, derive_touch, Axes, TouchPoint};

#[test]
fn command_word_matches_the_documented_table() {
    assert_eq!(command_word(Axes::X, false), 0b11010011);
    assert_eq!(command_word(Axes::Y, false), 0b10010011);
    assert_eq!(command_word(Axes::Z1, false), 0b10110011);
    assert_eq!(command_word(Axes::Z2, false), 0b11000011);
    assert_eq!(command_word(Axes::X, true), 0b11010000);
    assert_eq!(command_word(Axes::Y, true), 0b10010000);
    assert_eq!(command_word(Axes::Z1, true), 0b10110000);
    assert_eq!(command_word(Axes::Z2, true), 0b11000000);
}

#[test]
fn ctrl_bits_select_each_channel() {
    assert_eq!(Axes::X.ctrl_bits(), 0b01010000);
    assert_eq!(Axes::Y.ctrl_bits(), 0b00010000);
    assert_eq!(Axes::Z1.ctrl_bits(), 0b00110000);
    assert_eq!(Axes::Z2.ctrl_bits(), 0b01000000);
}

#[test]
fn decode_sample_round_trips_every_12_bit_value() {
    let mut value: u16 = 0;
    while value < 0x1000 {
        let high = (value >> 5) as u8;
        let low = (value << 3) as u8;
        assert_eq!(decode_sample(high, low), value);
        value += 1;
    }
}

#[test]
fn decode_sample_ignores_the_trailing_dont_care_bits() {
    // The 3 low bits of the 16-bit reply window are don't-care.
    assert_eq!(decode_sample(0x00, 0x07), 0);
    assert_eq!(decode_sample(0xFF, 0xFF), 0xFFF);
    assert_eq!(decode_sample(0x12, 0xAF), ((0x12AFu16 >> 3) & 0xFFF));
}

#[test]
fn derive_touch_computes_the_documented_pressure_figure() {
    // z = 100 / 4096 * (2053 / 5 - 1), exactly 10.0 in single precision.
    let expected = TouchPoint {
        x: 100,
        y: 100,
        z: 10.0f32.to_bits(),
    };
    assert_eq!(
        derive_touch(100, 100, 5, 2053, 100.0f32.to_bits()),
        Some(expected)
    );
}

#[test]
fn derive_touch_rejects_a_figure_at_or_above_the_threshold() {
    assert_eq!(derive_touch(100, 100, 5, 2053, 10.0f32.to_bits()), None);
    assert_eq!(derive_touch(100, 100, 5, 2053, 5.0f32.to_bits()), None);
}

#[test]
fn derive_touch_handles_a_zero_pressure1_sample() {
    // Division by zero flows through IEEE-754: infinity (or NaN when the
    // other samples are zero too) never compares below the threshold.
    assert_eq!(derive_touch(100, 100, 0, 2053, f32::MAX.to_bits()), None);
    assert_eq!(derive_touch(0, 0, 0, 0, f32::INFINITY.to_bits()), None);
}

#[test]
fn derive_touch_never_registers_a_nan_threshold() {
    assert_eq!(derive_touch(100, 100, 5, 2053, f32::NAN.to_bits()), None);
}

#[test]
fn derive_touch_accepts_a_negative_figure_below_the_threshold() {
    // z2 below z1 makes the ratio less than one and the figure negative.
    let r = derive_touch(100, 100, 2053, 5, 0.0f32.to_bits());
    match r {
        Some(tp) => {
            assert_eq!(tp.x, 100);
            assert_eq!(tp.y, 100);
            assert!(f32::from_bits(tp.z) < 0.0);
        }
        None => panic!("a negative pressure figure must register as a touch"),
    }
}
