use gb::noise::{generate_noise_15_bit, generate_noise_7_bit, generate_noise_array, sound_rng};

#[test]
fn one_step_of_the_shift_register() {
    assert_eq!(sound_rng(0x7F, 0b1000001), 0x3F ^ 0b1000001);
    assert_eq!(sound_rng(0x7E, 0b1000001), 0x3F);
    assert_eq!(sound_rng(0, 0b1000001), 0);
}

#[test]
fn seven_bit_pattern_is_one_period() {
    let (pattern, closed) = generate_noise_7_bit();
    assert!(closed);
    assert_eq!(pattern.len(), 127);
    assert_eq!(pattern[0], 1);
    assert!(pattern.iter().all(|&b| b <= 1));
    // A maximal 7-bit sequence holds 64 ones and 63 zeros.
    assert_eq!(pattern.iter().filter(|&&b| b == 1).count(), 64);
}

#[test]
fn fifteen_bit_pattern_is_one_period() {
    let (pattern, closed) = generate_noise_15_bit();
    assert!(closed);
    assert_eq!(pattern.len(), 32767);
    assert_eq!(pattern.iter().filter(|&&b| b == 1).count(), 16384);
}

#[test]
fn a_short_array_does_not_close_the_period() {
    let mut out = [0u8; 10];
    assert!(!generate_noise_array(&mut out, 0b1000001, 7));
    assert_eq!(out[0], 1);
}
