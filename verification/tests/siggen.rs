use stm32f3_oscilloscope::siggen::{
    siggen_set_freq, RAMP_8BIT, SIGGEN_INITIAL_RELOAD, SINE_12BIT, WAVE_SAMPLES,
};

#[test]
fn siggen_reload_for_table_frequencies() {
    assert_eq!(siggen_set_freq(1), 249_999);
    assert_eq!(siggen_set_freq(3), 83_332);
    assert_eq!(siggen_set_freq(10), 24_999);
    assert_eq!(siggen_set_freq(33), 7_574);
    assert_eq!(siggen_set_freq(100), 2_499);
    assert_eq!(siggen_set_freq(333), 749);
    assert_eq!(siggen_set_freq(1_000), 249);
    assert_eq!(siggen_set_freq(3_333), 74);
    assert_eq!(siggen_set_freq(10_000), 24);
}

#[test]
fn siggen_reload_is_clamped_to_one() {
    assert_eq!(siggen_set_freq(83_333), 2);
    assert_eq!(siggen_set_freq(83_334), 1);
    assert_eq!(siggen_set_freq(125_000), 1);
    assert_eq!(siggen_set_freq(125_001), 1);
    assert_eq!(siggen_set_freq(250_000), 1);
    assert_eq!(siggen_set_freq(250_001), 1);
    assert_eq!(siggen_set_freq(72_000_000), 1);
    assert_eq!(siggen_set_freq(u32::MAX), 1);
}

#[test]
fn siggen_reload_is_never_zero() {
    let mut freq: u32 = 1;
    loop {
        assert!(siggen_set_freq(freq) >= 1);
        match freq.checked_mul(3) {
            Some(next) => freq = next,
            None => break,
        }
    }
}

#[test]
fn siggen_starts_at_one_kilohertz() {
    assert_eq!(SIGGEN_INITIAL_RELOAD, siggen_set_freq(1_000));
}

#[test]
fn sine_table_is_the_published_one() {
    let expected: [u16; 144] = [
        2047, 2136, 2225, 2314, 2402, 2490, 2577, 2663, 2747, 2830, 2912, 2992, 3071, 3147, 3221,
        3293, 3363, 3430, 3494, 3556, 3615, 3671, 3724, 3773, 3820, 3863, 3902, 3938, 3971, 3999,
        4024, 4045, 4063, 4076, 4086, 4092, 4094, 4092, 4086, 4076, 4063, 4045, 4024, 3999, 3971,
        3938, 3902, 3863, 3820, 3773, 3724, 3671, 3615, 3556, 3494, 3430, 3363, 3293, 3221, 3147,
        3071, 2992, 2912, 2830, 2747, 2663, 2577, 2490, 2402, 2314, 2225, 2136, 2047, 1958, 1869,
        1780, 1692, 1604, 1517, 1431, 1347, 1264, 1182, 1102, 1023, 947, 873, 801, 731, 664, 600,
        538, 479, 423, 370, 321, 274, 231, 192, 156, 123, 95, 70, 49, 31, 18, 8, 2, 0, 2, 8, 18,
        31, 49, 70, 95, 123, 156, 192, 231, 274, 321, 370, 423, 479, 538, 600, 664, 731, 801, 873,
        947, 1024, 1102, 1182, 1264, 1347, 1431, 1517, 1604, 1692, 1780, 1869, 1958,
    ];
    assert_eq!(WAVE_SAMPLES, 144);
    assert_eq!(SINE_12BIT, expected);
}

#[test]
fn sine_table_fits_twelve_bits_and_peaks_at_the_quarters() {
    for i in 0..144 {
        assert!(SINE_12BIT[i] <= 4094);
    }
    assert_eq!(SINE_12BIT[0], 2047);
    assert_eq!(SINE_12BIT[36], 4094);
    assert_eq!(SINE_12BIT[72], 2047);
    assert_eq!(SINE_12BIT[108], 0);
}

#[test]
fn ramp_table_is_the_published_one() {
    let expected: [u8; 144] = [
        0, 2, 4, 5, 7, 9, 11, 12, 14, 16, 18, 20, 21, 23, 25, 27, 29, 30, 32, 34, 36, 37, 39, 41,
        43, 45, 46, 48, 50, 52, 53, 55, 57, 59, 61, 62, 64, 66, 68, 70, 71, 73, 75, 77, 78, 80,
        82, 84, 86, 87, 89, 91, 93, 95, 96, 98, 100, 102, 103, 105, 107, 109, 111, 112, 114, 116,
        118, 119, 121, 123, 125, 127, 128, 130, 132, 134, 136, 137, 139, 141, 143, 144, 146, 148,
        150, 152, 153, 155, 157, 159, 160, 162, 164, 166, 168, 169, 171, 173, 175, 177, 178, 180,
        182, 184, 185, 187, 189, 191, 193, 194, 196, 198, 200, 202, 203, 205, 207, 209, 210, 212,
        214, 216, 218, 219, 221, 223, 225, 226, 228, 230, 232, 234, 235, 237, 239, 241, 243, 244,
        246, 248, 250, 251, 253, 255,
    ];
    assert_eq!(RAMP_8BIT, expected);
}

#[test]
fn ramp_table_is_linear() {
    for i in 0..144usize {
        assert_eq!(RAMP_8BIT[i] as usize, (510 * i + 143) / 286);
    }
}

#[test]
fn sine_table_rises_and_falls_once() {
    for i in 0..143 {
        if i < 36 || i >= 108 {
            assert!(SINE_12BIT[i] < SINE_12BIT[i + 1], "entry {}", i);
        } else {
            assert!(SINE_12BIT[i] > SINE_12BIT[i + 1], "entry {}", i);
        }
    }
    assert!(SINE_12BIT[143] < SINE_12BIT[0]);
}
