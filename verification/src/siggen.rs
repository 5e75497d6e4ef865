//! The signal generator: two wave tables that a circular block transfer
//! streams to the two converter outputs, and the timer that paces it.

use vstd::prelude::*;

verus! {

/// Number of entries in each wave table: one period of the output.
pub const WAVE_SAMPLES: usize = 144;

/// One period of a sine wave, in 12-bit converter steps around mid-scale.
pub const SINE_12BIT: [u16; 144] = [
    2047, 2136, 2225, 2314, 2402, 2490, 2577, 2663, 2747, 2830, 2912, 2992,
    3071, 3147, 3221, 3293, 3363, 3430, 3494, 3556, 3615, 3671, 3724, 3773,
    3820, 3863, 3902, 3938, 3971, 3999, 4024, 4045, 4063, 4076, 4086, 4092,
    4094, 4092, 4086, 4076, 4063, 4045, 4024, 3999, 3971, 3938, 3902, 3863,
    3820, 3773, 3724, 3671, 3615, 3556, 3494, 3430, 3363, 3293, 3221, 3147,
    3071, 2992, 2912, 2830, 2747, 2663, 2577, 2490, 2402, 2314, 2225, 2136,
    2047, 1958, 1869, 1780, 1692, 1604, 1517, 1431, 1347, 1264, 1182, 1102,
    1023,  947,  873,  801,  731,  664,  600,  538,  479,  423,  370,  321,
     274,  231,  192,  156,  123,   95,   70,   49,   31,   18,    8,    2,
       0,    2,    8,   18,   31,   49,   70,   95,  123,  156,  192,  231,
     274,  321,  370,  423,  479,  538,  600,  664,  731,  801,  873,  947,
    1024, 1102, 1182, 1264, 1347, 1431, 1517, 1604, 1692, 1780, 1869, 1958,
];

/// One period of a rising ramp, in 8-bit converter steps.
pub const RAMP_8BIT: [u8; 144] = [
      0,   2,   4,   5,   7,   9,  11,  12,  14,  16,  18,  20,
     21,  23,  25,  27,  29,  30,  32,  34,  36,  37,  39,  41,
     43,  45,  46,  48,  50,  52,  53,  55,  57,  59,  61,  62,
     64,  66,  68,  70,  71,  73,  75,  77,  78,  80,  82,  84,
     86,  87,  89,  91,  93,  95,  96,  98, 100, 102, 103, 105,
    107, 109, 111, 112, 114, 116, 118, 119, 121, 123, 125, 127,
    128, 130, 132, 134, 136, 137, 139, 141, 143, 144, 146, 148,
    150, 152, 153, 155, 157, 159, 160, 162, 164, 166, 168, 169,
    171, 173, 175, 177, 178, 180, 182, 184, 185, 187, 189, 191,
    193, 194, 196, 198, 200, 202, 203, 205, 207, 209, 210, 212,
    214, 216, 218, 219, 221, 223, 225, 226, 228, 230, 232, 234,
    235, 237, 239, 241, 243, 244, 246, 248, 250, 251, 253, 255,
];

/// Frequency of the clock on which the generator's timebase is worked out,
/// in hertz.
pub const SIGGEN_CLOCK_HZ: u32 = 36_000_000;

/// Reload value of the pacing timer when the generator is set up, before
/// any frequency is chosen.
pub const SIGGEN_INITIAL_RELOAD: u32 = 249;

/// The reload value of the pacing timer for an output of `freq` periods per
/// second: the clock over the table length over the frequency, less one, and
/// never below one.
pub open spec fn siggen_reload(freq: int) -> int {
    let reload = 36_000_000int / 144 / freq - 1;
    if reload >= 1 {
        reload
    } else {
        1
    }
}

/// The reload value of the pacing timer that makes the generator put out
/// `freq` periods per second. However high the frequency, the value is at
/// least one.
pub fn siggen_set_freq(freq: u32) -> (reload: u32)
    requires
        freq > 0,
    ensures
        reload == siggen_reload(freq as int),
        reload >= 1,
{
    let steps: u32 = SIGGEN_CLOCK_HZ / 144 / freq;
    if steps >= 2 {
        steps - 1
    } else {
        1
    }
}

/// Whatever the frequency, the reload value is at least one: the pacing
/// timer is never stopped by a reload of zero.
pub proof fn lemma_siggen_reload_positive(freq: int)
    ensures
        siggen_reload(freq) >= 1,
{
}

/// Every entry of the sine table fits the twelve bits of the converter.
pub proof fn lemma_sine_in_range(i: int)
    requires
        0 <= i < 144,
    ensures
        SINE_12BIT[i] <= 4094,
{
}

/// The sine table holds one period that starts at mid-scale: it rises to
/// its peak of 4094 after a quarter of the period, falls through mid-scale
/// at the half to zero at three quarters, and rises again towards
/// mid-scale, step by step without a pause.
pub proof fn lemma_sine_shape(i: int)
    requires
        0 <= i < 143,
    ensures
        SINE_12BIT[0] == 2047,
        SINE_12BIT[36] == 4094,
        SINE_12BIT[72] == 2047,
        SINE_12BIT[108] == 0,
        SINE_12BIT[143] < SINE_12BIT[0],
        i < 36 || i >= 108 ==> SINE_12BIT[i] < SINE_12BIT[i + 1],
        36 <= i < 108 ==> SINE_12BIT[i] > SINE_12BIT[i + 1],
{
}

/// The ramp rises evenly from zero to full scale: entry `i` is `255 * i /
/// 143`, rounded to the nearest step.
pub proof fn lemma_ramp_is_linear(i: int)
    requires
        0 <= i < 144,
    ensures
        RAMP_8BIT[i] == (510 * i + 143) / 286,
{
}

} // verus!
