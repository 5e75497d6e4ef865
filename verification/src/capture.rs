//! Input capture: the timer that paces the converter and the block transfer
//! that carries one sweep of samples into memory.

use vstd::prelude::*;

verus! {

/// Number of samples in one sweep, one per display column.
pub const SWEEP_SAMPLES: usize = 160;

/// Frequency of the clock that feeds the trigger timer, in hertz.
pub const TIMER_CLOCK_HZ: u32 = 72_000_000;

/// Highest sample rate that is still served by the slow regime.
pub const SLOW_RATE_LIMIT: u32 = 1097;

/// Divider applied to the timer clock in the slow regime.
pub const SLOW_DIVIDER: u32 = 2250;

/// What the converter does with a sample that arrives before the one
/// before it has been carried away: it keeps the new sample and drops the
/// old. The trace then shows the latest level, and the overrun flag tells
/// that a sample was lost.
pub const KEEP_NEWEST_ON_OVERRUN: bool = true;

/// Reload and prescale values of the trigger timer.
#[derive(Clone, Copy, Debug, PartialEq, Eq)]
pub struct Timebase {
    /// Auto-reload value: the timer fires every `reload + 1` prescaled clocks.
    pub reload: u32,
    /// Prescaler value: the timer counts every `prescale + 1` clocks.
    pub prescale: u16,
}

/// The reload value for a sample rate: the timer clock, divided down in the
/// slow regime, over the rate, less one.
pub open spec fn timebase_reload(samples_per_second: int) -> int {
    if samples_per_second > 1097 {
        72_000_000int / samples_per_second - 1
    } else {
        (72_000_000int / 2250) / samples_per_second - 1
    }
}

/// The prescale value for a sample rate: none in the fast regime, the slow
/// divider less one in the slow regime.
pub open spec fn timebase_prescale(samples_per_second: int) -> int {
    if samples_per_second > 1097 {
        0
    } else {
        2249
    }
}

/// Timer settings for the given number of samples per second.
///
/// The rate must be positive and no higher than the timer clock, so that the
/// reload value exists.
pub fn set_timebase(samples_per_second: u32) -> (t: Timebase)
    requires
        1 <= samples_per_second <= 72_000_000,
    ensures
        t.reload == timebase_reload(samples_per_second as int),
        t.prescale == timebase_prescale(samples_per_second as int),
{
    if samples_per_second > SLOW_RATE_LIMIT {
        let ticks: u32 = TIMER_CLOCK_HZ / samples_per_second;
        assert(ticks >= 1) by (nonlinear_arith)
            requires
                ticks == 72_000_000u32 / samples_per_second,
                1 <= samples_per_second <= 72_000_000,
        ;
        Timebase { reload: ticks - 1, prescale: 0 }
    } else {
        let ticks: u32 = (TIMER_CLOCK_HZ / SLOW_DIVIDER) / samples_per_second;
        assert(ticks >= 1) by (nonlinear_arith)
            requires
                ticks == 32_000u32 / samples_per_second,
                1 <= samples_per_second <= 1097,
        ;
        Timebase { reload: ticks - 1, prescale: 2249 }
    }
}

/// The settings that the trigger timer is given when the capture is set up,
/// before any timebase is chosen: a prescaler of 72 and a period of 1000.
pub open spec fn spec_initial_timebase() -> Timebase {
    Timebase { reload: 999, prescale: 71 }
}

/// The settings that the trigger timer is given when the capture is set up.
pub fn initial_timebase() -> (t: Timebase)
    ensures
        t == spec_initial_timebase(),
{
    Timebase { reload: 999, prescale: 71 }
}

/// Number of timer clocks from one conversion to the next under settings
/// `t`.
pub open spec fn clocks_per_sample(t: Timebase) -> int {
    (t.reload + 1) * (t.prescale + 1)
}

/// The timer as set up triggers a thousand conversions a second: 72 000
/// clocks of 72 MHz pass from one to the next.
pub proof fn lemma_initial_timebase_is_1khz()
    ensures
        clocks_per_sample(spec_initial_timebase()) == 72_000,
{
    let t = spec_initial_timebase();
    assert((t.reload + 1) * (t.prescale + 1) == 72_000) by (nonlinear_arith)
        requires
            t.reload == 999,
            t.prescale == 71,
    ;
}

/// The number of samples that the transfer has brought so far, given the
/// number `remaining` that it still has to bring: a sweep less what remains.
pub fn get_transferred_sample_count(remaining: u16) -> (count: usize)
    requires
        remaining <= 160,
    ensures
        count == 160 - remaining,
{
    SWEEP_SAMPLES - remaining as usize
}

/// The reload value is never negative. In the slow regime it stays below
/// 32 000, and in the fast regime it fits the sixteen bits of the timer for
/// every rate from 1099 samples per second up. The one rate between, 1098,
/// asks for a reload of 65 572, which sixteen bits do not hold.
pub proof fn lemma_timebase_bounds(samples_per_second: int)
    requires
        1 <= samples_per_second <= 72_000_000,
    ensures
        0 <= timebase_reload(samples_per_second) < 72_000_000,
        samples_per_second <= 1097 ==> timebase_reload(samples_per_second) < 32_000,
        samples_per_second == 1098 ==> timebase_reload(samples_per_second) == 65_572,
        samples_per_second >= 1099 ==> timebase_reload(samples_per_second) <= 65_535,
{
    let r = samples_per_second;
    if r > 1097 {
        assert(1 <= 72_000_000int / r <= 72_000_000) by (nonlinear_arith)
            requires
                1 <= r <= 72_000_000,
        ;
        if r >= 1099 {
            assert(72_000_000int / r <= 65_536) by (nonlinear_arith)
                requires
                    r >= 1099,
            ;
        }
    } else {
        assert(1 <= 32_000int / r <= 32_000) by (nonlinear_arith)
            requires
                1 <= r <= 1097,
        ;
    }
}

} // verus!
