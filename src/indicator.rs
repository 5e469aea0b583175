use vstd::prelude::*;
use crate::cell::{may_access, LockError, SharedCell};
use crate::priority::TaskPriority;

verus! {

/// Period of the indicator at rate zero, in milliseconds.
pub const BASE_PERIOD_MS: u32 = 1000;

/// The two indicator outputs, driven in alternation.
#[derive(Clone, Copy, Debug, PartialEq, Eq, Structural)]
pub struct IndicatorLeds {
    pub led1: bool,
    pub led2: bool,
}

/// One run of the indicator task: what to set the outputs to, and after how
/// many milliseconds to run again.
#[derive(Clone, Copy, Debug, PartialEq, Eq, Structural)]
pub struct BlinkStep {
    pub leds: IndicatorLeds,
    pub delay_ms: u32,
}

pub open spec fn spec_delay_ms(rate: u8) -> int {
    BASE_PERIOD_MS as int / (rate as int + 1)
}

/// Delay before the indicator runs again: `1000 / (rate + 1)` milliseconds.
pub fn blink_delay_ms(rate: u8) -> (d: u32)
    ensures
        d as int == spec_delay_ms(rate),
        d <= BASE_PERIOD_MS,
{
    let d = BASE_PERIOD_MS / (rate as u32 + 1);
    proof {
        assert(BASE_PERIOD_MS as int / (rate as int + 1) <= BASE_PERIOD_MS as int) by (nonlinear_arith)
            requires
                rate as int + 1 >= 1,
        ;
    }
    d
}

/// Next state of the outputs: the first takes the opposite of its current
/// state and the second takes the first's current state, so the two
/// alternate.
pub fn toggle_leds(led1_high: bool) -> (leds: IndicatorLeds)
    ensures
        leds.led1 == !led1_high,
        leds.led2 == led1_high,
{
    IndicatorLeds { led1: !led1_high, led2: led1_high }
}

/// One run of the indicator task at priority `prio`: toggles the outputs and
/// computes the next delay from the rate read through the cell's lock.
pub fn blink(led1_high: bool, rate: &SharedCell<u8>, prio: &TaskPriority) -> (r: Result<
    BlinkStep,
    LockError,
>)
    ensures
        may_access(rate@.1, prio.spec_level()) ==> r == Ok::<BlinkStep, LockError>(
            BlinkStep {
                leds: IndicatorLeds { led1: !led1_high, led2: led1_high },
                delay_ms: spec_delay_ms(rate@.0) as u32,
            },
        ),
        !may_access(rate@.1, prio.spec_level()) ==> r == Err::<BlinkStep, LockError>(
            LockError::AboveCeiling { caller: prio.spec_level(), ceiling: rate@.1 },
        ),
{
    let leds = toggle_leds(led1_high);
    match rate.read(prio) {
        Ok(k) => Ok(BlinkStep { leds, delay_ms: blink_delay_ms(*k) }),
        Err(e) => Err(e),
    }
}

} // verus!
