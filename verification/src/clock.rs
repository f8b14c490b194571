use vstd::prelude::*;
use crate::errors::{ConfigError, StartupError};

verus! {

/// The highest system clock the target runs at.
pub const MAX_SYSCLK_HZ: u32 = 72_000_000;

/// The highest clock the slow peripheral bus accepts.
pub const MAX_APB1_HZ: u32 = 36_000_000;

/// The lowest and highest external crystal the oscillator accepts.
pub const MIN_HSE_HZ: u32 = 4_000_000;

pub const MAX_HSE_HZ: u32 = 16_000_000;

/// A clock-tree plan: the external crystal and the divider/multiplier
/// chain that derives every bus clock from it.
#[derive(Debug)]
pub struct ClockPlan {
    /// External crystal frequency.
    pub hse_hz: u32,
    /// Divider between the crystal and the multiplier input.
    pub pll_prediv: u32,
    /// Multiplier from the divided crystal to the system clock.
    pub pll_mul: u32,
    /// Divider from the system clock to the core bus.
    pub ahb_div: u32,
    /// Divider from the core bus to the slow peripheral bus.
    pub apb1_div: u32,
    /// Divider from the core bus to the fast peripheral bus.
    pub apb2_div: u32,
}

/// The bus frequencies a valid plan produces, plus the flash wait
/// states the system clock demands.
#[derive(Debug)]
pub struct SystemClocks {
    pub sysclk_hz: u32,
    pub ahb_hz: u32,
    pub apb1_hz: u32,
    pub apb2_hz: u32,
    pub flash_wait_states: u8,
}

/// The system clock a plan produces.
pub open spec fn sysclk_of(p: ClockPlan) -> int {
    (p.hse_hz as int / p.pll_prediv as int) * p.pll_mul as int
}

/// The core-bus clock a plan produces.
pub open spec fn ahb_of(p: ClockPlan) -> int {
    sysclk_of(p) / p.ahb_div as int
}

/// What makes a plan acceptable: every divider positive, multiplier
/// and crystal in the oscillator's range, and both the system clock
/// and the slow bus within the target's limits.
pub open spec fn plan_valid(p: ClockPlan) -> bool {
    &&& MIN_HSE_HZ <= p.hse_hz <= MAX_HSE_HZ
    &&& 1 <= p.pll_prediv <= 2
    &&& 2 <= p.pll_mul <= 16
    &&& 1 <= p.ahb_div
    &&& 1 <= p.apb1_div
    &&& 1 <= p.apb2_div
    &&& sysclk_of(p) <= MAX_SYSCLK_HZ
    &&& ahb_of(p) / p.apb1_div as int <= MAX_APB1_HZ
}

/// The flash wait states a system clock demands: none up to a third
/// of the maximum, one up to two thirds, two above.
pub open spec fn wait_states_for(sysclk_hz: int) -> u8 {
    if sysclk_hz <= 24_000_000 {
        0
    } else if sysclk_hz <= 48_000_000 {
        1
    } else {
        2
    }
}

/// How many wait states to program into the flash controller before
/// raising the system clock.
pub fn flash_wait_states(sysclk_hz: u32) -> (ws: u8)
    ensures
        ws == wait_states_for(sysclk_hz as int),
{
    if sysclk_hz <= 24_000_000 {
        0
    } else if sysclk_hz <= 48_000_000 {
        1
    } else {
        2
    }
}

/// Work the whole clock tree out from a plan. An invalid plan is a
/// configuration error detected here, before any register is touched:
/// startup must halt on it rather than run out of spec.
pub fn configure(plan: &ClockPlan) -> (r: Result<SystemClocks, ConfigError>)
    ensures
        r is Ok <==> plan_valid(*plan),
        r matches Ok(t) ==> {
            &&& t.sysclk_hz as int == sysclk_of(*plan)
            &&& t.ahb_hz as int == ahb_of(*plan)
            &&& t.apb1_hz as int == ahb_of(*plan) / plan.apb1_div as int
            &&& t.apb2_hz as int == ahb_of(*plan) / plan.apb2_div as int
            &&& t.flash_wait_states == wait_states_for(sysclk_of(*plan))
        },
        r matches Err(e) ==> e == ConfigError::InvalidClockPlan,
{
    if plan.hse_hz < MIN_HSE_HZ || plan.hse_hz > MAX_HSE_HZ {
        return Result::Err(ConfigError::InvalidClockPlan);
    }
    if plan.pll_prediv < 1 || plan.pll_prediv > 2 {
        return Result::Err(ConfigError::InvalidClockPlan);
    }
    if plan.pll_mul < 2 || plan.pll_mul > 16 {
        return Result::Err(ConfigError::InvalidClockPlan);
    }
    if plan.ahb_div < 1 || plan.apb1_div < 1 || plan.apb2_div < 1 {
        return Result::Err(ConfigError::InvalidClockPlan);
    }
    let pll_in = plan.hse_hz / plan.pll_prediv;
    proof {
        assert(pll_in as int * plan.pll_mul as int <= 0xffff_ffff * 16) by (nonlinear_arith)
            requires
                pll_in <= 0xffff_ffffu32,
                plan.pll_mul <= 16u32,
        ;
    }
    let sysclk = (pll_in as u64) * (plan.pll_mul as u64);
    if sysclk > MAX_SYSCLK_HZ as u64 {
        return Result::Err(ConfigError::InvalidClockPlan);
    }
    let sysclk = sysclk as u32;
    let ahb = sysclk / plan.ahb_div;
    let apb1 = ahb / plan.apb1_div;
    let apb2 = ahb / plan.apb2_div;
    if apb1 > MAX_APB1_HZ {
        return Result::Err(ConfigError::InvalidClockPlan);
    }
    Result::Ok(
        SystemClocks {
            sysclk_hz: sysclk,
            ahb_hz: ahb,
            apb1_hz: apb1,
            apb2_hz: apb2,
            flash_wait_states: flash_wait_states(sysclk),
        },
    )
}

/// A bounded wait on a hardware ready bit, as startup performs after
/// enabling an oscillator. `samples` is what successive polls of the
/// bit read; the wait inspects at most `timeout` of them and reports
/// the first poll that found the bit set, or surfaces a fatal error
/// instead of hanging forever on hardware that never comes up.
pub fn spin_until_ready(samples: &Vec<bool>, timeout: usize) -> (r: Result<usize, StartupError>)
    requires
        timeout <= samples.len(),
    ensures
        r matches Ok(i) ==> i < timeout && samples@[i as int] && (forall|j: int|
            0 <= j < i ==> !samples@[j]),
        r matches Err(e) ==> e == StartupError::NotReady && (forall|j: int|
            0 <= j < timeout ==> !samples@[j]),
{
    let mut i: usize = 0;
    while i < timeout
        invariant
            i <= timeout <= samples.len(),
            forall|j: int| 0 <= j < i ==> !samples@[j],
        decreases timeout - i,
    {
        if samples[i] {
            return Result::Ok(i);
        }
        i = i + 1;
    }
    Result::Err(StartupError::NotReady)
}

} // verus!
