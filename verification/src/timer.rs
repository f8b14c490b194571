use vstd::prelude::*;
use vstd::arithmetic::div_mod::{
    lemma_fundamental_div_mod_converse_div,
    lemma_fundamental_div_mod_converse_mod,
};
use crate::counter::{EventCounter, wrapping_inc};
use crate::cs::CsToken;
use crate::errors::ConfigError;

verus! {

/// A hardware countdown/reload timer: an input clock divided by a
/// prescaler feeds a counter that wraps every `reload` prescaled
/// ticks, so an update event fires once per `prescaler * reload`
/// input cycles and its handler increments the event counter.
///
/// The model counts input cycles directly: `cycles` is the number of
/// input cycles since the last update event, always below the period.
#[derive(Debug)]
pub struct PeriodicTimer {
    prescaler: u32,
    reload: u32,
    running: bool,
    cycles: u32,
    update_flag: bool,
}

/// The product of two 32-bit values fits in 64 bits, and a product of
/// two positive values is positive.
proof fn lemma_u32_mul_fits(x: u32, y: u32)
    ensures
        x as int * y as int <= 0xffff_ffff * 0xffff_ffff,
        x >= 1 && y >= 1 ==> x as int * y as int >= 1,
{
    assert(x as int * y as int <= 0xffff_ffff * 0xffff_ffff && (x >= 1 && y >= 1 ==> x as int
        * y as int >= 1)) by (nonlinear_arith)
        requires
            x <= 0xffff_ffffu32,
            y <= 0xffff_ffffu32,
    ;
}

/// Whether a prescaler/reload pair is a configuration the hardware
/// accepts: both divide, so neither may be zero, and their product —
/// the period in input cycles — must fit the counter width.
pub open spec fn valid_period(prescaler: u32, reload: u32) -> bool {
    &&& prescaler >= 1
    &&& reload >= 1
    &&& prescaler as int * reload as int <= u32::MAX as int
}

impl PeriodicTimer {
    /// The configured prescaler.
    pub closed spec fn prescaler(self) -> u32 {
        self.prescaler
    }

    /// The configured reload value.
    pub closed spec fn reload(self) -> u32 {
        self.reload
    }

    /// Whether the timer is counting.
    pub closed spec fn running(self) -> bool {
        self.running
    }

    /// Input cycles elapsed since the last update event.
    pub closed spec fn cycles(self) -> u32 {
        self.cycles
    }

    /// The hardware-latched update-event flag.
    pub closed spec fn update_pending(self) -> bool {
        self.update_flag
    }

    /// The period between update events, in input cycles.
    pub open spec fn period(self) -> int {
        self.prescaler() as int * self.reload() as int
    }

    /// Internal consistency: a valid configuration, with the cycle
    /// count below the period.
    pub open spec fn wf(self) -> bool {
        &&& valid_period(self.prescaler(), self.reload())
        &&& self.cycles() < self.period()
    }

    /// Whether the timer is counting.
    pub fn is_running(&self) -> (r: bool)
        ensures
            r == self.running(),
    {
        self.running
    }

    /// Whether an update event is latched and unserviced.
    pub fn is_update_pending(&self) -> (r: bool)
        ensures
            r == self.update_pending(),
    {
        self.update_flag
    }

    /// Choose prescaler and reload value. An invalid combination is a
    /// configuration error detected here, at setup time: startup must
    /// halt on it. The timer starts stopped, with no elapsed cycles
    /// and no pending update.
    pub fn configure(prescaler: u32, reload: u32) -> (r: Result<Self, ConfigError>)
        ensures
            r is Ok <==> valid_period(prescaler, reload),
            r matches Ok(t) ==> {
                &&& t.wf()
                &&& t.prescaler() == prescaler
                &&& t.reload() == reload
                &&& !t.running()
                &&& t.cycles() == 0
                &&& !t.update_pending()
            },
            r matches Err(e) ==> e == ConfigError::InvalidTimerPeriod,
    {
        proof {
            lemma_u32_mul_fits(prescaler, reload);
        }
        if prescaler >= 1 && reload >= 1 && (prescaler as u64) * (reload as u64) <= u32::MAX
            as u64 {
            Result::Ok(
                PeriodicTimer {
                    prescaler,
                    reload,
                    running: false,
                    cycles: 0,
                    update_flag: false,
                },
            )
        } else {
            Result::Err(ConfigError::InvalidTimerPeriod)
        }
    }

    /// Change the prescaler. Only allowed while stopped: mutating the
    /// dividers of a counting timer yields an undefined partial
    /// period, so that hazard is excluded here by contract. The
    /// elapsed count restarts.
    pub fn set_prescaler(&mut self, prescaler: u32) -> (r: Result<(), ConfigError>)
        requires
            !old(self).running(),
        ensures
            r is Ok <==> valid_period(prescaler, old(self).reload()),
            r is Ok ==> {
                &&& final(self).wf()
                &&& final(self).prescaler() == prescaler
                &&& final(self).cycles() == 0
            },
            r matches Err(e) ==> e == ConfigError::InvalidTimerPeriod
                && *final(self) == *old(self),
            final(self).reload() == old(self).reload(),
            !final(self).running(),
            final(self).update_pending() == old(self).update_pending(),
    {
        proof {
            lemma_u32_mul_fits(prescaler, self.reload);
        }
        if prescaler >= 1 && self.reload >= 1 && (prescaler as u64) * (self.reload as u64)
            <= u32::MAX as u64 {
            self.prescaler = prescaler;
            self.cycles = 0;
            Result::Ok(())
        } else {
            Result::Err(ConfigError::InvalidTimerPeriod)
        }
    }

    /// Change the reload value. Only allowed while stopped, as with
    /// `set_prescaler`. The elapsed count restarts.
    pub fn set_reload(&mut self, reload: u32) -> (r: Result<(), ConfigError>)
        requires
            !old(self).running(),
        ensures
            r is Ok <==> valid_period(old(self).prescaler(), reload),
            r is Ok ==> {
                &&& final(self).wf()
                &&& final(self).reload() == reload
                &&& final(self).cycles() == 0
            },
            r matches Err(e) ==> e == ConfigError::InvalidTimerPeriod
                && *final(self) == *old(self),
            final(self).prescaler() == old(self).prescaler(),
            !final(self).running(),
            final(self).update_pending() == old(self).update_pending(),
    {
        proof {
            lemma_u32_mul_fits(self.prescaler, reload);
        }
        if self.prescaler >= 1 && reload >= 1 && (self.prescaler as u64) * (reload as u64)
            <= u32::MAX as u64 {
            self.reload = reload;
            self.cycles = 0;
            Result::Ok(())
        } else {
            Result::Err(ConfigError::InvalidTimerPeriod)
        }
    }

    /// Enable the counter: `Stopped -> Running`.
    pub fn start(&mut self)
        ensures
            final(self).running(),
            final(self).prescaler() == old(self).prescaler(),
            final(self).reload() == old(self).reload(),
            final(self).cycles() == old(self).cycles(),
            final(self).update_pending() == old(self).update_pending(),
    {
        self.running = true;
    }

    /// Disable the counter: `Running -> Stopped`.
    pub fn stop(&mut self)
        ensures
            !final(self).running(),
            final(self).prescaler() == old(self).prescaler(),
            final(self).reload() == old(self).reload(),
            final(self).cycles() == old(self).cycles(),
            final(self).update_pending() == old(self).update_pending(),
    {
        self.running = false;
    }

    /// The model of one input-clock cycle. A stopped timer ignores it;
    /// a running timer advances, and on completing a full period wraps
    /// its count and latches the update flag.
    pub fn step_cycle(&mut self) -> (fired: bool)
        requires
            old(self).wf(),
        ensures
            final(self).wf(),
            final(self).prescaler() == old(self).prescaler(),
            final(self).reload() == old(self).reload(),
            final(self).running() == old(self).running(),
            !old(self).running() ==> !fired && final(self).cycles() == old(self).cycles()
                && final(self).update_pending() == old(self).update_pending(),
            old(self).running() ==> {
                &&& fired == (old(self).cycles() + 1 == old(self).period())
                &&& final(self).cycles() as int == if fired {
                    0
                } else {
                    old(self).cycles() + 1
                }
                &&& final(self).update_pending() == (old(self).update_pending() || fired)
            },
    {
        if !self.running {
            return false;
        }
        proof {
            lemma_u32_mul_fits(self.prescaler, self.reload);
        }
        let period = (self.prescaler as u64) * (self.reload as u64);
        if (self.cycles as u64) + 1 == period {
            self.cycles = 0;
            self.update_flag = true;
            true
        } else {
            self.cycles = self.cycles + 1;
            false
        }
    }

    /// The handler protocol for the update interrupt, run under the
    /// exclusion token: return at once if the update flag is clear,
    /// otherwise record the event and then write-clear the flag as the
    /// last action.
    pub fn service(&mut self, tok: &CsToken, events: &mut EventCounter) -> (handled: bool)
        ensures
            handled == old(self).update_pending(),
            !final(self).update_pending(),
            final(self).prescaler() == old(self).prescaler(),
            final(self).reload() == old(self).reload(),
            final(self).running() == old(self).running(),
            final(self).cycles() == old(self).cycles(),
            final(events).events() == if handled {
                wrapping_inc(old(events).events())
            } else {
                old(events).events()
            },
            final(events).missed_events() == old(events).missed_events(),
    {
        if !self.update_flag {
            return false;
        }
        events.increment();
        self.update_flag = false;
        true
    }

    /// Drive a running timer for `n` input cycles and count the update
    /// events. At input frequency `F` the events come at frequency
    /// `F / (prescaler * reload)`: over any window of `n` cycles their
    /// number is exactly the quotient below, within one event of
    /// `n / period` by the rounding of integer division.
    pub fn run_cycles(&mut self, n: u32) -> (fires: u64)
        requires
            old(self).wf(),
            old(self).running(),
        ensures
            final(self).wf(),
            final(self).prescaler() == old(self).prescaler(),
            final(self).reload() == old(self).reload(),
            final(self).running(),
            fires as int == (old(self).cycles() + n) as int / old(self).period(),
            final(self).cycles() as int == (old(self).cycles() + n) as int % old(self).period(),
            final(self).update_pending() == (old(self).update_pending() || fires > 0),
    {
        let ghost c0 = self.cycles() as int;
        let ghost p = self.period();
        let ghost f0 = self.update_pending();
        let mut fires: u64 = 0;
        let mut i: u32 = 0;
        while i < n
            invariant
                self.wf(),
                self.running(),
                self.prescaler() == old(self).prescaler(),
                self.reload() == old(self).reload(),
                p == self.period(),
                c0 == old(self).cycles() as int,
                f0 == old(self).update_pending(),
                i <= n,
                fires as int * p + self.cycles() as int == c0 + i as int,
                fires as int <= c0 + i as int,
                self.update_pending() == (f0 || fires > 0),
            decreases n - i,
        {
            let fired = self.step_cycle();
            proof {
                assert((fires as int + 1) * p == fires as int * p + p) by (nonlinear_arith);
            }
            if fired {
                fires = fires + 1;
            }
            i = i + 1;
        }
        proof {
            lemma_fundamental_div_mod_converse_div(c0 + n as int, p, fires as int,
                self.cycles() as int);
            lemma_fundamental_div_mod_converse_mod(c0 + n as int, p, fires as int,
                self.cycles() as int);
        }
        fires
    }
}

/// The reload value that makes a counter on the core clock wrap once
/// per millisecond, as a millisecond delay helper programs it. A core
/// clock below 1 kHz cannot express a millisecond and is rejected.
pub fn systick_reload_for_one_ms(core_hz: u32) -> (r: Result<u32, ConfigError>)
    ensures
        r is Ok <==> core_hz >= 1000,
        r matches Ok(v) ==> v == core_hz / 1000,
        r matches Err(e) ==> e == ConfigError::InvalidTimerPeriod,
{
    if core_hz >= 1000 {
        Result::Ok(core_hz / 1000)
    } else {
        Result::Err(ConfigError::InvalidTimerPeriod)
    }
}

/// The reload value for a delay of `ms` milliseconds on a timer whose
/// input clock is divided by `prescaler`: `ms` times the prescaled
/// ticks per millisecond. Rejected when a divider is zero, when the
/// prescaled clock is below 1 kHz (a millisecond is then inexpressible),
/// or when the product overflows the counter width.
pub fn delay_reload(core_hz: u32, prescaler: u32, ms: u32) -> (r: Result<u32, ConfigError>)
    ensures
        r is Ok <==> prescaler >= 1 && core_hz as int / prescaler as int / 1000 >= 1 && (core_hz
            as int / prescaler as int / 1000) * ms as int <= u32::MAX,
        r matches Ok(v) ==> v as int == (core_hz as int / prescaler as int / 1000) * ms as int,
        r matches Err(e) ==> e == ConfigError::InvalidTimerPeriod,
{
    if prescaler == 0 {
        return Result::Err(ConfigError::InvalidTimerPeriod);
    }
    let ticks_per_ms = core_hz / prescaler / 1000;
    if ticks_per_ms == 0 {
        return Result::Err(ConfigError::InvalidTimerPeriod);
    }
    proof {
        lemma_u32_mul_fits(ticks_per_ms, ms);
    }
    let product = (ticks_per_ms as u64) * (ms as u64);
    if product > u32::MAX as u64 {
        return Result::Err(ConfigError::InvalidTimerPeriod);
    }
    Result::Ok(product as u32)
}

} // verus!
