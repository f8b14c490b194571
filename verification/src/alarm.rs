use vstd::prelude::*;
use vstd::arithmetic::div_mod::{
    lemma_fundamental_div_mod,
    lemma_small_mod,
    lemma_mod_add_multiples_vanish,
    lemma_add_mod_noop_right,
};
use crate::counter::{EventCounter, wrapping_inc};
use crate::cs::CsToken;
use crate::errors::ConfigError;

verus! {

/// What one clock tick did to an armed alarm.
#[derive(Clone, Copy, Debug, PartialEq, Eq, Structural)]
pub enum AlarmTick {
    /// No compare match.
    Quiet,
    /// The clock reached the compare value and latched the match flag.
    Fired,
    /// The clock reached the compare value again while the previous
    /// match was still unserviced: a missed alarm, to be reported,
    /// never silently dropped.
    Missed,
}

/// Two values a fixed positive distance below the modulus apart never
/// share a residue.
proof fn lemma_mod_shift_distinct(a: int, k: int, m: int)
    requires
        0 <= a,
        1 <= m,
        1 <= k < m,
    ensures
        (a + k) % m != a % m,
{
    lemma_fundamental_div_mod(a, m);
    lemma_fundamental_div_mod(a + k, m);
    let q1 = a / m;
    let r1 = a % m;
    let q2 = (a + k) / m;
    let r2 = (a + k) % m;
    if r1 == r2 {
        assert(false) by (nonlinear_arith)
            requires
                a == m * q1 + r1,
                a + k == m * q2 + r2,
                r1 == r2,
                1 <= k < m,
                1 <= m,
        ;
    }
}

/// A free-running clock plus a compare register: the clock counts up
/// and wraps at `modulus`; when an armed alarm's clock reaches the
/// compare value, the match flag latches and the interrupt handler
/// must rearm — write a fresh compare value — before clearing the
/// flag, or the alarm degenerates to a single shot.
///
/// The hazard the rearm-first order avoids is modeled in `ack`: the
/// hardware latches a new match concurrently with a flag clear, so
/// clearing while the match condition still holds leaves the flag set.
#[derive(Debug)]
pub struct AlarmTimer {
    modulus: u32,
    clock: u32,
    compare: u32,
    armed: bool,
    fired: bool,
}

impl AlarmTimer {
    /// The wrap point of the free-running clock.
    pub closed spec fn modulus(self) -> u32 {
        self.modulus
    }

    /// The current clock value, always below the modulus.
    pub closed spec fn clock(self) -> u32 {
        self.clock
    }

    /// The programmed compare value, always below the modulus.
    pub closed spec fn compare(self) -> u32 {
        self.compare
    }

    /// Whether the compare-match interrupt is enabled.
    pub closed spec fn armed(self) -> bool {
        self.armed
    }

    /// The hardware-latched match flag.
    pub closed spec fn match_pending(self) -> bool {
        self.fired
    }

    /// Internal consistency: a positive modulus bounding clock and
    /// compare.
    pub open spec fn wf(self) -> bool {
        &&& self.modulus() >= 1
        &&& self.clock() < self.modulus()
        &&& self.compare() < self.modulus()
    }

    /// How many ticks until the clock next equals the compare value:
    /// their distance around the circle, counting a full lap when they
    /// are equal now. Always in `1 ..= modulus`.
    pub open spec fn ticks_to_match(self) -> int {
        let d = (self.compare() - self.clock()) % self.modulus() as int;
        if d == 0 {
            self.modulus() as int
        } else {
            d
        }
    }

    /// The distance is in range, and walking it lands exactly on the
    /// compare value.
    pub proof fn lemma_ticks_to_match(self)
        requires
            self.wf(),
        ensures
            1 <= self.ticks_to_match() <= self.modulus(),
            (self.clock() + self.ticks_to_match()) % self.modulus() as int == self.compare(),
    {
        let m = self.modulus() as int;
        let c = self.clock() as int;
        let p = self.compare() as int;
        let d = (p - c) % m;
        lemma_mod_add_multiples_vanish(p - c, m);
        if p >= c {
            lemma_small_mod((p - c) as nat, m as nat);
        } else {
            lemma_small_mod((p - c + m) as nat, m as nat);
        }
        if d == 0 {
            lemma_mod_add_multiples_vanish(c, m);
            lemma_small_mod(c as nat, m as nat);
        } else {
            lemma_add_mod_noop_right(c, p - c, m);
            lemma_small_mod(p as nat, m as nat);
        }
    }

    /// Read the free-running clock, as the handler does for
    /// diagnostics.
    pub fn clock_value(&self) -> (r: u32)
        ensures
            r == self.clock(),
    {
        self.clock
    }

    /// Read the programmed compare value.
    pub fn compare_value(&self) -> (r: u32)
        ensures
            r == self.compare(),
    {
        self.compare
    }

    /// Whether the compare-match interrupt is enabled.
    pub fn is_armed(&self) -> (r: bool)
        ensures
            r == self.armed(),
    {
        self.armed
    }

    /// Whether a match is latched and unserviced.
    pub fn is_match_pending(&self) -> (r: bool)
        ensures
            r == self.match_pending(),
    {
        self.fired
    }

    /// A fresh free-running clock starting at zero, disarmed. A zero
    /// modulus cannot count and is a configuration error.
    pub fn new(modulus: u32) -> (r: Result<Self, ConfigError>)
        ensures
            r is Ok <==> modulus >= 1,
            r matches Ok(a) ==> {
                &&& a.wf()
                &&& a.modulus() == modulus
                &&& a.clock() == 0
                &&& a.compare() == 0
                &&& !a.armed()
                &&& !a.match_pending()
            },
            r matches Err(e) ==> e == ConfigError::InvalidClockPlan,
    {
        if modulus >= 1 {
            Result::Ok(
                AlarmTimer { modulus, clock: 0, compare: 0, armed: false, fired: false },
            )
        } else {
            Result::Err(ConfigError::InvalidClockPlan)
        }
    }

    /// Program the compare value and enable the compare-match
    /// interrupt: `Idle -> Armed`. The match flag starts clear, as it
    /// must before the interrupt line is unmasked.
    pub fn arm(&mut self, compare: u32)
        requires
            old(self).wf(),
            compare < old(self).modulus(),
        ensures
            final(self).wf(),
            final(self).modulus() == old(self).modulus(),
            final(self).clock() == old(self).clock(),
            final(self).compare() == compare,
            final(self).armed(),
            !final(self).match_pending(),
    {
        self.compare = compare;
        self.armed = true;
        self.fired = false;
    }

    /// Disable the compare-match interrupt: `Armed -> Idle`.
    pub fn disable(&mut self)
        ensures
            final(self).modulus() == old(self).modulus(),
            final(self).clock() == old(self).clock(),
            final(self).compare() == old(self).compare(),
            !final(self).armed(),
            final(self).match_pending() == old(self).match_pending(),
    {
        self.armed = false;
    }

    /// The rearm write: program the next compare value. This is plain
    /// register traffic with no effect on the latched flag — the
    /// protocol's point is to issue it before `ack`.
    pub fn set_compare(&mut self, compare: u32)
        requires
            old(self).wf(),
            compare < old(self).modulus(),
        ensures
            final(self).wf(),
            final(self).modulus() == old(self).modulus(),
            final(self).clock() == old(self).clock(),
            final(self).compare() == compare,
            final(self).armed() == old(self).armed(),
            final(self).match_pending() == old(self).match_pending(),
    {
        self.compare = compare;
    }

    /// Write-clear the match flag. The hardware may latch a new match
    /// concurrently with the clear: if the match condition still holds
    /// — armed, clock equal to compare — the flag comes straight back.
    /// Clearing before rearming therefore does not end the match; that
    /// is why the handler must rearm first.
    pub fn ack(&mut self)
        ensures
            final(self).modulus() == old(self).modulus(),
            final(self).clock() == old(self).clock(),
            final(self).compare() == old(self).compare(),
            final(self).armed() == old(self).armed(),
            final(self).match_pending() == (old(self).armed() && old(self).clock() == old(self).compare()),
    {
        self.fired = self.armed && self.clock == self.compare;
    }

    /// The model of one tick of the free-running clock. On reaching an
    /// armed compare value the match flag latches and the tick reports
    /// `Fired`; reaching it again while the flag is still set reports
    /// `Missed` — a skipped alarm that the caller must record.
    pub fn tick(&mut self) -> (t: AlarmTick)
        requires
            old(self).wf(),
        ensures
            final(self).wf(),
            final(self).modulus() == old(self).modulus(),
            final(self).compare() == old(self).compare(),
            final(self).armed() == old(self).armed(),
            final(self).clock() as int == (old(self).clock() + 1) % old(self).modulus() as int,
            ({
                let matched = old(self).armed() && final(self).clock() == old(self).compare();
                &&& t == if matched && !old(self).match_pending() {
                    AlarmTick::Fired
                } else if matched && old(self).match_pending() {
                    AlarmTick::Missed
                } else {
                    AlarmTick::Quiet
                }
                &&& final(self).match_pending() == (old(self).match_pending() || matched)
            }),
    {
        let next: u32 = if self.clock + 1 == self.modulus {
            0
        } else {
            self.clock + 1
        };
        proof {
            if old(self).clock() + 1 == old(self).modulus() {
                lemma_mod_add_multiples_vanish(0, old(self).modulus() as int);
                lemma_small_mod(0nat, old(self).modulus() as nat);
            } else {
                lemma_small_mod((old(self).clock() + 1) as nat, old(self).modulus() as nat);
            }
        }
        self.clock = next;
        if self.armed && next == self.compare {
            if !self.fired {
                self.fired = true;
                AlarmTick::Fired
            } else {
                AlarmTick::Missed
            }
        } else {
            AlarmTick::Quiet
        }
    }

    /// The handler protocol for the compare-match interrupt, run under
    /// the exclusion token: return at once if the flag is clear;
    /// otherwise record the event, rearm one period ahead, and only
    /// then write-clear the flag. Because the rearm moved the compare
    /// value off the current clock, the concurrent-latch hazard in
    /// `ack` cannot re-set the flag: when the handler ran at the match
    /// — clock still equal to the old compare value — the alarm leaves
    /// serviced, armed for one period later, with no second fire
    /// latched.
    pub fn service(&mut self, tok: &CsToken, events: &mut EventCounter, period: u32) -> (handled:
        bool)
        requires
            old(self).wf(),
            1 <= period < old(self).modulus(),
        ensures
            final(self).wf(),
            handled == old(self).match_pending(),
            final(self).modulus() == old(self).modulus(),
            final(self).clock() == old(self).clock(),
            final(self).armed() == old(self).armed(),
            !handled ==> final(self).compare() == old(self).compare() && final(self).match_pending() == old(self).match_pending(),
            handled ==> final(self).compare() as int == (old(self).compare() + period) % old(self).modulus() as int,
            handled ==> final(self).match_pending() == (old(self).armed() && old(self).clock()
                == final(self).compare()),
            handled && old(self).clock() == old(self).compare() ==> !final(self).match_pending(),
            final(events).events() == if handled {
                wrapping_inc(old(events).events())
            } else {
                old(events).events()
            },
            final(events).missed_events() == old(events).missed_events(),
    {
        if !self.fired {
            return false;
        }
        events.increment();
        let next_compare: u32 = ((self.compare as u64 + period as u64) % (self.modulus as u64))
            as u32;
        proof {
            lemma_mod_shift_distinct(old(self).compare() as int, period as int, old(self).modulus() as int);
            lemma_small_mod(old(self).compare() as nat, old(self).modulus() as nat);
        }
        self.compare = next_compare;
        self.fired = self.armed && self.clock == self.compare;
        true
    }

    /// Drive an armed, serviced alarm for `n` ticks, up to its next
    /// match. No tick short of the match distance fires — in
    /// particular, a tick landing where the *old* compare value stood
    /// cannot, since the rearm moved the compare away — and the tick
    /// at exactly that distance fires once.
    pub fn run_ticks(&mut self, n: u32) -> (fires: u32)
        requires
            old(self).wf(),
            old(self).armed(),
            !old(self).match_pending(),
            n <= old(self).ticks_to_match(),
        ensures
            final(self).wf(),
            final(self).modulus() == old(self).modulus(),
            final(self).compare() == old(self).compare(),
            final(self).armed(),
            final(self).clock() as int == (old(self).clock() + n) % old(self).modulus() as int,
            n < old(self).ticks_to_match() ==> fires == 0 && !final(self).match_pending(),
            n == old(self).ticks_to_match() ==> fires == 1 && final(self).match_pending(),
    {
        let ghost c0 = self.clock() as int;
        let ghost m = self.modulus() as int;
        let ghost d = self.ticks_to_match();
        proof {
            self.lemma_ticks_to_match();
            lemma_small_mod(c0 as nat, m as nat);
        }
        let mut fires: u32 = 0;
        let mut j: u32 = 0;
        while j < n
            invariant
                self.wf(),
                self.armed(),
                self.modulus() as int == m,
                self.compare() == old(self).compare(),
                c0 == old(self).clock() as int,
                d == old(self).ticks_to_match(),
                1 <= d <= m,
                (c0 + d) % m == self.compare() as int,
                j <= n <= d,
                self.clock() as int == (c0 + j) % m,
                j < d ==> !self.match_pending() && fires == 0,
                j == d ==> self.match_pending() && fires == 1,
            decreases n - j,
        {
            proof {
                lemma_add_mod_noop_right(1, c0 + j, m);
                if j + 1 < d {
                    lemma_mod_shift_distinct(c0 + j + 1, d - j - 1, m);
                }
            }
            let t = self.tick();
            if matches!(t, AlarmTick::Fired) {
                fires = fires + 1;
            }
            j = j + 1;
        }
        fires
    }
}

} // verus!
