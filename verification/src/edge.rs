use vstd::prelude::*;
use crate::counter::{EventCounter, wrapping_inc};
use crate::cs::CsToken;
use crate::pin::{Pin, Level, flipped};

verus! {

/// One direction of a signal transition.
#[derive(Clone, Copy, Debug, PartialEq, Eq, Structural)]
pub enum Edge {
    Rising,
    Falling,
}

/// Which transitions of the line latch the pending flag: independent
/// rising and falling enables.
#[derive(Clone, Copy, Debug, PartialEq, Eq, Structural)]
pub enum EdgePolicy {
    Rising,
    Falling,
    Both,
}

/// Whether an edge of the given direction is selected by the policy.
pub open spec fn policy_matches(policy: EdgePolicy, e: Edge) -> bool {
    match policy {
        EdgePolicy::Rising => e == Edge::Rising,
        EdgePolicy::Falling => e == Edge::Falling,
        EdgePolicy::Both => true,
    }
}

/// Configuration and state of one external signal line that raises an
/// interrupt on a selected edge. `pending` is the hardware-latched
/// flag: it goes true when a selected edge arrives on an unmasked
/// line, and goes false only through the explicit acknowledge inside a
/// `service_*` call — the owning handler's last critical action, so a
/// handler can neither lose a second edge by clearing early nor refire
/// forever by forgetting to clear.
#[derive(Debug)]
pub struct EdgeSource {
    line: u8,
    policy: EdgePolicy,
    enabled: bool,
    pending: bool,
}

impl EdgeSource {
    /// The interrupt line the source is attached to.
    pub closed spec fn line(self) -> u8 {
        self.line
    }

    /// The configured edge polarity selection.
    pub closed spec fn policy(self) -> EdgePolicy {
        self.policy
    }

    /// Whether the line is unmasked at the interrupt controller.
    pub closed spec fn enabled(self) -> bool {
        self.enabled
    }

    /// The hardware-latched pending flag.
    pub closed spec fn pending(self) -> bool {
        self.pending
    }

    /// Select the signal line and edge polarity. The line starts
    /// masked with no pending edge.
    pub fn configure(line: u8, policy: EdgePolicy) -> (s: Self)
        ensures
            s.line() == line,
            s.policy() == policy,
            !s.enabled(),
            !s.pending(),
    {
        EdgeSource { line, policy, enabled: false, pending: false }
    }

    /// Unmask the line at the interrupt controller. Demanded only of a
    /// line with no latched edge: unmasking with the flag set would
    /// enter the handler spuriously the moment delivery resumes.
    pub fn unmask(&mut self)
        requires
            !old(self).pending(),
        ensures
            final(self).enabled(),
            final(self).line() == old(self).line(),
            final(self).policy() == old(self).policy(),
            !final(self).pending(),
    {
        self.enabled = true;
    }

    /// Mask the line again.
    pub fn mask(&mut self)
        ensures
            !final(self).enabled(),
            final(self).line() == old(self).line(),
            final(self).policy() == old(self).policy(),
            final(self).pending() == old(self).pending(),
    {
        self.enabled = false;
    }

    /// The model of an edge arriving on the line: a selected edge on an
    /// unmasked line latches the pending flag; anything else leaves the
    /// state alone. Latching is idempotent — an edge redelivered before
    /// the acknowledge leaves a single pending event.
    pub fn deliver_edge(&mut self, e: Edge)
        ensures
            final(self).pending() == (old(self).pending() || (old(self).enabled()
                && policy_matches(old(self).policy(), e))),
            final(self).line() == old(self).line(),
            final(self).policy() == old(self).policy(),
            final(self).enabled() == old(self).enabled(),
    {
        if self.enabled && self.policy_selects(e) {
            self.pending = true;
        }
    }

    /// Whether an edge is latched and unserviced.
    pub fn is_pending(&self) -> (r: bool)
        ensures
            r == self.pending(),
    {
        self.pending
    }

    /// Whether the line is unmasked.
    pub fn is_enabled(&self) -> (r: bool)
        ensures
            r == self.enabled(),
    {
        self.enabled
    }

    /// Whether this source's policy selects the given edge.
    pub fn policy_selects(&self, e: Edge) -> (r: bool)
        ensures
            r == policy_matches(self.policy(), e),
    {
        match self.policy {
            EdgePolicy::Rising => matches!(e, Edge::Rising),
            EdgePolicy::Falling => matches!(e, Edge::Falling),
            EdgePolicy::Both => true,
        }
    }

    /// The handler protocol for a counting line, run under the
    /// exclusion token: read the pending flag and return at once if it
    /// is clear (a shared vector may be entered for a different line);
    /// otherwise record the event, then write-clear the flag as the
    /// last action. Exactly one event is recorded per latched edge.
    pub fn service_count(&mut self, tok: &CsToken, events: &mut EventCounter) -> (fired: bool)
        ensures
            fired == old(self).pending(),
            !final(self).pending(),
            final(self).line() == old(self).line(),
            final(self).policy() == old(self).policy(),
            final(self).enabled() == old(self).enabled(),
            final(events).events() == if fired {
                wrapping_inc(old(events).events())
            } else {
                old(events).events()
            },
            final(events).missed_events() == old(events).missed_events(),
    {
        if !self.pending {
            return false;
        }
        events.increment();
        self.pending = false;
        true
    }

    /// The handler protocol for a latched edge no handler logic
    /// claims: do nothing, acknowledge, return — the event is counted
    /// as missed rather than silently dropped, and the vector cannot
    /// refire forever on a flag nobody clears.
    pub fn service_unclaimed(&mut self, tok: &CsToken, events: &mut EventCounter) -> (fired:
        bool)
        ensures
            fired == old(self).pending(),
            !final(self).pending(),
            final(self).line() == old(self).line(),
            final(self).policy() == old(self).policy(),
            final(self).enabled() == old(self).enabled(),
            final(events).missed_events() == if fired {
                wrapping_inc(old(events).missed_events())
            } else {
                old(events).missed_events()
            },
            final(events).events() == old(events).events(),
    {
        if !self.pending {
            return false;
        }
        events.record_missed();
        self.pending = false;
        true
    }

    /// The handler protocol for a line that toggles an output, run
    /// under the exclusion token: pending check first, then the
    /// domain action, then the write-clear of the flag, in that order.
    pub fn service_toggle(&mut self, tok: &CsToken, led: &mut Pin) -> (fired: bool)
        ensures
            fired == old(self).pending(),
            !final(self).pending(),
            final(self).line() == old(self).line(),
            final(self).policy() == old(self).policy(),
            final(self).enabled() == old(self).enabled(),
            final(led).output_level() == if fired {
                flipped(old(led).output_level())
            } else {
                old(led).output_level()
            },
            final(led).input_level() == old(led).input_level(),
    {
        if !self.pending {
            return false;
        }
        led.toggle();
        self.pending = false;
        true
    }
}

} // verus!
