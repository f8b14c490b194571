use vstd::prelude::*;

verus! {

/// The successor of a `u32` count, wrapping at the bit width.
pub open spec fn wrapping_inc(c: u32) -> u32 {
    if c == u32::MAX {
        0
    } else {
        (c + 1) as u32
    }
}

/// Wrapping increment is addition of one modulo `2^32`.
pub proof fn lemma_wrapping_inc_is_mod(c: u32)
    ensures
        wrapping_inc(c) as int == (c as int + 1) % 0x1_0000_0000,
{
}

/// The monotonic event count updated by exactly one interrupt handler
/// (or, for polled designs, by the foreground loop — never both), plus
/// its companion count of missed events, which are reported here rather
/// than silently dropped.
#[derive(Debug)]
pub struct EventCounter {
    count: u32,
    missed: u32,
}

impl EventCounter {
    /// The number of events recorded so far, modulo the bit width.
    pub closed spec fn events(self) -> u32 {
        self.count
    }

    /// The number of missed events recorded so far, modulo the bit width.
    pub closed spec fn missed_events(self) -> u32 {
        self.missed
    }

    pub fn new() -> (c: Self)
        ensures
            c.events() == 0,
            c.missed_events() == 0,
    {
        EventCounter { count: 0, missed: 0 }
    }

    /// Read the event count. Safe from the foreground loop at any time.
    pub fn read(&self) -> (r: u32)
        ensures
            r == self.events(),
    {
        self.count
    }

    /// Read the companion missed-event count.
    pub fn read_missed(&self) -> (r: u32)
        ensures
            r == self.missed_events(),
    {
        self.missed
    }

    /// Record one event; the count wraps at its bit width.
    pub fn increment(&mut self)
        ensures
            final(self).events() == wrapping_inc(old(self).events()),
            final(self).missed_events() == old(self).missed_events(),
    {
        if self.count == u32::MAX {
            self.count = 0;
        } else {
            self.count = self.count + 1;
        }
    }

    /// Record one missed event; the count wraps at its bit width.
    pub fn record_missed(&mut self)
        ensures
            final(self).missed_events() == wrapping_inc(old(self).missed_events()),
            final(self).events() == old(self).events(),
    {
        if self.missed == u32::MAX {
            self.missed = 0;
        } else {
            self.missed = self.missed + 1;
        }
    }
}

} // verus!
