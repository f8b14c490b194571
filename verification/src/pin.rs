use vstd::prelude::*;

verus! {

/// The level of a digital signal line.
#[derive(Clone, Copy, Debug, PartialEq, Eq, Structural)]
pub enum Level {
    Low,
    High,
}

/// The opposite level.
pub open spec fn flipped(l: Level) -> Level {
    match l {
        Level::Low => Level::High,
        Level::High => Level::Low,
    }
}

/// The capability interface for one signal line: what the core reads
/// of a pin (its sampled input level) and what it drives (its output
/// level), as plain values. A per-chip implementation maps these to
/// the target's registers; a simulated signal feeds `drive_input`.
#[derive(Debug)]
pub struct Pin {
    output: Level,
    input: Level,
}

impl Pin {
    /// The level the pin currently drives.
    pub closed spec fn output_level(self) -> Level {
        self.output
    }

    /// The level last sampled on the pin's input.
    pub closed spec fn input_level(self) -> Level {
        self.input
    }

    pub fn new(output: Level, input: Level) -> (p: Self)
        ensures
            p.output_level() == output,
            p.input_level() == input,
    {
        Pin { output, input }
    }

    /// Whether the driven output is low.
    pub fn is_set_low(&self) -> (r: bool)
        ensures
            r == (self.output_level() == Level::Low),
    {
        matches!(self.output, Level::Low)
    }

    /// Whether the driven output is high.
    pub fn is_set_high(&self) -> (r: bool)
        ensures
            r == (self.output_level() == Level::High),
    {
        matches!(self.output, Level::High)
    }

    /// Whether the sampled input is low.
    pub fn is_low(&self) -> (r: bool)
        ensures
            r == (self.input_level() == Level::Low),
    {
        matches!(self.input, Level::Low)
    }

    /// Whether the sampled input is high.
    pub fn is_high(&self) -> (r: bool)
        ensures
            r == (self.input_level() == Level::High),
    {
        matches!(self.input, Level::High)
    }

    /// Drive the output high.
    pub fn set_high(&mut self)
        ensures
            final(self).output_level() == Level::High,
            final(self).input_level() == old(self).input_level(),
    {
        self.output = Level::High;
    }

    /// Drive the output low.
    pub fn set_low(&mut self)
        ensures
            final(self).output_level() == Level::Low,
            final(self).input_level() == old(self).input_level(),
    {
        self.output = Level::Low;
    }

    /// Drive the output to the given level.
    pub fn set_state(&mut self, state: Level)
        ensures
            final(self).output_level() == state,
            final(self).input_level() == old(self).input_level(),
    {
        match state {
            Level::Low => self.set_low(),
            Level::High => self.set_high(),
        }
    }

    /// Invert the driven output level.
    pub fn toggle(&mut self)
        ensures
            final(self).output_level() == flipped(old(self).output_level()),
            final(self).input_level() == old(self).input_level(),
    {
        if self.is_set_low() {
            self.set_high();
        } else {
            self.set_low();
        }
    }

    /// Change the sampled input level: the model of an external signal
    /// reaching the pin.
    pub fn drive_input(&mut self, level: Level)
        ensures
            final(self).input_level() == level,
            final(self).output_level() == old(self).output_level(),
    {
        self.input = level;
    }
}

} // verus!
