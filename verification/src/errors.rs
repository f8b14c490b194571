use vstd::prelude::*;

verus! {

/// A configuration error: a programmer error detected at setup time.
/// Startup must halt on any of these rather than run with an
/// ill-configured peripheral.
#[derive(Clone, Copy, Debug, PartialEq, Eq, Structural)]
pub enum ConfigError {
    /// A `SharedCell` was published twice.
    AlreadyPublished,
    /// A timer prescaler/reload combination is out of range.
    InvalidTimerPeriod,
    /// A debounce settle time of zero would commit on raw noise.
    InvalidSettleTime,
    /// A clock-tree plan violates a limit of the target.
    InvalidClockPlan,
}

/// A fatal startup error: hardware did not become ready within the
/// allowed bounded wait.
#[derive(Clone, Copy, Debug, PartialEq, Eq, Structural)]
pub enum StartupError {
    /// The polled ready bit stayed clear for the whole timeout window.
    NotReady,
}

} // verus!
