//! A verified model of the interrupt-safety core shared by a family of
//! bare-metal microcontroller programs: coordination between a single
//! foreground execution context and preemptive interrupt handlers that
//! share mutable state, together with the edge-detection, debounce,
//! timer and alarm-rearm protocols built on that coordination.
//!
//! Hardware registers are out of scope; every component here works on
//! plain values (levels, counts, flags) so that its protocol can be
//! stated and proved. The register reads and writes that realize these
//! decisions on a concrete chip live outside the library.

pub mod errors;
pub mod counter;
pub mod pin;
pub mod cs;
pub mod edge;
pub mod debounce;
pub mod timer;
pub mod alarm;
pub mod clock;
pub mod system;
