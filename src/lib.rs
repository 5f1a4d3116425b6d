//! A two-mode (focus / rest) timer that accumulates, per mode, the time spent
//! running across pauses and mode switches.
//!
//! Instants are nanoseconds since the Unix epoch, held as `u64`; durations are
//! nanoseconds too. Every command and query has a form that takes the current
//! instant as an argument (`*_at`), which carries the exact contract, and a form
//! that reads the system clock and then defers to it.

pub mod app;
pub mod clock;
pub mod command;
pub mod format;
pub mod laws;
pub mod model;
pub mod session;
