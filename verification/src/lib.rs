//! A stopwatch for games and similar applications.
//!
//! Time is counted in whole nanoseconds. A stopwatch can be paused and
//! resumed, runs at a speed chosen when it is made, and can be set or nudged
//! by hand. Every operation that needs the present moment exists in two
//! forms: one that takes the clock's reading as an argument, and one that
//! reads the system clock itself.

mod clock;
pub mod laws;
pub mod model;
pub mod scale;
pub mod stopwatch;

pub use crate::model::StopwatchState;
pub use crate::scale::NANOS_PER_SECOND;
pub use crate::stopwatch::Stopwatch;
