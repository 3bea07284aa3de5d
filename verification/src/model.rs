//! The stopwatch as a mathematical object.
//!
//! A stopwatch is described by three numbers, and every operation by a
//! function from one such description to the next. The contracts of the
//! executable stopwatch are written over this model.

use vstd::prelude::*;
use crate::scale::{clamp, fits, to_logical, to_raw, NANOS_PER_SECOND};

verus! {

/// What a stopwatch holds.
pub struct StopwatchState {
    /// The raw instant at which the stopwatch would read zero.
    pub start_time: int,
    /// The raw instant at which the stopwatch was frozen, while it is paused.
    pub paused_at: Option<int>,
    /// Logical nanoseconds per raw second.
    pub speed: int,
}

impl StopwatchState {
    /// Every number of the state can be held in an `i64`.
    pub open spec fn wf(self) -> bool {
        &&& fits(self.start_time)
        &&& fits(self.speed)
        &&& self.paused_at is Some ==> fits(self.paused_at->Some_0)
    }

    /// A running stopwatch that reads zero at the raw instant `now`.
    pub open spec fn started(now: int, speed: int) -> Self {
        StopwatchState { start_time: now, paused_at: None, speed }
    }

    /// Whether the stopwatch is paused.
    pub open spec fn paused(self) -> bool {
        self.paused_at is Some
    }

    /// The raw instant up to which time has been counted when the clock
    /// reads `now`: the instant of the pause, or `now` itself.
    pub open spec fn end_time(self, now: int) -> int {
        match self.paused_at {
            Some(frozen) => frozen,
            None => now,
        }
    }

    /// The reading of the stopwatch when the clock reads `now`.
    pub open spec fn time(self, now: int) -> int {
        clamp(to_logical(self.end_time(now) - self.start_time, self.speed))
    }

    /// The state after a pause at `now`.
    pub open spec fn pause(self, now: int) -> Self {
        StopwatchState { paused_at: Some(self.end_time(now)), ..self }
    }

    /// The state after resuming at `now`: the new start lies before `now` by
    /// the reading at the pause. A running stopwatch is left as it is.
    pub open spec fn unpause(self, now: int) -> Self {
        if self.paused() {
            StopwatchState {
                start_time: clamp(now - self.time(now)),
                paused_at: None,
                ..self
            }
        } else {
            self
        }
    }

    /// The state after a pause, if the stopwatch runs, or after resuming, if
    /// it is paused.
    pub open spec fn toggle_pause(self, now: int) -> Self {
        if self.paused() {
            self.unpause(now)
        } else {
            self.pause(now)
        }
    }

    /// The state after the reading is set to `value` at `now`: the start
    /// moves to lie before the end time by the raw time that `value` takes,
    /// and a paused stopwatch is then frozen at that new start.
    pub open spec fn set_time(self, value: int, now: int) -> Self {
        let start = clamp(self.end_time(now) - to_raw(value, self.speed));
        StopwatchState {
            start_time: start,
            paused_at: if self.paused() {
                Some(start)
            } else {
                None
            },
            ..self
        }
    }

    /// The state after the reading is set to zero at `now`.
    pub open spec fn reset(self, now: int) -> Self {
        self.set_time(0, now)
    }

    /// The state after `delta` is added: the start moves back by the raw
    /// time that `delta` takes, and the instant of a pause moves on by
    /// `delta` itself.
    pub open spec fn add_time(self, delta: int) -> Self {
        StopwatchState {
            start_time: clamp(self.start_time - to_raw(delta, self.speed)),
            paused_at: match self.paused_at {
                Some(frozen) => Some(clamp(frozen + delta)),
                None => None,
            },
            ..self
        }
    }

    /// The interval that lies between the reading at `now` and the raw time
    /// that `target` takes.
    pub open spec fn outstanding(self, target: int, now: int) -> int {
        clamp(to_raw(target, self.speed) - self.time(now))
    }

    /// How long to sleep at `now` to reach `target`: the outstanding
    /// interval where it is positive, and nothing otherwise.
    pub open spec fn sleep_needed(self, target: int, now: int) -> Option<u64> {
        if self.outstanding(target, now) > 0 {
            Some(self.outstanding(target, now) as u64)
        } else {
            None
        }
    }
}

} // verus!
