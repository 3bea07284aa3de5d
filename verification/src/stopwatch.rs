//! The stopwatch itself.

use vstd::prelude::*;
use crate::clock::raw_time;
use crate::model::StopwatchState;
use crate::scale::{fits, logical_between, raw_for, saturate, NANOS_PER_SECOND};

verus! {

/// A stopwatch which tracks time in nanoseconds.
#[derive(Clone, Copy, Debug, PartialEq, Eq)]
pub struct Stopwatch {
    start_time: i64,
    paused_at: Option<i64>,
    speed: i64,
}

impl View for Stopwatch {
    type V = StopwatchState;

    closed spec fn view(&self) -> StopwatchState {
        StopwatchState {
            start_time: self.start_time as int,
            paused_at: match self.paused_at {
                Some(frozen) => Some(frozen as int),
                None => None,
            },
            speed: self.speed as int,
        }
    }
}

impl Stopwatch {
    /// The state of every stopwatch is well formed.
    pub proof fn lemma_view_wf(self)
        ensures
            self@.wf(),
    {
    }

    /// Creates a new stopwatch with the current time set to 0.
    pub fn new() -> (stopwatch: Self)
        ensures
            exists|now: int|
                fits(now) && stopwatch@ == #[trigger] StopwatchState::started(
                    now,
                    NANOS_PER_SECOND as int,
                ),
    {
        Self::with_speed(NANOS_PER_SECOND)
    }

    /// Creates a stopwatch which advances by `speed` nanoseconds every
    /// second.
    ///
    /// For instance, `Stopwatch::with_speed(NANOS_PER_SECOND / 60)` creates
    /// a stopwatch which uses minutes as the time unit instead of seconds.
    pub fn with_speed(speed: i64) -> (stopwatch: Self)
        ensures
            exists|now: int|
                fits(now) && stopwatch@ == #[trigger] StopwatchState::started(now, speed as int),
    {
        let now = raw_time();
        Self::with_speed_at(speed, now)
    }

    /// Creates a stopwatch that reads zero at the raw instant `now` and
    /// runs as fast as the clock.
    pub fn new_at(now: i64) -> (stopwatch: Self)
        ensures
            stopwatch@ == StopwatchState::started(now as int, NANOS_PER_SECOND as int),
    {
        Self::with_speed_at(NANOS_PER_SECOND, now)
    }

    /// Creates a stopwatch that reads zero at the raw instant `now` and
    /// advances by `speed` nanoseconds in every second of the clock.
    ///
    /// For instance, a speed of `NANOS_PER_SECOND / 60` makes a stopwatch
    /// whose seconds are the clock's minutes.
    pub fn with_speed_at(speed: i64, now: i64) -> (stopwatch: Self)
        ensures
            stopwatch@ == StopwatchState::started(now as int, speed as int),
    {
        Stopwatch { start_time: now, paused_at: None, speed }
    }

    /// Returns whether the stopwatch is paused.
    pub fn paused(&self) -> (paused: bool)
        ensures
            paused == self@.paused(),
    {
        self.paused_at.is_some()
    }

    /// Pauses the stopwatch at the raw instant `now`. If the stopwatch was
    /// already paused, this does nothing.
    pub fn pause_at(&mut self, now: i64)
        ensures
            final(self)@ == old(self)@.pause(now as int),
            old(self)@.paused() ==> *final(self) == *old(self),
    {
        self.paused_at = Some(self.end_time_at(now));
    }

    /// Unpauses the stopwatch at the raw instant `now`. If the stopwatch
    /// was already unpaused, this does nothing.
    ///
    /// The new start lies before `now` by as many raw nanoseconds as the
    /// stopwatch reads, so that the reading is kept at the speed of the
    /// clock, and scaled once more at any other speed.
    pub fn unpause_at(&mut self, now: i64)
        ensures
            final(self)@ == old(self)@.unpause(now as int),
            !old(self)@.paused() ==> *final(self) == *old(self),
    {
        if self.paused() {
            self.start_time = saturate(now as i128 - self.get_time_at(now) as i128);
            self.paused_at = None;
        }
    }

    /// Toggles at the raw instant `now` whether the stopwatch is paused.
    pub fn toggle_pause_at(&mut self, now: i64)
        ensures
            final(self)@ == old(self)@.toggle_pause(now as int),
            final(self)@.paused() == !old(self)@.paused(),
    {
        if self.paused() {
            self.unpause_at(now);
        } else {
            self.pause_at(now);
        }
    }

    /// Gets the reading of the stopwatch at the raw instant `now`.
    pub fn get_time_at(&self, now: i64) -> (time: i64)
        ensures
            time == self@.time(now as int),
    {
        logical_between(self.start_time, self.end_time_at(now), self.speed)
    }

    /// Sets the reading of the stopwatch at the raw instant `now`.
    ///
    /// A running stopwatch then reads `value`, less what rounding loses. A
    /// paused stopwatch is frozen at its new start, and reads zero until it
    /// is resumed.
    pub fn set_time_at(&mut self, value: i64, now: i64)
        ensures
            final(self)@ == old(self)@.set_time(value as int, now as int),
    {
        self.start_time = saturate(self.end_time_at(now) as i128 - raw_for(value, self.speed));
        if self.paused() {
            self.paused_at = Some(self.start_time);
        }
    }

    /// Resets the stopwatch to zero at the raw instant `now`.
    pub fn reset_at(&mut self, now: i64)
        ensures
            final(self)@ == old(self)@.reset(now as int),
    {
        self.set_time_at(0, now);
    }

    /// Advances the stopwatch by `delta`, which may be negative and may
    /// take the reading below zero.
    ///
    /// The start moves back by the raw time that `delta` takes. On a paused
    /// stopwatch the instant of the pause moves on by `delta` as well, so
    /// that the reading grows by more than `delta`.
    pub fn add_time(&mut self, delta: i64)
        ensures
            final(self)@ == old(self)@.add_time(delta as int),
    {
        self.start_time = saturate(self.start_time as i128 - raw_for(delta, self.speed));
        match self.paused_at {
            None => (),
            Some(frozen) => {
                self.paused_at = Some(saturate(frozen as i128 + delta as i128));
            },
        }
    }

    /// Pauses the stopwatch. If the stopwatch was already paused, this
    /// does nothing.
    pub fn pause(&mut self)
        ensures
            exists|now: int| fits(now) && final(self)@ == #[trigger] old(self)@.pause(now),
            old(self)@.paused() ==> *final(self) == *old(self),
    {
        let now = self.get_end_time();
        self.pause_at(now);
    }

    /// Unpauses the stopwatch. If the stopwatch was already unpaused, this
    /// does nothing.
    pub fn unpause(&mut self)
        ensures
            exists|now: int| fits(now) && final(self)@ == #[trigger] old(self)@.unpause(now),
            !old(self)@.paused() ==> *final(self) == *old(self),
    {
        if self.paused() {
            let now = raw_time();
            self.unpause_at(now);
        } else {
            assert(self@ == self@.unpause(0));
        }
    }

    /// Toggles whether the stopwatch is paused.
    pub fn toggle_pause(&mut self)
        ensures
            exists|now: int|
                fits(now) && final(self)@ == #[trigger] old(self)@.toggle_pause(now),
            final(self)@.paused() == !old(self)@.paused(),
    {
        if self.paused() {
            self.unpause();
            proof {
                let now = choose|now: int|
                    fits(now) && self@ == #[trigger] old(self)@.unpause(now);
                assert(self@ == old(self)@.toggle_pause(now));
            }
        } else {
            self.pause();
            proof {
                let now = choose|now: int| fits(now) && self@ == #[trigger] old(self)@.pause(now);
                assert(self@ == old(self)@.toggle_pause(now));
            }
        }
    }

    /// Gets the current time.
    pub fn get_time(&self) -> (time: i64)
        ensures
            exists|now: int| fits(now) && time == #[trigger] self@.time(now),
    {
        let now = self.get_end_time();
        self.get_time_at(now)
    }

    /// Sets the current time.
    pub fn set_time(&mut self, value: i64)
        ensures
            exists|now: int|
                fits(now) && final(self)@ == #[trigger] old(self)@.set_time(value as int, now),
    {
        let now = self.get_end_time();
        self.set_time_at(value, now);
    }

    /// Resets the stopwatch to zero.
    pub fn reset(&mut self)
        ensures
            exists|now: int| fits(now) && final(self)@ == #[trigger] old(self)@.reset(now),
    {
        self.set_time(0);
        proof {
            let now = choose|now: int| fits(now) && self@ == #[trigger] old(self)@.set_time(0, now);
            assert(self@ == old(self)@.reset(now));
        }
    }

    /// Finds for how many nanoseconds the caller has to sleep at the raw
    /// instant `now` until this stopwatch reaches `time`: nothing if the
    /// time has come. The stopwatch must not be paused.
    pub fn sleep_until_at(&self, time: i64, now: i64) -> (wait: Option<u64>)
        requires
            !self@.paused(),
        ensures
            wait == self@.sleep_needed(time as int, now as int),
    {
        let interval = saturate(raw_for(time, self.speed) - self.get_time_at(now) as i128);
        if interval > 0 {
            Some(interval as u64)
        } else {
            None
        }
    }

    /// Finds for how many nanoseconds the caller has to sleep until this
    /// stopwatch reaches `time`: nothing if the time has come. The sleep
    /// itself is the caller's to make, and may last slightly longer than
    /// asked. The stopwatch must not be paused.
    pub fn sleep_until(&self, time: i64) -> (wait: Option<u64>)
        requires
            !self@.paused(),
        ensures
            exists|now: int| fits(now) && wait == #[trigger] self@.sleep_needed(time as int, now),
    {
        let now = raw_time();
        self.sleep_until_at(time, now)
    }

    /// The raw instant up to which time has been counted: the instant of
    /// the pause, or the clock's present reading.
    fn get_end_time(&self) -> (end: i64)
        ensures
            end == self@.end_time(end as int),
    {
        match self.paused_at {
            None => raw_time(),
            Some(frozen) => frozen,
        }
    }

    /// The raw instant up to which time has been counted when the clock
    /// reads `now`.
    fn end_time_at(&self, now: i64) -> (end: i64)
        ensures
            end == self@.end_time(now as int),
    {
        match self.paused_at {
            None => now,
            Some(frozen) => frozen,
        }
    }
}

impl Default for Stopwatch {
    fn default() -> (stopwatch: Self)
        ensures
            exists|now: int|
                fits(now) && stopwatch@ == #[trigger] StopwatchState::started(
                    now,
                    NANOS_PER_SECOND as int,
                ),
    {
        Self::new()
    }
}

} // verus!
