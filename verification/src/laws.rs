//! What holds of every stopwatch.
//!
//! Each law speaks of the model, and so of every executable stopwatch: the
//! contracts of `Stopwatch` equate the state after a call with the value of
//! the model's function of the same name. An instant named in a law is a
//! reading of the clock; where two operations share one, no time passes
//! between them.

use vstd::prelude::*;
use vstd::math::abs;
use crate::model::StopwatchState;
use crate::scale::{
    clamp, fits, lemma_extended_span, lemma_round_trip, lemma_round_trip_sum,
    lemma_to_logical_floor, lemma_to_logical_monotone, lemma_unit_speed, lemma_zero_span,
    to_logical, to_raw, NANOS_PER_SECOND,
};

verus! {

/// No operation changes the speed that a stopwatch was made with.
pub proof fn law_speed_is_fixed(state: StopwatchState, value: int, now: int)
    ensures
        state.pause(now).speed == state.speed,
        state.unpause(now).speed == state.speed,
        state.toggle_pause(now).speed == state.speed,
        state.set_time(value, now).speed == state.speed,
        state.reset(now).speed == state.speed,
        state.add_time(value).speed == state.speed,
{
}

/// Every operation leaves a well-formed state well formed.
pub proof fn law_wf_is_kept(state: StopwatchState, value: int, now: int)
    requires
        state.wf(),
        fits(now),
    ensures
        StopwatchState::started(now, state.speed).wf(),
        state.pause(now).wf(),
        state.unpause(now).wf(),
        state.toggle_pause(now).wf(),
        state.set_time(value, now).wf(),
        state.reset(now).wf(),
        state.add_time(value).wf(),
{
}

/// A second pause changes nothing, whenever it comes: the state after two
/// pauses is the state after the first, and so are the pause state and
/// every reading.
pub proof fn law_pause_idempotent(state: StopwatchState, first: int, second: int)
    ensures
        state.pause(first).pause(second) == state.pause(first),
        state.pause(first).pause(second).paused() == state.pause(first).paused(),
        forall|now: int|
            #[trigger] state.pause(first).pause(second).time(now) == state.pause(first).time(now),
{
}

/// A second unpause changes nothing, whenever it comes.
pub proof fn law_unpause_idempotent(state: StopwatchState, first: int, second: int)
    ensures
        state.unpause(first).unpause(second) == state.unpause(first),
        state.unpause(first).unpause(second).paused() == state.unpause(first).paused(),
        forall|now: int|
            #[trigger] state.unpause(first).unpause(second).time(now) == state.unpause(
                first,
            ).time(now),
{
}

/// A paused stopwatch stands still: its reading is the reading at the
/// pause, whatever the clock reads.
pub proof fn law_paused_time_is_frozen(state: StopwatchState, paused: int, now: int)
    ensures
        state.pause(paused).paused(),
        state.pause(paused).time(now) == state.time(paused),
{
}

/// A stopwatch that is paused at one instant and resumed at any other
/// then reads what its reading at the pause amounts to when it is taken for
/// a raw span. At the speed of the clock that is the reading itself, so
/// that a pause loses no time and adds none; at another speed the reading
/// is kept exactly where scaling leaves it as it is, and only there.
pub proof fn law_pause_resume(state: StopwatchState, paused: int, resumed: int)
    requires
        fits(resumed - state.time(paused)),
    ensures
        !state.pause(paused).unpause(resumed).paused(),
        state.pause(paused).unpause(resumed).time(resumed) == clamp(
            to_logical(state.time(paused), state.speed),
        ),
        state.speed == NANOS_PER_SECOND ==> state.pause(paused).unpause(resumed).time(resumed)
            == state.time(paused),
        state.pause(paused).unpause(resumed).time(resumed) == state.time(paused) <==> clamp(
            to_logical(state.time(paused), state.speed),
        ) == state.time(paused),
{
    lemma_unit_speed(state.time(paused));
}

/// A running stopwatch that is set to `value` reads `value` at that
/// instant, less what rounding loses: under a nanosecond and the logical
/// time of one raw nanosecond. At the speed of the clock it reads `value`
/// exactly.
pub proof fn law_set_time_running(state: StopwatchState, value: int, now: int)
    requires
        !state.paused(),
        state.speed != 0,
        fits(value),
        fits(now - to_raw(value, state.speed)),
    ensures
        !state.set_time(value, now).paused(),
        state.set_time(value, now).time(now) <= value,
        (value - state.set_time(value, now).time(now)) * 1_000_000_000 < abs(state.speed)
            + 1_000_000_000,
        state.speed == NANOS_PER_SECOND ==> state.set_time(value, now).time(now) == value,
{
    lemma_round_trip(value, state.speed);
    lemma_unit_speed(value);
}

/// A paused stopwatch that is set to any value is frozen at its new start,
/// and reads zero until it is resumed.
pub proof fn law_set_time_paused(state: StopwatchState, value: int, now: int, later: int)
    requires
        state.paused(),
    ensures
        state.set_time(value, now).paused(),
        state.set_time(value, now).time(later) == 0,
{
    lemma_zero_span(state.speed);
}

/// To reset is to set the time to zero, and a stopwatch that was reset
/// reads zero at that instant, paused or not.
pub proof fn law_reset(state: StopwatchState, now: int)
    requires
        state.wf(),
        fits(now),
    ensures
        state.reset(now) == state.set_time(0, now),
        state.reset(now).paused() == state.paused(),
        state.reset(now).time(now) == 0,
{
    lemma_zero_span(state.speed);
}

/// A running stopwatch that is set to `value` and advanced by `delta` reads
/// their sum at that instant, less what rounding loses: under a nanosecond
/// and the logical time of two raw nanoseconds. At the speed of the clock
/// it reads the sum exactly.
pub proof fn law_add_time_running(state: StopwatchState, value: int, delta: int, now: int)
    requires
        !state.paused(),
        state.speed != 0,
        fits(value + delta),
        fits(now - to_raw(value, state.speed)),
        fits(now - to_raw(value, state.speed) - to_raw(delta, state.speed)),
    ensures
        state.set_time(value, now).add_time(delta).time(now) <= value + delta,
        (value + delta - state.set_time(value, now).add_time(delta).time(now)) * 1_000_000_000
            < 2 * abs(state.speed) + 1_000_000_000,
        state.speed == NANOS_PER_SECOND ==> state.set_time(value, now).add_time(delta).time(now)
            == value + delta,
{
    lemma_round_trip_sum(value, delta, state.speed);
    lemma_unit_speed(value);
    lemma_unit_speed(delta);
    lemma_unit_speed(value + delta);
}

/// A running stopwatch that is advanced by `delta` reads `delta` more at
/// the same instant, less what rounding loses: under a nanosecond and the
/// logical time of one raw nanosecond. At the speed of the clock it reads
/// exactly `delta` more.
pub proof fn law_add_time_advances(state: StopwatchState, delta: int, now: int)
    requires
        !state.paused(),
        state.speed != 0,
        fits(state.start_time - to_raw(delta, state.speed)),
        fits(to_logical(now - state.start_time, state.speed)),
        fits(state.time(now) + delta),
    ensures
        state.add_time(delta).time(now) <= state.time(now) + delta,
        (state.time(now) + delta - state.add_time(delta).time(now)) * 1_000_000_000 < abs(
            state.speed,
        ) + 1_000_000_000,
        state.speed == NANOS_PER_SECOND ==> state.add_time(delta).time(now) == state.time(now)
            + delta,
{
    lemma_extended_span(now - state.start_time, delta, state.speed);
    lemma_unit_speed(delta);
    lemma_unit_speed(now - state.start_time);
    lemma_unit_speed(now - state.start_time + delta);
}

/// A paused stopwatch that is advanced by `delta` has its start moved back
/// and the instant of its pause moved on, both by `delta` at the speed of
/// the clock: it then reads twice `delta` more.
pub proof fn law_add_time_paused(state: StopwatchState, delta: int, now: int)
    requires
        state.paused(),
        state.speed == NANOS_PER_SECOND,
        fits(state.start_time - delta),
        fits(state.paused_at->Some_0 + delta),
        fits(state.paused_at->Some_0 - state.start_time),
        fits(state.time(now) + 2 * delta),
    ensures
        state.add_time(delta).paused(),
        state.add_time(delta).time(now) == state.time(now) + 2 * delta,
{
    lemma_unit_speed(delta);
    lemma_unit_speed(state.paused_at->Some_0 - state.start_time);
    lemma_unit_speed(state.paused_at->Some_0 - state.start_time + 2 * delta);
}

/// The reading of a stopwatch whose speed is not negative never falls as
/// the clock moves on.
pub proof fn law_time_is_monotone(state: StopwatchState, earlier: int, later: int)
    requires
        state.speed >= 0,
        earlier <= later,
    ensures
        state.time(earlier) <= state.time(later),
{
    lemma_to_logical_monotone(
        state.end_time(earlier) - state.start_time,
        state.end_time(later) - state.start_time,
        state.speed,
    );
}

/// A stopwatch that runs from `start` at `speed` reads, `elapsed` raw
/// nanoseconds later, the product of `elapsed` and `speed` in seconds,
/// rounded down to a whole nanosecond.
pub proof fn law_speed_scaling(start: int, speed: int, elapsed: int)
    requires
        fits(to_logical(elapsed, speed)),
    ensures
        StopwatchState::started(start, speed).time(start + elapsed) == to_logical(elapsed, speed),
        to_logical(elapsed, speed) * 1_000_000_000 <= elapsed * speed,
        elapsed * speed < to_logical(elapsed, speed) * 1_000_000_000 + 1_000_000_000,
{
    lemma_to_logical_floor(elapsed, speed);
}

/// A toggle pauses a running stopwatch, and a second one sets it running
/// again; the reading is then what a pause and an unpause leave.
pub proof fn law_toggle_pause(state: StopwatchState, first: int, second: int)
    requires
        !state.paused(),
        fits(second - state.time(first)),
    ensures
        state.toggle_pause(first).paused(),
        !state.toggle_pause(first).toggle_pause(second).paused(),
        state.toggle_pause(first).toggle_pause(second) == state.pause(first).unpause(second),
        state.toggle_pause(first).toggle_pause(second).time(second) == clamp(
            to_logical(state.time(first), state.speed),
        ),
        state.speed == NANOS_PER_SECOND ==> state.toggle_pause(first).toggle_pause(second).time(
            second,
        ) == state.time(first),
{
    law_pause_resume(state, first, second);
}

} // verus!
