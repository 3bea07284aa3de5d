//! Conversion between raw and logical time.
//!
//! Raw time is what the clock reads; logical time is what a stopwatch
//! reports. A speed is the number of logical nanoseconds that pass in one raw
//! second, so that `NANOS_PER_SECOND` is the speed of the clock itself.

use vstd::prelude::*;
use vstd::math::abs;

verus! {

/// Nanoseconds in a second, and the speed at which logical time keeps pace
/// with raw time.
pub const NANOS_PER_SECOND: i64 = 1_000_000_000;

/// Whether `x` can be held in an `i64`.
pub open spec fn fits(x: int) -> bool {
    i64::MIN <= x <= i64::MAX
}

/// The value of `i64` nearest to `x`.
pub open spec fn clamp(x: int) -> int {
    if x < i64::MIN {
        i64::MIN as int
    } else if x > i64::MAX {
        i64::MAX as int
    } else {
        x
    }
}

/// The logical time that passes in `raw` nanoseconds at `speed`, rounded
/// down to a whole nanosecond. The divisor is `NANOS_PER_SECOND`.
pub open spec fn to_logical(raw: int, speed: int) -> int {
    raw * speed / 1_000_000_000
}

/// The raw time in which `logical` nanoseconds pass at `speed`: the quotient
/// of Euclidean division, whose remainder is never negative. At speed zero
/// no raw time yields any logical time, and the result is zero. The factor
/// is `NANOS_PER_SECOND`.
pub open spec fn to_raw(logical: int, speed: int) -> int {
    if speed == 0 {
        0
    } else {
        logical * 1_000_000_000 / speed
    }
}

/// Euclidean division of `x` by `d`: the quotient times `d`, and a
/// remainder from zero up to the size of `d`, make up `x`.
pub proof fn lemma_euclid(x: int, d: int)
    requires
        d != 0,
    ensures
        x == d * (x / d) + x % d,
        0 <= x % d,
        d > 0 ==> x % d < d,
        d < 0 ==> x % d < -d,
{
    vstd::arithmetic::div_mod::lemma_fundamental_div_mod(x, d);
    assert(0 <= x % d && (d > 0 ==> x % d < d) && (d < 0 ==> x % d < -d)) by (nonlinear_arith)
        requires
            d != 0,
    ;
}

/// A Euclidean quotient is no farther from zero than its dividend.
pub proof fn lemma_quotient_within_dividend(x: int, d: int)
    requires
        d != 0,
    ensures
        x >= 0 ==> (-x <= x / d && x / d <= x),
        x < 0 ==> (x <= x / d && x / d <= -x),
{
    let q = x / d;
    let r = x % d;
    lemma_euclid(x, d);
    assert((x >= 0 ==> -x <= q <= x) && (x < 0 ==> x <= q <= -x)) by (nonlinear_arith)
        requires
            x == d * q + r,
            d != 0,
            0 <= r,
            d > 0 ==> r < d,
            d < 0 ==> r < -d,
    ;
}

/// Brings `x` into the range of `i64`.
pub fn saturate(x: i128) -> (r: i64)
    ensures
        r == clamp(x as int),
{
    if x < i64::MIN as i128 {
        i64::MIN
    } else if x > i64::MAX as i128 {
        i64::MAX
    } else {
        x as i64
    }
}

/// The logical time that passes between the raw instants `start` and `end`
/// at `speed`, brought into the range of `i64`.
pub fn logical_between(start: i64, end: i64, speed: i64) -> (logical: i64)
    ensures
        logical == clamp(to_logical(end - start, speed as int)),
{
    let span: i128 = end as i128 - start as i128;
    assert(-0x8000_0000_0000_0000_0000_0000_0000_0000 < span * speed
        < 0x8000_0000_0000_0000_0000_0000_0000_0000) by (nonlinear_arith)
        requires
            -0x1_0000_0000_0000_0000 < span < 0x1_0000_0000_0000_0000,
            -0x8000_0000_0000_0000 <= speed < 0x8000_0000_0000_0000,
    ;
    let product: i128 = span * (speed as i128);
    match product.checked_div_euclid(NANOS_PER_SECOND as i128) {
        Some(quotient) => saturate(quotient),
        // The divisor is not zero and the quotient is no larger than the
        // product, so this arm is never taken.
        None => 0,
    }
}

/// The raw time in which `logical` nanoseconds pass at `speed`. It is no
/// farther from zero than `logical` seconds are.
pub fn raw_for(logical: i64, speed: i64) -> (raw: i128)
    ensures
        raw == to_raw(logical as int, speed as int),
        logical >= 0 ==> (-(logical * 1_000_000_000) <= raw && raw <= logical * 1_000_000_000),
        logical < 0 ==> (logical * 1_000_000_000 <= raw && raw <= -(logical * 1_000_000_000)),
{
    assert(logical * NANOS_PER_SECOND == logical * 1_000_000_000) by (nonlinear_arith)
        requires
            NANOS_PER_SECOND == 1_000_000_000,
    ;
    let scaled: i128 = logical as i128 * NANOS_PER_SECOND as i128;
    proof {
        if speed != 0 {
            lemma_quotient_within_dividend(scaled as int, speed as int);
        }
    }
    match scaled.checked_div_euclid(speed as i128) {
        Some(quotient) => quotient,
        // Only a speed of zero leads here.
        None => 0,
    }
}

/// At the speed of the clock, raw and logical time are the same.
pub proof fn lemma_unit_speed(x: int)
    ensures
        to_logical(x, NANOS_PER_SECOND as int) == x,
        to_raw(x, NANOS_PER_SECOND as int) == x,
{
    assert(x * (NANOS_PER_SECOND as int) == x * 1_000_000_000) by (nonlinear_arith)
        requires
            NANOS_PER_SECOND == 1_000_000_000,
    ;
}

/// No time passes in no time, at any speed.
pub proof fn lemma_zero_span(speed: int)
    ensures
        to_logical(0, speed) == 0,
        to_raw(0, speed) == 0,
{
    assert(0 * speed == 0) by (nonlinear_arith);
    if speed != 0 {
        lemma_quotient_within_dividend(0, speed);
    }
}

/// Rounding down to a whole logical nanosecond loses less than one.
pub proof fn lemma_to_logical_floor(raw: int, speed: int)
    ensures
        to_logical(raw, speed) * 1_000_000_000 <= raw * speed,
        raw * speed < to_logical(raw, speed) * 1_000_000_000 + 1_000_000_000,
{
    lemma_euclid(raw * speed, 1_000_000_000);
}

/// Turning logical time into raw time and back loses what the two
/// roundings lose: the result is not above `logical`, and falls short of it
/// by less than one nanosecond and the logical time of one raw nanosecond.
pub proof fn lemma_round_trip(logical: int, speed: int)
    requires
        speed != 0,
    ensures
        to_logical(to_raw(logical, speed), speed) <= logical,
        (logical - to_logical(to_raw(logical, speed), speed)) * 1_000_000_000 < abs(speed)
            + 1_000_000_000,
{
    let raw = to_raw(logical, speed);
    let lost = (logical * 1_000_000_000) % speed;
    lemma_euclid(logical * 1_000_000_000, speed);
    lemma_to_logical_floor(raw, speed);
    assert(raw * speed == logical * 1_000_000_000 - lost) by (nonlinear_arith)
        requires
            logical * 1_000_000_000 == speed * raw + lost,
    ;
}

/// Two logical spans that are turned into raw time one by one, and back
/// together, lose what three roundings lose.
pub proof fn lemma_round_trip_sum(first: int, second: int, speed: int)
    requires
        speed != 0,
    ensures
        to_logical(to_raw(first, speed) + to_raw(second, speed), speed) <= first + second,
        (first + second - to_logical(to_raw(first, speed) + to_raw(second, speed), speed))
            * 1_000_000_000 < 2 * abs(speed) + 1_000_000_000,
{
    let raw_first = to_raw(first, speed);
    let raw_second = to_raw(second, speed);
    let lost_first = (first * 1_000_000_000) % speed;
    let lost_second = (second * 1_000_000_000) % speed;
    lemma_euclid(first * 1_000_000_000, speed);
    lemma_euclid(second * 1_000_000_000, speed);
    lemma_to_logical_floor(raw_first + raw_second, speed);
    assert((raw_first + raw_second) * speed == (first + second) * 1_000_000_000 - lost_first
        - lost_second) by (nonlinear_arith)
        requires
            first * 1_000_000_000 == speed * raw_first + lost_first,
            second * 1_000_000_000 == speed * raw_second + lost_second,
    ;
}

/// A raw span that grows by the raw time of `logical` yields `logical` more
/// logical time, less what two roundings lose.
pub proof fn lemma_extended_span(raw: int, logical: int, speed: int)
    requires
        speed != 0,
    ensures
        to_logical(raw + to_raw(logical, speed), speed) <= to_logical(raw, speed) + logical,
        (to_logical(raw, speed) + logical - to_logical(raw + to_raw(logical, speed), speed))
            * 1_000_000_000 < abs(speed) + 1_000_000_000,
{
    let added = to_raw(logical, speed);
    let lost = (logical * 1_000_000_000) % speed;
    lemma_euclid(logical * 1_000_000_000, speed);
    lemma_to_logical_floor(raw, speed);
    lemma_to_logical_floor(raw + added, speed);
    assert((raw + added) * speed == raw * speed + logical * 1_000_000_000 - lost)
        by (nonlinear_arith)
        requires
            logical * 1_000_000_000 == speed * added + lost,
    ;
}

/// At a speed that is not negative, a longer raw span yields no less
/// logical time.
pub proof fn lemma_to_logical_monotone(shorter: int, longer: int, speed: int)
    requires
        shorter <= longer,
        speed >= 0,
    ensures
        to_logical(shorter, speed) <= to_logical(longer, speed),
{
    assert(shorter * speed <= longer * speed) by (nonlinear_arith)
        requires
            shorter <= longer,
            speed >= 0,
    ;
}

} // verus!
