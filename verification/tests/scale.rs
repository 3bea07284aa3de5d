use stopwatch::scale::{logical_between, raw_for, saturate};
use stopwatch::NANOS_PER_SECOND;

#[test]
fn unit_is_a_billion() {
    assert_eq!(NANOS_PER_SECOND, 1_000_000_000);
}

#[test]
fn saturate_keeps_what_fits() {
    assert_eq!(saturate(0), 0);
    assert_eq!(saturate(5), 5);
    assert_eq!(saturate(-5), -5);
    assert_eq!(saturate(i64::MAX as i128), i64::MAX);
    assert_eq!(saturate(i64::MIN as i128), i64::MIN);
}

#[test]
fn saturate_stops_at_the_ends() {
    assert_eq!(saturate(i64::MAX as i128 + 1), i64::MAX);
    assert_eq!(saturate(i64::MIN as i128 - 1), i64::MIN);
    assert_eq!(saturate(i128::MAX), i64::MAX);
    assert_eq!(saturate(i128::MIN), i64::MIN);
}

#[test]
fn logical_between_at_clock_speed_is_the_difference() {
    assert_eq!(logical_between(100, 150, NANOS_PER_SECOND), 50);
    assert_eq!(logical_between(150, 100, NANOS_PER_SECOND), -50);
    assert_eq!(logical_between(-7, -7, NANOS_PER_SECOND), 0);
}

#[test]
fn logical_between_multiplies_by_the_speed() {
    assert_eq!(logical_between(100, 150, 2_000_000_000), 100);
    assert_eq!(logical_between(0, 60_000_000_000, 16_666_666), 999_999_960);
    assert_eq!(logical_between(0, 1_000, -1_000_000_000), -1_000);
    assert_eq!(logical_between(0, 1_000, 0), 0);
}

#[test]
fn logical_between_rounds_down() {
    assert_eq!(logical_between(0, 3, 500_000_000), 1);
    assert_eq!(logical_between(3, 0, 500_000_000), -2);
    assert_eq!(logical_between(0, 3, -500_000_000), -2);
    assert_eq!(logical_between(3, 0, -500_000_000), 1);
    assert_eq!(logical_between(0, 1, 999_999_999), 0);
    assert_eq!(logical_between(1, 0, 1), -1);
}

#[test]
fn logical_between_saturates() {
    assert_eq!(logical_between(i64::MIN, i64::MAX, NANOS_PER_SECOND), i64::MAX);
    assert_eq!(logical_between(i64::MAX, i64::MIN, NANOS_PER_SECOND), i64::MIN);
    assert_eq!(logical_between(i64::MIN, i64::MAX, i64::MAX), i64::MAX);
    assert_eq!(logical_between(i64::MIN, i64::MAX, i64::MIN), i64::MIN);
    assert_eq!(logical_between(0, i64::MAX, 1), 9_223_372_036);
}

#[test]
fn raw_for_at_clock_speed_is_the_same_span() {
    assert_eq!(raw_for(0, NANOS_PER_SECOND), 0);
    assert_eq!(raw_for(12_345, NANOS_PER_SECOND), 12_345);
    assert_eq!(raw_for(-12_345, NANOS_PER_SECOND), -12_345);
    assert_eq!(raw_for(i64::MAX, NANOS_PER_SECOND), i64::MAX as i128);
    assert_eq!(raw_for(i64::MIN, NANOS_PER_SECOND), i64::MIN as i128);
}

#[test]
fn raw_for_divides_with_a_remainder_that_is_never_negative() {
    assert_eq!(raw_for(7, 2_000_000_000), 3);
    assert_eq!(raw_for(-7, 2_000_000_000), -4);
    assert_eq!(raw_for(7, -2_000_000_000), -3);
    assert_eq!(raw_for(-7, -2_000_000_000), 4);
    assert_eq!(raw_for(1, i64::MAX), 0);
    assert_eq!(raw_for(-1, i64::MAX), -1);
}

#[test]
fn raw_for_at_speed_zero_is_zero() {
    assert_eq!(raw_for(0, 0), 0);
    assert_eq!(raw_for(5, 0), 0);
    assert_eq!(raw_for(-5, 0), 0);
    assert_eq!(raw_for(i64::MAX, 0), 0);
}

#[test]
fn raw_for_goes_beyond_sixty_four_bits() {
    assert_eq!(raw_for(i64::MAX, 1), i64::MAX as i128 * 1_000_000_000);
    assert_eq!(raw_for(i64::MIN, 1), i64::MIN as i128 * 1_000_000_000);
    assert_eq!(raw_for(i64::MIN, -1), -(i64::MIN as i128) * 1_000_000_000);
    assert_eq!(raw_for(1_000, 16_666_666), 60_000);
    assert_eq!(raw_for(1_000_000_000, 16_666_666), 60_000_002_400);
}
