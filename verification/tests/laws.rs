use stopwatch::{Stopwatch, NANOS_PER_SECOND};

#[test]
fn pausing_twice_is_pausing_once() {
    let mut once = Stopwatch::with_speed_at(750_000_000, 10);
    once.pause_at(1_000);
    let mut twice = once;
    twice.pause_at(2_000);
    assert_eq!(twice, once);
    assert_eq!(twice.paused(), once.paused());
    assert_eq!(twice.get_time_at(3_000), once.get_time_at(3_000));
    assert_eq!(twice.get_time_at(3_000), 742);
}

#[test]
fn unpausing_twice_is_unpausing_once() {
    let mut once = Stopwatch::new_at(10);
    once.pause_at(1_000);
    once.unpause_at(2_000);
    let mut twice = once;
    twice.unpause_at(3_000);
    assert_eq!(twice, once);
    assert_eq!(twice.paused(), once.paused());
    assert_eq!(twice.get_time_at(3_000), once.get_time_at(3_000));
    assert_eq!(twice.get_time_at(3_000), 1_990);
}

#[test]
fn a_pause_keeps_the_reading_at_clock_speed() {
    let mut stopwatch = Stopwatch::new_at(1_000_000);
    let before = stopwatch.get_time_at(7_000_000);
    stopwatch.pause_at(7_000_000);
    stopwatch.unpause_at(900_000_000);
    let after = stopwatch.get_time_at(900_000_000);
    assert_eq!(before, 6_000_000);
    assert_eq!(after, before);
}

#[test]
fn a_pause_scales_the_reading_at_another_speed() {
    let mut stopwatch = Stopwatch::with_speed_at(500_000_000, 0);
    let before = stopwatch.get_time_at(1_000);
    stopwatch.pause_at(1_000);
    stopwatch.unpause_at(50_000);
    let after = stopwatch.get_time_at(50_000);
    assert_eq!(before, 500);
    assert_eq!(after, 250);
}

#[test]
fn set_time_then_get_time_at_clock_speed() {
    let mut stopwatch = Stopwatch::new_at(123);
    for value in [0, 1, -1, 999, 1_000_000_007, -3_000_000_000, i64::MAX / 4] {
        stopwatch.set_time_at(value, 1_000_000);
        assert_eq!(stopwatch.get_time_at(1_000_000), value);
    }
}

#[test]
fn set_time_then_get_time_within_the_rounding() {
    let speed = 333_333_333;
    let mut stopwatch = Stopwatch::with_speed_at(speed, 0);
    stopwatch.set_time_at(1_000, 1_000_000);
    let reading = stopwatch.get_time_at(1_000_000);
    assert_eq!(reading, 999);
    assert!(reading <= 1_000);
    assert!((1_000 - reading) as i128 * 1_000_000_000 < speed as i128 + 1_000_000_000);
}

#[test]
fn set_time_while_paused_reads_zero() {
    let mut stopwatch = Stopwatch::new_at(0);
    stopwatch.pause_at(100);
    stopwatch.set_time_at(1_000_000_000, 200);
    assert_eq!(stopwatch.get_time_at(200), 0);
    stopwatch.unpause_at(300);
    assert_eq!(stopwatch.get_time_at(300), 0);
}

#[test]
fn reset_is_set_time_zero() {
    let mut reset = Stopwatch::with_speed_at(2_500_000_000, 77);
    let mut set = reset;
    reset.reset_at(10_000);
    set.set_time_at(0, 10_000);
    assert_eq!(reset, set);
    assert_eq!(reset.get_time_at(10_000), 0);

    let mut paused_reset = Stopwatch::with_speed_at(2_500_000_000, 77);
    paused_reset.pause_at(500);
    let mut paused_set = paused_reset;
    paused_reset.reset_at(10_000);
    paused_set.set_time_at(0, 10_000);
    assert_eq!(paused_reset, paused_set);
    assert_eq!(paused_reset.get_time_at(10_000), 0);
    assert!(paused_reset.paused());
}

#[test]
fn set_time_then_add_time_at_clock_speed() {
    let mut stopwatch = Stopwatch::new_at(0);
    stopwatch.set_time_at(5_000, 1_000_000);
    stopwatch.add_time(250);
    assert_eq!(stopwatch.get_time_at(1_000_000), 5_250);
    stopwatch.add_time(-6_000);
    assert_eq!(stopwatch.get_time_at(1_000_000), -750);
}

#[test]
fn set_time_then_add_time_within_the_rounding() {
    let speed = 333_333_333;
    let mut stopwatch = Stopwatch::with_speed_at(speed, 0);
    stopwatch.set_time_at(1_000, 1_000_000);
    stopwatch.add_time(1_000);
    let reading = stopwatch.get_time_at(1_000_000);
    assert_eq!(reading, 1_999);
    assert!(reading <= 2_000);
    assert!((2_000 - reading) as i128 * 1_000_000_000 < 2 * speed as i128 + 1_000_000_000);
}

#[test]
fn set_time_then_add_time_while_paused() {
    let mut stopwatch = Stopwatch::new_at(1_000);
    stopwatch.pause_at(3_000);
    stopwatch.set_time_at(500, 9_000);
    stopwatch.add_time(7);
    assert_eq!(stopwatch.get_time_at(9_000), 14);
}

#[test]
fn speed_scales_the_elapsed_time() {
    let double = Stopwatch::with_speed_at(2 * NANOS_PER_SECOND, 1_000);
    assert_eq!(double.get_time_at(1_000 + 3 * NANOS_PER_SECOND), 6 * NANOS_PER_SECOND);
    let half = Stopwatch::with_speed_at(NANOS_PER_SECOND / 2, 1_000);
    assert_eq!(half.get_time_at(1_000 + 3 * NANOS_PER_SECOND), 1_500_000_000);
    assert_eq!(half.get_time_at(1_003), 1);
}

#[test]
fn minutes_as_the_unit() {
    let stopwatch = Stopwatch::with_speed_at(NANOS_PER_SECOND / 60, 0);
    let reading = stopwatch.get_time_at(60 * NANOS_PER_SECOND);
    assert_eq!(reading, 999_999_960);
    assert!((NANOS_PER_SECOND - reading).abs() < 100);
}

#[test]
fn toggling_twice_keeps_the_reading() {
    let mut stopwatch = Stopwatch::new_at(0);
    let before = stopwatch.get_time_at(4_000);
    stopwatch.toggle_pause_at(4_000);
    assert!(stopwatch.paused());
    stopwatch.toggle_pause_at(90_000);
    assert!(!stopwatch.paused());
    assert_eq!(stopwatch.get_time_at(90_000), before);
    assert_eq!(before, 4_000);
}
