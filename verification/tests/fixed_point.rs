use pong::units::{advance, elapsed, to_pixels};

#[test]
fn advance_is_exact() {
    assert_eq!(advance(0, 300, 1_000_000_000), 300_000_000_000);
    assert_eq!(advance(20_000_000_000, 300, 16_000_000), 24_800_000_000);
    assert_eq!(advance(5, -400, 3), -1_195);
    assert_eq!(advance(-7, 0, u64::MAX), -7);
    assert_eq!(advance(123, 1, 1), 124);
    assert_eq!(advance(123, 77, 0), 123);
}

#[test]
fn advance_stops_at_the_ends_of_the_range() {
    assert_eq!(advance(i64::MAX, 1, 1), i64::MAX);
    assert_eq!(advance(i64::MIN, -1, 1), i64::MIN);
    assert_eq!(advance(0, 300, u64::MAX), i64::MAX);
    assert_eq!(advance(0, -300, u64::MAX), i64::MIN);
    assert_eq!(advance(i64::MAX, i64::MAX, u64::MAX), i64::MAX);
    assert_eq!(advance(i64::MIN, i64::MIN, u64::MAX), i64::MIN);
    assert_eq!(advance(i64::MAX - 10, 2, 5), i64::MAX);
    assert_eq!(advance(i64::MAX - 10, 2, 4), i64::MAX - 2);
    assert_eq!(advance(i64::MIN, i64::MAX, 1), -1);
}

#[test]
fn elapsed_is_the_difference_or_zero() {
    assert_eq!(elapsed(10, 3), 7);
    assert_eq!(elapsed(3, 3), 0);
    assert_eq!(elapsed(3, 10), 0);
    assert_eq!(elapsed(u64::MAX, 0), u64::MAX);
    assert_eq!(elapsed(0, u64::MAX), 0);
}

#[test]
fn to_pixels_rounds_towards_zero() {
    assert_eq!(to_pixels(0), 0);
    assert_eq!(to_pixels(999_999_999), 0);
    assert_eq!(to_pixels(1_000_000_000), 1);
    assert_eq!(to_pixels(392_500_000_000), 392);
    assert_eq!(to_pixels(i64::MAX), 9_223_372_036);
}

#[test]
fn to_pixels_rounds_lengths_below_zero_towards_zero_too() {
    assert_eq!(to_pixels(-1), 0);
    assert_eq!(to_pixels(-999_999_999), 0);
    assert_eq!(to_pixels(-1_000_000_000), -1);
    assert_eq!(to_pixels(-3_200_000_000), -3);
    assert_eq!(to_pixels(-5_000_000_000), -5);
    assert_eq!(to_pixels(i64::MIN + 1), -9_223_372_036);
    assert_eq!(to_pixels(i64::MIN), -9_223_372_036);
}
