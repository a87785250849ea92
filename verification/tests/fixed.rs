use lander::fixed::{divide, from_whole, hypot, minus, pixel, plus, sqrt, times, whole, ONE};

#[test]
fn one_is_a_million() {
    assert_eq!(ONE, 1_000_000);
    assert_eq!(from_whole(3), 3_000_000);
    assert_eq!(from_whole(-80), -80_000_000);
}

#[test]
fn plus_and_minus_are_exact_in_range() {
    assert_eq!(plus(1_500_000, 2_250_000), 3_750_000);
    assert_eq!(plus(-1, 1), 0);
    assert_eq!(minus(1_500_000, 2_250_000), -750_000);
}

#[test]
fn plus_and_minus_saturate() {
    assert_eq!(plus(i64::MAX, 1), i64::MAX);
    assert_eq!(plus(i64::MIN, -1), i64::MIN);
    assert_eq!(minus(i64::MIN, 1), i64::MIN);
    assert_eq!(minus(i64::MAX, -1), i64::MAX);
    assert_eq!(minus(0, i64::MIN), i64::MAX);
}

#[test]
fn times_rounds_toward_zero() {
    assert_eq!(times(1_500_000, 2_000_000), 3_000_000);
    assert_eq!(times(3, 500_000), 1);
    assert_eq!(times(1, 500_000), 0);
    assert_eq!(times(-1, 500_000), 0);
    assert_eq!(times(-3, 500_000), -1);
    assert_eq!(times(-1_500_000, 2_000_000), -3_000_000);
    assert_eq!(times(-1_500_000, -2_000_000), 3_000_000);
}

#[test]
fn times_saturates() {
    assert_eq!(times(i64::MAX, 2_000_000), i64::MAX);
    assert_eq!(times(i64::MIN, 2_000_000), i64::MIN);
    assert_eq!(times(i64::MIN, -2_000_000), i64::MAX);
    assert_eq!(times(i64::MIN, i64::MIN), i64::MAX);
    assert_eq!(times(i64::MAX, ONE), i64::MAX);
}

#[test]
fn divide_rounds_toward_zero() {
    assert_eq!(divide(15_000_000, 50_000_000), 300_000);
    assert_eq!(divide(1_000_000, 3_000_000), 333_333);
    assert_eq!(divide(-1_000_000, 3_000_000), -333_333);
    assert_eq!(divide(1_000_000, -3_000_000), -333_333);
    assert_eq!(divide(-1_000_000, -3_000_000), 333_333);
    assert_eq!(divide(0, -3_000_000), 0);
}

#[test]
fn divide_saturates() {
    assert_eq!(divide(i64::MAX, 1), i64::MAX);
    assert_eq!(divide(i64::MIN, 1), i64::MIN);
    assert_eq!(divide(i64::MIN, -1), i64::MAX);
}

#[test]
fn whole_and_pixel_drop_the_fraction() {
    assert_eq!(whole(2_999_999), 2);
    assert_eq!(whole(-2_999_999), -2);
    assert_eq!(pixel(159_999_999), 159);
    assert_eq!(pixel(-500_000), 0);
    assert_eq!(pixel(-1_000_000), -1);
    assert_eq!(pixel(i64::MAX), i32::MAX);
    assert_eq!(pixel(i64::MIN), i32::MIN);
}

#[test]
fn sqrt_rounds_down() {
    assert_eq!(sqrt(0), 0);
    assert_eq!(sqrt(1), 1);
    assert_eq!(sqrt(3), 1);
    assert_eq!(sqrt(4), 2);
    assert_eq!(sqrt(99), 9);
    assert_eq!(sqrt(100), 10);
    assert_eq!(sqrt(u128::MAX), u64::MAX);
    assert_eq!(sqrt((u64::MAX as u128) * (u64::MAX as u128) - 1), u64::MAX - 1);
}

#[test]
fn hypot_is_the_length() {
    assert_eq!(hypot(3_000_000, 4_000_000), 5_000_000);
    assert_eq!(hypot(-3_000_000, 4_000_000), 5_000_000);
    assert_eq!(hypot(0, 0), 0);
    assert_eq!(hypot(1, 1), 1);
    assert_eq!(hypot(100_000, 0), 100_000);
    assert_eq!(hypot(i64::MIN, i64::MIN), i64::MAX);
    assert_eq!(hypot(i64::MAX, 0), i64::MAX);
}
