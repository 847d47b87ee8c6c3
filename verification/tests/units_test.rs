use highfives::units::{elapsed, isqrt_ceil, saturating_sum, UNIT};

#[test]
fn elapsed_integrates_a_rate_over_microseconds() {
    // 250 px/s over a 60th of a second
    assert_eq!(elapsed(250 * UNIT, 16_667), 4_166_750);
    assert_eq!(elapsed(200 * UNIT, 1_000_000), 200 * UNIT);
    assert_eq!(elapsed(0, 123_456), 0);
    assert_eq!(elapsed(1_000_000, 0), 0);
}

#[test]
fn elapsed_rounds_toward_zero_for_both_signs() {
    assert_eq!(elapsed(3, 500_000), 1);
    assert_eq!(elapsed(-3, 500_000), -1);
    assert_eq!(elapsed(1, 999_999), 0);
    assert_eq!(elapsed(-1, 999_999), 0);
    assert_eq!(elapsed(-250 * UNIT, 16_667), -4_166_750);
}

#[test]
fn isqrt_ceil_rounds_up() {
    assert_eq!(isqrt_ceil(0), 0);
    assert_eq!(isqrt_ceil(1), 1);
    assert_eq!(isqrt_ceil(2), 2);
    assert_eq!(isqrt_ceil(4), 2);
    assert_eq!(isqrt_ceil(5), 3);
    assert_eq!(isqrt_ceil(9), 3);
    assert_eq!(isqrt_ceil(10), 4);
    assert_eq!(isqrt_ceil(250_000_000_000_000_000_000_000), 500_000_000_000);
    assert_eq!(isqrt_ceil(250_000_000_000_000_000_000_001), 500_000_000_001);
}

#[test]
fn isqrt_ceil_takes_the_whole_range() {
    assert_eq!(isqrt_ceil(u128::MAX), 1u128 << 64);
    let r = (1u128 << 64) - 1;
    assert_eq!(isqrt_ceil(r * r), r);
    assert_eq!(isqrt_ceil(r * r + 1), 1u128 << 64);
}

#[test]
fn saturating_sum_stops_at_the_ends() {
    assert_eq!(saturating_sum(1, 2), 3);
    assert_eq!(saturating_sum(-5, 2), -3);
    assert_eq!(saturating_sum(i64::MAX, 1), i64::MAX);
    assert_eq!(saturating_sum(i64::MIN, -1), i64::MIN);
    assert_eq!(saturating_sum(i64::MAX, i64::MIN), -1);
}
