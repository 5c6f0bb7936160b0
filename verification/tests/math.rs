use glulands::math::{isqrt, saturating};

#[test]
fn square_roots_are_rounded_down() {
    assert_eq!(isqrt(0), 0);
    assert_eq!(isqrt(1), 1);
    assert_eq!(isqrt(2), 1);
    assert_eq!(isqrt(3), 1);
    assert_eq!(isqrt(4), 2);
    assert_eq!(isqrt(15), 3);
    assert_eq!(isqrt(16), 4);
    assert_eq!(isqrt(2_500_000_000_000_000), 50_000_000);
    assert_eq!(isqrt(2_499_999_999_999_999), 49_999_999);
    assert_eq!(isqrt(1_000_000_000_000_000_000_000_000_000_000), 1_000_000_000_000_000);
    assert_eq!(isqrt(u128::MAX), u64::MAX);
    assert_eq!(isqrt(u64::MAX as u128 * u64::MAX as u128), u64::MAX);
    assert_eq!(isqrt(u64::MAX as u128 * u64::MAX as u128 - 1), u64::MAX - 1);
}

#[test]
fn values_inside_the_range_are_kept() {
    assert_eq!(saturating(0), 0);
    assert_eq!(saturating(-1), -1);
    assert_eq!(saturating(79_375_000), 79_375_000);
    assert_eq!(saturating(i64::MAX as i128), i64::MAX);
    assert_eq!(saturating(i64::MIN as i128), i64::MIN);
}

#[test]
fn values_outside_the_range_stop_at_its_ends() {
    assert_eq!(saturating(i64::MAX as i128 + 1), i64::MAX);
    assert_eq!(saturating(i64::MIN as i128 - 1), i64::MIN);
    assert_eq!(saturating(i128::MAX), i64::MAX);
    assert_eq!(saturating(i128::MIN), i64::MIN);
}
