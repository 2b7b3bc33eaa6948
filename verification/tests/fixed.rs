use camera_rig::fixed::{accrue, clamp, powi, ratio, saturating_add, scale, ONE};

#[test]
fn one_is_a_million() {
    assert_eq!(ONE, 1_000_000);
}

#[test]
fn sums_stop_at_the_ends_of_the_range() {
    assert_eq!(saturating_add(2 * ONE, 3 * ONE), 5 * ONE);
    assert_eq!(saturating_add(i64::MAX, 1), i64::MAX);
    assert_eq!(saturating_add(i64::MIN, -1), i64::MIN);
    assert_eq!(saturating_add(i64::MAX, i64::MIN), -1);
}

#[test]
fn clamp_keeps_a_value_between_its_bounds() {
    assert_eq!(clamp(-5, 0, ONE), 0);
    assert_eq!(clamp(ONE + 1, 0, ONE), ONE);
    assert_eq!(clamp(600_000, 0, ONE), 600_000);
    assert_eq!(clamp(7, 7, 7), 7);
}

#[test]
fn products_round_down_to_a_millionth() {
    assert_eq!(scale(1_500_000, 500_000), 750_000);
    assert_eq!(scale(ONE, ONE), ONE);
    assert_eq!(scale(3, 333_333), 0);
    assert_eq!(scale(-1, 500_000), -1);
    assert_eq!(scale(-3 * ONE, 2 * ONE), -6 * ONE);
    assert_eq!(scale(0, i64::MIN), 0);
}

#[test]
fn products_stop_at_the_ends_of_the_range() {
    assert_eq!(scale(i64::MAX, 2 * ONE), i64::MAX);
    assert_eq!(scale(i64::MAX, -2 * ONE), i64::MIN);
    assert_eq!(scale(i64::MIN, i64::MIN), i64::MAX);
    assert_eq!(scale(i64::MAX, ONE), i64::MAX);
}

#[test]
fn ratio_is_the_share_of_time_used() {
    assert_eq!(ratio(0, 300_000), 0);
    assert_eq!(ratio(150_000, 300_000), 500_000);
    assert_eq!(ratio(1, 3), 333_333);
    assert_eq!(ratio(2, 3), 666_666);
    assert_eq!(ratio(300_000, 300_000), ONE);
    assert_eq!(ratio(400_000, 300_000), ONE);
    assert_eq!(ratio(u64::MAX - 1, u64::MAX), 999_999);
}

#[test]
fn a_span_of_no_length_has_passed() {
    assert_eq!(ratio(0, 0), ONE);
    assert_eq!(ratio(5, 0), ONE);
}

#[test]
fn powers_multiply_step_by_step() {
    assert_eq!(powi(500_000, 0), ONE);
    assert_eq!(powi(500_000, 1), 500_000);
    assert_eq!(powi(500_000, 2), 250_000);
    assert_eq!(powi(500_000, 3), 125_000);
    assert_eq!(powi(999_999, 2), 999_998);
    assert_eq!(powi(2 * ONE, 10), 1024 * ONE);
    assert_eq!(powi(-2 * ONE, 3), -8 * ONE);
}

#[test]
fn powers_that_settle_end_early() {
    assert_eq!(powi(0, 0), ONE);
    assert_eq!(powi(0, 3), 0);
    assert_eq!(powi(0, u32::MAX), 0);
    assert_eq!(powi(ONE, u32::MAX), ONE);
    assert_eq!(powi(1, 2), 0);
    assert_eq!(powi(1000, u32::MAX), 0);
}

#[test]
fn accrue_is_rate_times_time() {
    assert_eq!(accrue(800_000, 500_000), 400_000);
    assert_eq!(accrue(800_000, 0), 0);
    assert_eq!(accrue(15 * ONE, 2_000_000), 30 * ONE);
    assert_eq!(accrue(-800_000, 250_000), -200_000);
    assert_eq!(accrue(1, 999_999), 0);
    assert_eq!(accrue(-1, 1), -1);
    assert_eq!(accrue(i64::MAX, u64::MAX), i64::MAX);
    assert_eq!(accrue(i64::MIN, u64::MAX), i64::MIN);
}
