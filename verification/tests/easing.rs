use camera_rig::easing::{ease, interpolate, sample, EaseFunction};
use camera_rig::fixed::ONE;
use camera_rig::vector::Vec3;

fn all_curves() -> Vec<EaseFunction> {
    vec![
        EaseFunction::Linear,
        EaseFunction::QuadraticIn,
        EaseFunction::QuadraticOut,
        EaseFunction::QuadraticInOut,
        EaseFunction::CubicIn,
        EaseFunction::CubicOut,
    ]
}

#[test]
fn linear_ease_is_the_identity() {
    assert_eq!(ease(EaseFunction::Linear, 0), 0);
    assert_eq!(ease(EaseFunction::Linear, 250_000), 250_000);
    assert_eq!(ease(EaseFunction::Linear, ONE), ONE);
}

#[test]
fn every_curve_starts_at_zero_and_ends_at_one() {
    for kind in all_curves() {
        assert_eq!(ease(kind, 0), 0);
        assert_eq!(ease(kind, ONE), ONE);
    }
}

#[test]
fn every_curve_stays_between_zero_and_one() {
    for kind in all_curves() {
        let mut t = 0;
        while t <= ONE {
            let w = ease(kind, t);
            assert!(0 <= w && w <= ONE);
            t += 12_345;
        }
    }
}

#[test]
fn a_share_outside_the_time_counts_as_the_nearer_end() {
    for kind in all_curves() {
        assert_eq!(ease(kind, -1), 0);
        assert_eq!(ease(kind, i64::MIN), 0);
        assert_eq!(ease(kind, ONE + 1), ONE);
        assert_eq!(ease(kind, i64::MAX), ONE);
    }
}

#[test]
fn quadratic_curves_have_their_exact_values() {
    assert_eq!(ease(EaseFunction::QuadraticIn, 300_000), 90_000);
    assert_eq!(ease(EaseFunction::QuadraticIn, 500_000), 250_000);
    assert_eq!(ease(EaseFunction::QuadraticOut, 300_000), 510_000);
    assert_eq!(ease(EaseFunction::QuadraticOut, 500_000), 750_000);
    assert_eq!(ease(EaseFunction::QuadraticInOut, 250_000), 125_000);
    assert_eq!(ease(EaseFunction::QuadraticInOut, 500_000), 500_000);
    assert_eq!(ease(EaseFunction::QuadraticInOut, 750_000), 875_000);
}

#[test]
fn cubic_curves_have_their_exact_values() {
    assert_eq!(ease(EaseFunction::CubicIn, 500_000), 125_000);
    assert_eq!(ease(EaseFunction::CubicIn, 200_000), 8_000);
    assert_eq!(ease(EaseFunction::CubicOut, 500_000), 875_000);
    assert_eq!(ease(EaseFunction::CubicOut, 800_000), 992_000);
}

#[test]
fn curves_agree_with_their_formulas_in_floating_point() {
    let mut t = 0;
    while t <= ONE {
        let x = t as f64 / ONE as f64;
        let quad_out = 1.0 - (1.0 - x) * (1.0 - x);
        let cubic_in = x * x * x;
        let got_quad_out = ease(EaseFunction::QuadraticOut, t) as f64 / ONE as f64;
        let got_cubic_in = ease(EaseFunction::CubicIn, t) as f64 / ONE as f64;
        assert!((got_quad_out - quad_out).abs() < 0.000_002);
        assert!((got_cubic_in - cubic_in).abs() < 0.000_003);
        t += 1_000;
    }
}

#[test]
fn interpolate_rounds_down() {
    assert_eq!(interpolate(0, 10, 500_000), 5);
    assert_eq!(interpolate(0, -3, 500_000), -2);
    assert_eq!(interpolate(0, 3, 500_000), 1);
    assert_eq!(interpolate(7, 7, 123_456), 7);
    assert_eq!(interpolate(10 * ONE, 20 * ONE, 250_000), 12_500_000);
    assert_eq!(interpolate(20 * ONE, 10 * ONE, 250_000), 17_500_000);
}

#[test]
fn interpolate_reaches_both_ends_over_the_whole_range() {
    assert_eq!(interpolate(i64::MIN, i64::MAX, 0), i64::MIN);
    assert_eq!(interpolate(i64::MIN, i64::MAX, ONE), i64::MAX);
    assert_eq!(interpolate(i64::MAX, i64::MIN, ONE), i64::MIN);
    assert_eq!(interpolate(i64::MIN, i64::MAX, 500_000), -1);
}

#[test]
fn interpolate_beyond_the_ends_stops_at_the_range() {
    assert_eq!(interpolate(0, 10, 2 * ONE), 20);
    assert_eq!(interpolate(0, 10, -ONE), -10);
    assert_eq!(interpolate(0, i64::MAX, 2 * ONE), i64::MAX);
    assert_eq!(interpolate(0, i64::MAX, -2 * ONE), i64::MIN);
}

#[test]
fn linear_sample_lies_between_the_points() {
    let a = Vec3::new(10 * ONE, -4 * ONE, 0);
    let b = Vec3::new(20 * ONE, 4 * ONE, ONE);
    assert_eq!(sample(a, b, EaseFunction::Linear, 0), a);
    assert_eq!(sample(a, b, EaseFunction::Linear, ONE), b);
    assert_eq!(
        sample(a, b, EaseFunction::Linear, 250_000),
        Vec3::new(12_500_000, -2_000_000, 250_000)
    );
}

#[test]
fn linear_sample_is_start_plus_share_of_the_way() {
    let a = Vec3::new(-7 * ONE, 3, 1_234_567);
    let b = Vec3::new(13 * ONE, -900_001, -7_654_321);
    let mut t: i64 = 0;
    while t <= ONE {
        let p = sample(a, b, EaseFunction::Linear, t);
        assert_eq!(p.x, a.x + ((b.x - a.x) * t).div_euclid(ONE));
        assert_eq!(p.y, a.y + ((b.y - a.y) * t).div_euclid(ONE));
        assert_eq!(p.z, a.z + ((b.z - a.z) * t).div_euclid(ONE));
        let f = t as f64 / ONE as f64;
        let exact = a.x as f64 + (b.x - a.x) as f64 * f;
        assert!((p.x as f64 - exact).abs() <= 1.0);
        t += 7_919;
    }
}

#[test]
fn every_curve_samples_its_ends_exactly() {
    let a = Vec3::new(-7 * ONE, 3, 1_234_567);
    let b = Vec3::new(13 * ONE, -900_001, -7_654_321);
    for kind in all_curves() {
        assert_eq!(sample(a, b, kind, 0), a);
        assert_eq!(sample(a, b, kind, ONE), b);
        assert_eq!(sample(a, b, kind, -3), a);
        assert_eq!(sample(a, b, kind, 3 * ONE), b);
    }
}

#[test]
fn quadratic_out_sample_runs_ahead_of_the_line() {
    let a = Vec3::new(0, 0, 0);
    let b = Vec3::new(100 * ONE, -100 * ONE, 0);
    assert_eq!(
        sample(a, b, EaseFunction::QuadraticOut, 500_000),
        Vec3::new(75 * ONE, -75 * ONE, 0)
    );
}
