use camera_rig::fixed::ONE;
use camera_rig::shake::{add_trauma, decay, restore, shake, Shake, ShakeSettings, GAIN, LACUNARITY};
use camera_rig::vector::{Vec2, Vec3};

const SECOND: u64 = 1_000_000;

fn settings(amplitude: i64, trauma_power: u32, decay_per_second: i64) -> ShakeSettings {
    ShakeSettings {
        amplitude,
        trauma_power,
        decay_per_second,
        frequency: 15 * ONE,
        octaves: 1,
    }
}

#[test]
fn the_standard_settings() {
    let s = ShakeSettings::default();
    assert_eq!(s.amplitude, 100 * ONE);
    assert_eq!(s.trauma_power, 2);
    assert_eq!(s.decay_per_second, 800_000);
    assert_eq!(s.frequency, 15 * ONE);
    assert_eq!(s.octaves, 1);
    assert_eq!(LACUNARITY, 2 * ONE);
    assert_eq!(GAIN, ONE / 2);
}

#[test]
fn own_settings_come_before_the_standard_ones() {
    let own = settings(5 * ONE, 3, ONE);
    assert_eq!(ShakeSettings::effective(Some(own)), own);
    assert_eq!(ShakeSettings::effective(None), ShakeSettings::default());
}

#[test]
fn a_new_shake_is_calm() {
    let s = Shake::new();
    assert_eq!(s.trauma(), 0);
    assert_eq!(s.reference_translation(), None);
    assert!(!s.is_shaking());
    let d = Shake::default();
    assert_eq!(d.trauma(), 0);
    assert_eq!(d.reference_translation(), None);
}

#[test]
fn trauma_adds_up() {
    let mut s = Shake::new();
    s.add_trauma(300_000);
    assert_eq!(s.trauma(), 300_000);
    assert!(s.is_shaking());
    s.add_trauma(300_000);
    assert_eq!(s.trauma(), 600_000);
}

#[test]
fn trauma_stops_at_one() {
    let mut s = Shake::new();
    s.add_trauma(300_000);
    s.add_trauma(300_000);
    s.add_trauma(300_000);
    s.add_trauma(300_000);
    assert_eq!(s.trauma(), ONE);
    s.add_trauma(i64::MAX);
    assert_eq!(s.trauma(), ONE);
}

#[test]
fn trauma_does_not_go_under_zero() {
    let mut s = Shake::new();
    s.add_trauma(300_000);
    s.add_trauma(-400_000);
    assert_eq!(s.trauma(), 0);
    s.add_trauma(i64::MIN);
    assert_eq!(s.trauma(), 0);
}

#[test]
fn decay_is_rate_times_time() {
    assert_eq!(decay(ONE, 800_000, SECOND / 4), 800_000);
    assert_eq!(decay(600_000, 800_000, SECOND / 2), 200_000);
    assert_eq!(decay(600_000, 800_000, SECOND), 0);
    assert_eq!(decay(600_000, 800_000, 0), 600_000);
    assert_eq!(decay(600_000, 0, SECOND), 600_000);
    assert_eq!(decay(0, 800_000, SECOND), 0);
    assert_eq!(decay(600_000, i64::MAX, u64::MAX), 0);
}

#[test]
fn decay_stays_between_zero_and_one() {
    assert_eq!(decay(600_000, -800_000, SECOND), ONE);
    assert_eq!(decay(600_000, i64::MIN, u64::MAX), ONE);
    assert_eq!(decay(5 * ONE, 0, SECOND), ONE);
    assert_eq!(decay(-5 * ONE, 0, SECOND), 0);
}

#[test]
fn trauma_decays_in_a_straight_line_to_zero_and_stays() {
    let mut s = Shake::new();
    s.add_trauma(ONE);
    let mut t = Vec3::new(0, 0, 0);
    let own = Some(settings(0, 2, 800_000));
    let mut seen = Vec::new();
    for _ in 0..7 {
        restore(&mut s, &mut t);
        shake(&mut s, &mut t, own, SECOND / 4, Vec2::zero());
        seen.push(s.trauma());
    }
    assert_eq!(seen, vec![800_000, 600_000, 400_000, 200_000, 0, 0, 0]);
    assert!(!s.is_shaking());
}

#[test]
fn the_offset_is_amplitude_times_strength_times_noise() {
    let mut s = Shake::new();
    s.add_trauma(700_000);
    let mut t = Vec3::new(10 * ONE, 20 * ONE, 30 * ONE);
    shake(
        &mut s,
        &mut t,
        Some(settings(100 * ONE, 2, 800_000)),
        SECOND / 4,
        Vec2::new(500_000, -ONE),
    );
    assert_eq!(s.trauma(), 500_000);
    assert_eq!(t, Vec3::new(22_500_000, -5 * ONE, 30 * ONE));
    assert_eq!(s.reference_translation(), Some(Vec3::new(10 * ONE, 20 * ONE, 30 * ONE)));
}

#[test]
fn a_higher_power_calms_low_trauma() {
    let mut squared = Shake::new();
    squared.add_trauma(500_000);
    let mut cubed = squared;
    let mut a = Vec3::new(0, 0, 0);
    let mut b = Vec3::new(0, 0, 0);
    shake(&mut squared, &mut a, Some(settings(100 * ONE, 2, 0)), 0, Vec2::new(ONE, ONE));
    shake(&mut cubed, &mut b, Some(settings(100 * ONE, 3, 0)), 0, Vec2::new(ONE, ONE));
    assert_eq!(a, Vec3::new(25 * ONE, 25 * ONE, 0));
    assert_eq!(b, Vec3::new(12_500_000, 12_500_000, 0));
}

#[test]
fn the_standard_settings_hold_without_own_ones() {
    let mut s = Shake::new();
    s.add_trauma(ONE);
    let mut t = Vec3::new(0, 0, 0);
    shake(&mut s, &mut t, None, SECOND / 2, Vec2::new(ONE, -ONE / 2));
    assert_eq!(s.trauma(), 600_000);
    assert_eq!(t, Vec3::new(36 * ONE, -18 * ONE, 0));
}

#[test]
fn the_depth_is_not_shaken() {
    let mut s = Shake::new();
    s.add_trauma(ONE);
    let mut t = Vec3::new(0, 0, 42 * ONE);
    shake(&mut s, &mut t, None, 0, Vec2::new(ONE, ONE));
    assert_eq!(t.z, 42 * ONE);
    assert_eq!(t.x, 100 * ONE);
}

#[test]
fn without_strength_nothing_is_moved_or_recorded() {
    let mut s = Shake::new();
    let mut t = Vec3::new(ONE, 2 * ONE, 3 * ONE);
    shake(&mut s, &mut t, None, SECOND, Vec2::new(ONE, ONE));
    assert_eq!(t, Vec3::new(ONE, 2 * ONE, 3 * ONE));
    assert_eq!(s.reference_translation(), None);
    assert_eq!(s.trauma(), 0);

    s.add_trauma(400_000);
    shake(&mut s, &mut t, None, SECOND, Vec2::new(ONE, ONE));
    assert_eq!(s.trauma(), 0);
    assert_eq!(t, Vec3::new(ONE, 2 * ONE, 3 * ONE));
    assert_eq!(s.reference_translation(), None);
}

#[test]
fn strength_too_small_to_count_moves_nothing() {
    let mut s = Shake::new();
    s.add_trauma(999);
    let mut t = Vec3::new(ONE, 2 * ONE, 3 * ONE);
    shake(&mut s, &mut t, Some(settings(100 * ONE, 2, 0)), 0, Vec2::new(ONE, ONE));
    assert_eq!(s.trauma(), 999);
    assert_eq!(t, Vec3::new(ONE, 2 * ONE, 3 * ONE));
    assert_eq!(s.reference_translation(), None);
}

#[test]
fn with_strength_the_translation_is_recorded_even_if_noise_is_still() {
    let mut s = Shake::new();
    s.add_trauma(500_000);
    let mut t = Vec3::new(ONE, 2 * ONE, 3 * ONE);
    shake(&mut s, &mut t, None, 0, Vec2::zero());
    assert_eq!(t, Vec3::new(ONE, 2 * ONE, 3 * ONE));
    assert_eq!(s.reference_translation(), Some(Vec3::new(ONE, 2 * ONE, 3 * ONE)));
}

#[test]
fn restore_puts_the_true_translation_back() {
    let mut s = Shake::new();
    s.add_trauma(ONE);
    let before = Vec3::new(7 * ONE, -7 * ONE, ONE);
    let mut t = before;
    shake(&mut s, &mut t, None, SECOND / 4, Vec2::new(123_456, -654_321));
    assert_ne!(t, before);
    restore(&mut s, &mut t);
    assert_eq!(t, before);
    assert_eq!(s.reference_translation(), None);
    assert_eq!(s.trauma(), 800_000);
}

#[test]
fn restore_without_a_record_changes_nothing() {
    let mut s = Shake::new();
    s.add_trauma(ONE);
    let mut t = Vec3::new(7 * ONE, -7 * ONE, ONE);
    restore(&mut s, &mut t);
    assert_eq!(t, Vec3::new(7 * ONE, -7 * ONE, ONE));
    assert_eq!(s.trauma(), ONE);
}

#[test]
fn offsets_do_not_pile_up_over_frames() {
    let mut s = Shake::new();
    s.add_trauma(ONE);
    let mut t = Vec3::new(0, 0, 0);
    let noise = [
        Vec2::new(900_000, -100_000),
        Vec2::new(-700_000, 300_000),
        Vec2::new(200_000, 800_000),
        Vec2::new(-ONE, ONE),
        Vec2::new(ONE, ONE),
        Vec2::new(ONE, ONE),
    ];
    for (frame, n) in noise.iter().enumerate() {
        restore(&mut s, &mut t);
        assert_eq!(t, Vec3::new(frame as i64 * ONE, 0, 0));
        t.x += ONE;
        shake(&mut s, &mut t, None, SECOND / 4, *n);
    }
    assert_eq!(s.trauma(), 0);
    restore(&mut s, &mut t);
    assert_eq!(t, Vec3::new(6 * ONE, 0, 0));
}

#[test]
fn a_shaken_translation_stops_at_the_ends_of_the_range() {
    let mut s = Shake::new();
    s.add_trauma(ONE);
    let mut t = Vec3::new(i64::MAX - 5, i64::MIN + 5, 0);
    shake(&mut s, &mut t, None, 0, Vec2::new(ONE, -ONE));
    assert_eq!(t, Vec3::new(i64::MAX, i64::MIN, 0));
    restore(&mut s, &mut t);
    assert_eq!(t, Vec3::new(i64::MAX - 5, i64::MIN + 5, 0));
}

#[test]
fn the_same_inputs_give_the_same_offset() {
    let run = || {
        let mut s = Shake::new();
        s.add_trauma(650_000);
        let mut t = Vec3::new(3, 4, 5);
        shake(&mut s, &mut t, None, 12_345, Vec2::new(-333_333, 777_777));
        (s.trauma(), s.reference_translation(), t)
    };
    assert_eq!(run(), run());
}

#[test]
fn noise_is_read_at_frequency_times_time() {
    let s = ShakeSettings::default();
    assert_eq!(
        s.noise_positions(2 * SECOND),
        (Vec2::new(30 * ONE, ONE), Vec2::new(30 * ONE, 2 * ONE))
    );
    assert_eq!(s.noise_positions(0), (Vec2::new(0, ONE), Vec2::new(0, 2 * ONE)));
    assert_eq!(
        s.noise_positions(u64::MAX),
        (Vec2::new(i64::MAX, ONE), Vec2::new(i64::MAX, 2 * ONE))
    );
}

#[test]
fn add_trauma_reaches_every_shake() {
    let mut first = Shake::new();
    first.add_trauma(900_000);
    let mut second = Shake::new();
    let mut t = Vec3::new(0, 0, 0);
    second.add_trauma(ONE);
    shake(&mut second, &mut t, None, SECOND, Vec2::new(ONE, ONE));
    let mut shakes = vec![Shake::new(), first, second];
    add_trauma(&mut shakes, 200_000);
    assert_eq!(shakes.len(), 3);
    assert_eq!(shakes[0].trauma(), 200_000);
    assert_eq!(shakes[1].trauma(), ONE);
    assert_eq!(shakes[2].trauma(), 400_000);
    assert_eq!(shakes[2].reference_translation(), Some(Vec3::new(0, 0, 0)));
    let mut none: Vec<Shake> = Vec::new();
    add_trauma(&mut none, 200_000);
    assert!(none.is_empty());
}
