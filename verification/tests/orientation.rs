use gyromouse::angle::{HALF_TURN, RATE_LIMIT};
use gyromouse::orientation::{Orientation, ANGLE_LIMIT, DEFAULT_ALPHA};

const DEG: i64 = 1_000_000;

#[test]
fn estimator_starts_level() {
    let o = Orientation::default();
    assert_eq!(o.angle(), 0);
    assert_eq!(o.alpha(), DEFAULT_ALPHA);
    assert_eq!(o.alpha(), 950_000);
    assert_eq!(Orientation::new(950_000), Some(o));
}

#[test]
fn estimator_rejects_weights_outside_unit_interval() {
    assert!(Orientation::new(-1).is_none());
    assert!(Orientation::new(1_000_000).is_none());
    assert!(Orientation::new(0).is_some());
    assert!(Orientation::new(999_999).is_some());
}

#[test]
fn estimator_rejects_angles_beyond_limit() {
    assert!(Orientation::with_angle(ANGLE_LIMIT, 950_000).is_some());
    assert!(Orientation::with_angle(-ANGLE_LIMIT, 950_000).is_some());
    assert!(Orientation::with_angle(ANGLE_LIMIT + 1, 950_000).is_none());
    assert!(Orientation::with_angle(-ANGLE_LIMIT - 1, 950_000).is_none());
    assert!(Orientation::with_angle(0, 1_000_000).is_none());
}

#[test]
fn accepts_tells_what_update_takes() {
    assert!(Orientation::accepts(RATE_LIMIT, HALF_TURN));
    assert!(Orientation::accepts(-RATE_LIMIT, -HALF_TURN));
    assert!(!Orientation::accepts(RATE_LIMIT + 1, 0));
    assert!(!Orientation::accepts(0, HALF_TURN + 1));
    assert!(!Orientation::accepts(-RATE_LIMIT - 1, 0));
    assert!(!Orientation::accepts(0, -HALF_TURN - 1));
}

#[test]
fn update_blends_integrated_rate_and_level() {
    let mut o = Orientation::default();
    o.update(0, 45 * DEG);
    assert_eq!(o.angle(), 2_250_000);

    let mut o = Orientation::with_angle(10 * DEG, 950_000).unwrap();
    o.update(100 * DEG, 30 * DEG);
    // (10 - 100 * 0.005) * 0.95 + 30 * 0.05 = 10.525
    assert_eq!(o.angle(), 10_525_000);

    let mut o = Orientation::with_angle(-10 * DEG, 950_000).unwrap();
    o.update(-200 * DEG, -30 * DEG);
    // (-10 + 200 * 0.005) * 0.95 - 30 * 0.05 = -10.05
    assert_eq!(o.angle(), -10_050_000);
}

#[test]
fn update_follows_the_recurrence() {
    let mut o = Orientation::default();
    let want = [2_250_000i64, 4_387_500, 6_418_125, 8_347_218, 10_179_857];
    for w in want {
        o.update(0, 45 * DEG);
        assert_eq!(o.angle(), w);
    }
}

#[test]
fn update_tracks_the_real_formula() {
    let mut o = Orientation::default();
    let mut real = 0.0f64;
    let mut rate = 3_000_000i64;
    for i in 0..500 {
        let level = ((i % 37) - 18) * DEG;
        rate = (rate * 31 + 7_777_777) % 400_000_000 - 200_000_000;
        o.update(rate, level);
        real = (real - rate as f64 / 1e6 * 0.005) * 0.95 + level as f64 / 1e6 * 0.05;
        assert!((o.angle() as f64 / 1e6 - real).abs() < 1e-4);
    }
}

#[test]
fn update_with_weight_zero_is_the_level() {
    let mut o = Orientation::with_angle(123 * DEG, 0).unwrap();
    o.update(50 * DEG, -77 * DEG);
    assert_eq!(o.angle(), -77 * DEG);
}

#[test]
fn update_stays_within_limit_at_extremes() {
    let mut o = Orientation::with_angle(ANGLE_LIMIT, 999_999).unwrap();
    for _ in 0..1000 {
        o.update(-RATE_LIMIT, HALF_TURN);
        assert!(o.angle().abs() <= ANGLE_LIMIT);
    }
    let mut o = Orientation::with_angle(-ANGLE_LIMIT, 999_999).unwrap();
    for _ in 0..1000 {
        o.update(RATE_LIMIT, -HALF_TURN);
        assert!(o.angle().abs() <= ANGLE_LIMIT);
    }
}

#[test]
fn estimator_converges_to_level_from_any_start() {
    let level = 45 * DEG;
    for start in [0i64, 170 * DEG, -3000 * DEG, 45 * DEG, 44 * DEG, ANGLE_LIMIT, -ANGLE_LIMIT] {
        let mut o = Orientation::with_angle(start, 950_000).unwrap();
        let mut error = (o.angle() - level).abs();
        for _ in 0..2000 {
            o.update(0, level);
            let next = (o.angle() - level).abs();
            assert!(next <= error);
            if error >= 20 {
                assert!(next < error);
            }
            error = next;
        }
        assert!(error < 20, "start {} ends {} away", start, error);
    }
}

#[test]
fn estimator_converges_to_the_leveling_angle_of_a_ratio() {
    // accel.y / accel.z = 0.5
    let level = (0.5f64.atan2(1.0).to_degrees() * 1e6).round() as i64;
    let mut o = Orientation::with_angle(-120 * DEG, 950_000).unwrap();
    for _ in 0..1000 {
        o.update(0, level);
    }
    let want = 0.5f64.atan2(1.0).to_degrees();
    assert!((o.angle() as f64 / 1e6 - want).abs() < 1e-4);
}
