use gyromouse::joystick::flick::{FlickStickState, DEFAULT_FLICK_TIME, DEFAULT_THRESHOLD};
use gyromouse::joystick::FlickStick;
use gyromouse::vector::Stick;

const DEG: i64 = 1_000_000;
const RIGHT: Stick = Stick { x: 1_000_000, y: 0 };
const UP: Stick = Stick { x: 0, y: 1_000_000 };
const DOWN: Stick = Stick { x: 0, y: -1_000_000 };
const REST: Stick = Stick { x: 0, y: 0 };

/// The heading of a stick against straight ahead, as the caller would find it.
fn heading(stick: Stick) -> i64 {
    ((stick.x as f64).atan2(stick.y as f64).to_degrees() * 1e6).round() as i64
}

#[test]
fn flick_stick_defaults() {
    let f = FlickStick::default();
    assert_eq!(f.state(), FlickStickState::Center);
    assert_eq!(DEFAULT_FLICK_TIME, 100_000);
    assert_eq!(DEFAULT_THRESHOLD, 600_000);
    assert_eq!(f, FlickStick::new(100_000, 600_000, true));
}

#[test]
fn flick_stick_quarter_turn_scenario() {
    // target 90 degrees, flick time 100 ms: the snap lasts 0.1 * 90 / 180 = 50 ms
    let mut f = FlickStick::default();
    assert_eq!(heading(RIGHT), 90 * DEG);
    assert_eq!(f.handle(RIGHT, heading(RIGHT), 1_000), 0);
    assert_eq!(
        f.state(),
        FlickStickState::Flicking { flick_start: 1_000, last: 0, target: 90 * DEG }
    );
    assert_eq!(f.handle(RIGHT, heading(RIGHT), 16_000), 27 * DEG);
    assert_eq!(f.handle(RIGHT, heading(RIGHT), 31_000), 27 * DEG);
    // at 50 ms the progress is exactly one: the rest of the way is emitted
    assert_eq!(f.handle(RIGHT, heading(RIGHT), 51_000), 36 * DEG);
    assert_eq!(
        f.state(),
        FlickStickState::Flicking { flick_start: 1_000, last: 90 * DEG, target: 90 * DEG }
    );
    // and as soon as the progress is above one the stick is rotating
    assert_eq!(f.handle(RIGHT, heading(RIGHT), 51_001), 0);
    assert_eq!(f.state(), FlickStickState::Rotating { old_rotation: 90 * DEG });
    assert_eq!(f.handle(RIGHT, heading(RIGHT), 60_000), 0);
}

#[test]
fn flick_stick_single_late_tick_emits_whole_target() {
    let mut f = FlickStick::default();
    assert_eq!(f.handle(RIGHT, 90 * DEG, 0), 0);
    assert_eq!(f.handle(RIGHT, 90 * DEG, 50_001), 90 * DEG);
    assert_eq!(f.state(), FlickStickState::Rotating { old_rotation: 90 * DEG });
}

#[test]
fn flick_stick_deltas_sum_to_heading() {
    for (stick, step) in [
        (Stick { x: -700_000, y: -700_000 }, 15_151u64),
        (RIGHT, 1),
        (RIGHT, 4_999),
        (Stick { x: -1_000_000, y: 1 }, 3_333),
        (Stick { x: 612_000, y: 7_000 }, 977),
        (DOWN, 12_345),
        (Stick { x: -1, y: -1_000_000 }, 12_345),
        (UP, 10),
    ] {
        let goal = heading(stick);
        let mut f = FlickStick::default();
        let mut now = 5_000u64;
        let mut total = 0i64;
        let mut ticks = 0;
        loop {
            total += f.handle(stick, goal, now);
            ticks += 1;
            match f.state() {
                FlickStickState::Rotating { old_rotation } => {
                    assert_eq!(old_rotation, goal);
                    break;
                }
                FlickStickState::Flicking { last, target, .. } => {
                    assert_eq!(target, goal);
                    assert_eq!(total, last);
                }
                FlickStickState::Center => panic!("stick is held"),
            }
            now += step;
            assert!(ticks < 200_000);
        }
        assert_eq!(total, goal, "stick {:?} step {}", stick, step);
        // holding the stick still turns no further
        for _ in 0..5 {
            now += step;
            total += f.handle(stick, goal, now);
        }
        assert_eq!(total, goal);
    }
}

#[test]
fn flick_stick_exact_deltas_to_the_back_left() {
    let stick = Stick { x: -700_000, y: -700_000 };
    let mut f = FlickStick::default();
    let mut got = Vec::new();
    let mut now = 0u64;
    for _ in 0..7 {
        got.push(f.handle(stick, -135 * DEG, now));
        now += 15_151;
    }
    assert_eq!(
        got,
        vec![0, -27_271_800, -27_271_800, -27_271_800, -27_271_800, -25_912_800, 0]
    );
    assert_eq!(f.state(), FlickStickState::Rotating { old_rotation: -135 * DEG });
}

#[test]
fn flick_stick_snap_time_scales_with_angle() {
    // a half turn takes the whole flick time
    let mut f = FlickStick::default();
    assert_eq!(f.handle(DOWN, 180 * DEG, 0), 0);
    assert_eq!(f.handle(DOWN, 180 * DEG, 7), 12_600);
    assert_eq!(f.handle(DOWN, 180 * DEG, 100_000), 179_987_400);
    assert!(matches!(f.state(), FlickStickState::Flicking { .. }));
    assert_eq!(f.handle(DOWN, 180 * DEG, 100_001), 0);
    assert_eq!(f.state(), FlickStickState::Rotating { old_rotation: 180 * DEG });
}

#[test]
fn flick_stick_normalizes_the_heading() {
    let mut f = FlickStick::default();
    f.handle(DOWN, -180 * DEG, 0);
    assert_eq!(
        f.state(),
        FlickStickState::Flicking { flick_start: 0, last: 0, target: 180 * DEG }
    );
    let mut f = FlickStick::default();
    f.handle(RIGHT, 450 * DEG, 0);
    assert_eq!(
        f.state(),
        FlickStickState::Flicking { flick_start: 0, last: 0, target: 90 * DEG }
    );
}

#[test]
fn flick_stick_below_threshold_returns_to_center() {
    let mut f = FlickStick::default();
    f.handle(RIGHT, 90 * DEG, 0);
    f.handle(RIGHT, 90 * DEG, 10_000);
    assert_eq!(f.handle(Stick { x: 599_999, y: 0 }, 90 * DEG, 20_000), 0);
    assert_eq!(f.state(), FlickStickState::Center);
    f.handle(RIGHT, 90 * DEG, 30_000);
    f.handle(RIGHT, 90 * DEG, 90_000);
    assert!(matches!(f.state(), FlickStickState::Rotating { .. }));
    assert_eq!(f.handle(REST, 0, 100_000), 0);
    assert_eq!(f.state(), FlickStickState::Center);
    assert_eq!(f.handle(REST, 0, 110_000), 0);
    assert_eq!(f.state(), FlickStickState::Center);
}

#[test]
fn flick_stick_threshold_is_on_the_length() {
    let mut f = FlickStick::default();
    // 0.36 + 0.2304 = 0.5904 > 0.36: above the threshold though each axis is not
    f.handle(Stick { x: 480_000, y: 360_000 }, 53 * DEG, 0);
    assert!(matches!(f.state(), FlickStickState::Flicking { .. }));
    let mut f = FlickStick::default();
    f.handle(Stick { x: 480_000, y: 359_999 }, 53 * DEG, 0);
    assert_eq!(f.state(), FlickStickState::Center);
    let mut f = FlickStick::default();
    f.handle(Stick { x: 600_000, y: 0 }, 90 * DEG, 0);
    assert!(matches!(f.state(), FlickStickState::Flicking { .. }));
}

#[test]
fn flick_stick_without_threshold_never_rests() {
    let mut f = FlickStick::new(100_000, 0, true);
    f.handle(REST, 0, 0);
    assert!(matches!(f.state(), FlickStickState::Flicking { .. }));
    let mut f = FlickStick::new(100_000, -5, true);
    f.handle(REST, 0, 0);
    assert!(matches!(f.state(), FlickStickState::Flicking { .. }));
}

#[test]
fn flick_stick_rotation_follows_the_stick() {
    let mut f = FlickStick::default();
    assert_eq!(f.handle(UP, 170 * DEG, 0), 0);
    assert_eq!(f.handle(UP, 170 * DEG, 200_000), 170 * DEG);
    // across the back the short way round
    assert_eq!(f.handle(UP, -170 * DEG, 215_000), 20 * DEG);
    assert_eq!(f.state(), FlickStickState::Rotating { old_rotation: -170 * DEG });
    assert_eq!(f.handle(UP, 10 * DEG, 230_000), 180 * DEG);
    assert_eq!(f.handle(UP, 190 * DEG, 245_000), 180 * DEG);
    assert_eq!(f.state(), FlickStickState::Rotating { old_rotation: -170 * DEG });
    assert_eq!(f.handle(UP, -171 * DEG, 260_000), -DEG);
}

#[test]
fn flick_stick_without_rotation_only_snaps() {
    let mut f = FlickStick::new(100_000, 600_000, false);
    assert_eq!(f.handle(RIGHT, 90 * DEG, 0), 0);
    assert_eq!(f.handle(RIGHT, 90 * DEG, 60_000), 90 * DEG);
    assert_eq!(f.state(), FlickStickState::Rotating { old_rotation: 90 * DEG });
    assert_eq!(f.handle(UP, 0, 70_000), 0);
    assert_eq!(f.handle(DOWN, 180 * DEG, 80_000), 0);
    assert_eq!(f.state(), FlickStickState::Rotating { old_rotation: 90 * DEG });
}

#[test]
fn flick_stick_zero_target_and_zero_time() {
    let mut f = FlickStick::default();
    assert_eq!(f.handle(UP, 0, 5), 0);
    assert_eq!(f.handle(UP, 0, 5), 0);
    assert_eq!(f.state(), FlickStickState::Flicking { flick_start: 5, last: 0, target: 0 });
    assert_eq!(f.handle(UP, 0, 6), 0);
    assert_eq!(f.state(), FlickStickState::Rotating { old_rotation: 0 });

    let mut f = FlickStick::new(0, 600_000, true);
    assert_eq!(f.handle(RIGHT, 90 * DEG, 5), 0);
    assert_eq!(f.handle(RIGHT, 90 * DEG, 5), 90 * DEG);
    assert!(matches!(f.state(), FlickStickState::Flicking { .. }));
    assert_eq!(f.handle(RIGHT, 90 * DEG, 6), 0);
    assert_eq!(f.state(), FlickStickState::Rotating { old_rotation: 90 * DEG });
}

#[test]
fn flick_stick_clock_running_back_counts_as_no_time() {
    let mut f = FlickStick::default();
    assert_eq!(f.handle(RIGHT, 90 * DEG, 100), 0);
    assert_eq!(f.handle(RIGHT, 90 * DEG, 50), 0);
    assert_eq!(f.handle(RIGHT, 90 * DEG, 130), 54_000);
}

#[test]
fn flick_stick_extreme_times() {
    let mut f = FlickStick::new(u64::MAX, 600_000, true);
    assert_eq!(f.handle(DOWN, 180 * DEG, 0), 0);
    assert_eq!(f.handle(DOWN, 180 * DEG, u64::MAX), 180 * DEG);
    assert!(matches!(f.state(), FlickStickState::Flicking { .. }));
    let mut f = FlickStick::new(1, 600_000, true);
    assert_eq!(f.handle(DOWN, 180 * DEG, 0), 0);
    assert_eq!(f.handle(DOWN, 180 * DEG, u64::MAX), 180 * DEG);
    assert_eq!(f.state(), FlickStickState::Rotating { old_rotation: 180 * DEG });
}
