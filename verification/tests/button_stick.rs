use gyromouse::joystick::ButtonStick;
use gyromouse::mapping::{Buttons, KeyEvent, VirtualKey};
use gyromouse::vector::Stick;

const DEG: i64 = 1_000_000;
const LEFT_KEYS: [VirtualKey; 4] =
    [VirtualKey::LUp, VirtualKey::LDown, VirtualKey::LLeft, VirtualKey::LRight];
const RIGHT_KEYS: [VirtualKey; 4] =
    [VirtualKey::RUp, VirtualKey::RDown, VirtualKey::RLeft, VirtualKey::RRight];

/// A stick of the given length pointing at `degrees` from straight up,
/// clockwise, with the heading that the caller would find for it.
fn lean(length: f64, degrees: f64) -> (Stick, i64) {
    let x = (length * degrees.to_radians().sin() * 1e6).round() as i32;
    let y = (length * degrees.to_radians().cos() * 1e6).round() as i32;
    let heading = ((x as f64).atan2(y as f64).to_degrees() * 1e6).round() as i64;
    (Stick { x, y }, heading)
}

fn down_keys(b: &Buttons, keys: &[VirtualKey]) -> Vec<VirtualKey> {
    keys.iter().copied().filter(|k| b.is_pressed(*k)).collect()
}

#[test]
fn button_stick_releases_everything_in_dead_zone() {
    let mut stick = ButtonStick::left(true);
    let mut keys = Buttons::new();
    let (s, h) = lean(0.8, 45.0);
    stick.handle(s, h, 1, &mut keys);
    assert_eq!(down_keys(&keys, &LEFT_KEYS), vec![VirtualKey::LUp, VirtualKey::LRight]);
    for (x, y) in [(0, 0), (100_000, 100_000), (149_999, 0), (0, -149_999), (-106_000, 106_000)] {
        stick.handle(Stick { x, y }, 0, 2, &mut keys);
        assert_eq!(down_keys(&keys, &LEFT_KEYS), vec![]);
        let (s, h) = lean(0.8, 45.0);
        stick.handle(s, h, 3, &mut keys);
        assert_eq!(down_keys(&keys, &LEFT_KEYS).len(), 2);
    }
}

#[test]
fn button_stick_dead_zone_releases_the_ring() {
    for inner_ring in [true, false] {
        let mut stick = ButtonStick::left(inner_ring);
        let mut keys = Buttons::new();
        stick.handle(Stick { x: 100_000, y: 0 }, 90 * DEG, 1, &mut keys);
        assert!(!keys.is_pressed(VirtualKey::LRing));
        let held = if inner_ring { 500_000 } else { 1_000_000 };
        stick.handle(Stick { x: held, y: 0 }, 90 * DEG, 2, &mut keys);
        assert!(keys.is_pressed(VirtualKey::LRing));
        assert!(keys.is_pressed(VirtualKey::LRight));
        keys.take_events();
        stick.handle(Stick { x: 0, y: 0 }, 0, 3, &mut keys);
        assert!(!keys.is_pressed(VirtualKey::LRing));
        assert!(!keys.is_pressed(VirtualKey::LRight));
        // the ring is released before the directions
        assert_eq!(
            keys.take_events(),
            vec![
                KeyEvent { key: VirtualKey::LRing, pressed: false, time: 3 },
                KeyEvent { key: VirtualKey::LRight, pressed: false, time: 3 },
            ]
        );
    }
}

#[test]
fn button_stick_ring_follows_the_zone_after_every_call() {
    for inner_ring in [true, false] {
        let mut stick = ButtonStick::right(inner_ring);
        let mut keys = Buttons::new();
        let mut length: i32 = 777;
        for _ in 0..2_000 {
            length = ((length as i64 * 48_271 + 12_345) % 1_300_001) as i32;
            stick.handle(Stick { x: 0, y: -length }, 180 * DEG, 0, &mut keys);
            let want = if inner_ring {
                150_000 < length && length < 900_000
            } else {
                length >= 900_000
            };
            assert_eq!(keys.is_pressed(VirtualKey::RRing), want, "length {}", length);
        }
    }
}

#[test]
fn button_stick_inner_ring_is_between_dead_and_full_zone() {
    let mut stick = ButtonStick::left(true);
    let mut keys = Buttons::new();
    for (length, want) in [
        (150_001, true),
        (200_000, true),
        (500_000, true),
        (899_999, true),
        (900_000, false),
        (1_000_000, false),
        (1_400_000, false),
    ] {
        stick.handle(Stick { x: 0, y: length }, 0, 0, &mut keys);
        assert_eq!(keys.is_pressed(VirtualKey::LRing), want, "length {}", length);
        assert!(!keys.is_pressed(VirtualKey::RRing));
    }
}

#[test]
fn button_stick_outer_ring_is_the_full_zone() {
    let mut stick = ButtonStick::right(false);
    let mut keys = Buttons::new();
    for (length, want) in [
        (150_001, false),
        (500_000, false),
        (899_999, false),
        (900_000, true),
        (1_000_000, true),
        (899_999, false),
        (1_400_000, true),
    ] {
        stick.handle(Stick { x: -length, y: 0 }, -90 * DEG, 0, &mut keys);
        assert_eq!(keys.is_pressed(VirtualKey::RRing), want, "length {}", length);
        assert!(!keys.is_pressed(VirtualKey::LRing));
    }
}

#[test]
fn button_stick_directions_cover_sixty_degrees_each_way() {
    let mut stick = ButtonStick::right(false);
    let mut keys = Buttons::new();
    let cases: [(i64, &[VirtualKey]); 18] = [
        (0, &[VirtualKey::RUp]),
        (29, &[VirtualKey::RUp]),
        (30, &[VirtualKey::RUp, VirtualKey::RRight]),
        (45, &[VirtualKey::RUp, VirtualKey::RRight]),
        (60, &[VirtualKey::RUp, VirtualKey::RRight]),
        (61, &[VirtualKey::RRight]),
        (90, &[VirtualKey::RRight]),
        (120, &[VirtualKey::RDown, VirtualKey::RRight]),
        (150, &[VirtualKey::RDown, VirtualKey::RRight]),
        (151, &[VirtualKey::RDown]),
        (180, &[VirtualKey::RDown]),
        (-179, &[VirtualKey::RDown]),
        (-150, &[VirtualKey::RDown, VirtualKey::RLeft]),
        (-120, &[VirtualKey::RDown, VirtualKey::RLeft]),
        (-119, &[VirtualKey::RLeft]),
        (-90, &[VirtualKey::RLeft]),
        (-60, &[VirtualKey::RUp, VirtualKey::RLeft]),
        (-29, &[VirtualKey::RUp]),
    ];
    for (degrees, want) in cases {
        stick.handle(Stick { x: 0, y: 500_000 }, degrees * DEG, 0, &mut keys);
        assert_eq!(down_keys(&keys, &RIGHT_KEYS), want.to_vec(), "heading {}", degrees);
        assert_eq!(down_keys(&keys, &LEFT_KEYS), vec![]);
    }
}

#[test]
fn button_stick_direction_edges_are_inclusive() {
    let mut stick = ButtonStick::left(false);
    let mut keys = Buttons::new();
    stick.handle(Stick { x: 0, y: 500_000 }, 60 * DEG, 0, &mut keys);
    assert!(keys.is_pressed(VirtualKey::LUp));
    stick.handle(Stick { x: 0, y: 500_000 }, 60 * DEG + 1, 0, &mut keys);
    assert!(!keys.is_pressed(VirtualKey::LUp));
    stick.handle(Stick { x: 0, y: 500_000 }, -60 * DEG, 0, &mut keys);
    assert!(keys.is_pressed(VirtualKey::LUp));
    stick.handle(Stick { x: 0, y: 500_000 }, -60 * DEG - 1, 0, &mut keys);
    assert!(!keys.is_pressed(VirtualKey::LUp));
}

#[test]
fn button_stick_heading_counts_up_to_whole_turns() {
    let mut a = Buttons::new();
    let mut b = Buttons::new();
    let mut stick = ButtonStick::left(false);
    for degrees in [-170i64, -91, -3, 0, 44, 135, 180] {
        stick.handle(Stick { x: 0, y: 500_000 }, degrees * DEG, 0, &mut a);
        stick.handle(Stick { x: 0, y: 500_000 }, degrees * DEG - 720 * DEG, 0, &mut b);
        assert_eq!(down_keys(&a, &LEFT_KEYS), down_keys(&b, &LEFT_KEYS));
    }
    stick.handle(Stick { x: 0, y: 500_000 }, i64::MAX, 0, &mut a);
    stick.handle(Stick { x: 0, y: 500_000 }, i64::MIN, 0, &mut a);
}

#[test]
fn button_stick_agrees_with_the_angle_to_each_axis() {
    let mut stick = ButtonStick::left(false);
    let mut keys = Buttons::new();
    let epsilon = 60.0f64;
    for tenth in 0..3600 {
        let degrees = tenth as f64 / 10.0 - 180.0 + 0.05;
        let (s, h) = lean(0.7, degrees);
        stick.handle(s, h, 0, &mut keys);
        let (x, y) = (s.x as f64, s.y as f64);
        // the angle from the stick to an axis, as perp-dot over dot
        let angle = |ax: f64, ay: f64| (x * ay - y * ax).atan2(x * ax + y * ay).to_degrees();
        let near = |a: f64| a.abs() <= epsilon;
        if (angle(1.0, 0.0).abs() - epsilon).abs() > 0.01 {
            assert_eq!(keys.is_pressed(VirtualKey::LRight), near(angle(1.0, 0.0)), "{}", degrees);
        }
        if (angle(-1.0, 0.0).abs() - epsilon).abs() > 0.01 {
            assert_eq!(keys.is_pressed(VirtualKey::LLeft), near(angle(-1.0, 0.0)), "{}", degrees);
        }
        if (angle(0.0, 1.0).abs() - epsilon).abs() > 0.01 {
            assert_eq!(keys.is_pressed(VirtualKey::LUp), near(angle(0.0, 1.0)), "{}", degrees);
        }
        if (angle(0.0, -1.0).abs() - epsilon).abs() > 0.01 {
            assert_eq!(keys.is_pressed(VirtualKey::LDown), near(angle(0.0, -1.0)), "{}", degrees);
        }
    }
}

#[test]
fn button_stick_records_edges_in_order() {
    let mut stick = ButtonStick::left(true);
    let mut keys = Buttons::new();
    stick.handle(Stick { x: 500_000, y: 0 }, 90 * DEG, 10, &mut keys);
    assert_eq!(
        keys.take_events(),
        vec![
            KeyEvent { key: VirtualKey::LRing, pressed: true, time: 10 },
            KeyEvent { key: VirtualKey::LRight, pressed: true, time: 10 },
        ]
    );
    // nothing changes, nothing is recorded
    stick.handle(Stick { x: 510_000, y: 0 }, 90 * DEG, 11, &mut keys);
    assert_eq!(keys.take_events(), vec![]);
    // pinned to the edge toward the upper left
    stick.handle(Stick { x: -700_000, y: 700_000 }, -45 * DEG, 12, &mut keys);
    assert_eq!(
        keys.take_events(),
        vec![
            KeyEvent { key: VirtualKey::LRing, pressed: false, time: 12 },
            KeyEvent { key: VirtualKey::LRight, pressed: false, time: 12 },
            KeyEvent { key: VirtualKey::LLeft, pressed: true, time: 12 },
            KeyEvent { key: VirtualKey::LUp, pressed: true, time: 12 },
        ]
    );
    // back to rest: left is released before up
    stick.handle(Stick { x: 0, y: 0 }, 0, 13, &mut keys);
    assert_eq!(
        keys.take_events(),
        vec![
            KeyEvent { key: VirtualKey::LLeft, pressed: false, time: 13 },
            KeyEvent { key: VirtualKey::LUp, pressed: false, time: 13 },
        ]
    );
}

#[test]
fn button_stick_sides_use_their_own_keys() {
    let mut left = ButtonStick::left(true);
    let mut right = ButtonStick::right(true);
    let mut keys = Buttons::new();
    left.handle(Stick { x: 0, y: 500_000 }, 0, 0, &mut keys);
    right.handle(Stick { x: 0, y: -500_000 }, 180 * DEG, 0, &mut keys);
    assert_eq!(down_keys(&keys, &LEFT_KEYS), vec![VirtualKey::LUp]);
    assert_eq!(down_keys(&keys, &RIGHT_KEYS), vec![VirtualKey::RDown]);
    assert!(keys.is_pressed(VirtualKey::LRing));
    assert!(keys.is_pressed(VirtualKey::RRing));
    right.handle(Stick { x: 0, y: 0 }, 0, 1, &mut keys);
    assert_eq!(down_keys(&keys, &LEFT_KEYS), vec![VirtualKey::LUp]);
    assert_eq!(down_keys(&keys, &RIGHT_KEYS), vec![]);
}

#[test]
fn button_stick_is_unchanged_by_handling() {
    let mut stick = ButtonStick::right(true);
    let mut keys = Buttons::new();
    stick.handle(Stick { x: 900_000, y: 100_000 }, 84 * DEG, 0, &mut keys);
    assert_eq!(stick, ButtonStick::right(true));
    assert_ne!(stick, ButtonStick::right(false));
    assert_ne!(stick, ButtonStick::left(true));
}

#[test]
fn button_stick_rejects_bad_tunings() {
    assert_eq!(
        ButtonStick::new(150_000, 900_000, true, 30 * DEG, false),
        Some(ButtonStick::left(false))
    );
    assert_eq!(
        ButtonStick::new(150_000, 900_000, false, 30 * DEG, true),
        Some(ButtonStick::right(true))
    );
    assert!(ButtonStick::new(-1, 900_000, true, 30 * DEG, false).is_none());
    assert!(ButtonStick::new(900_000, 900_000, true, 30 * DEG, false).is_none());
    assert!(ButtonStick::new(900_001, 900_000, true, 30 * DEG, false).is_none());
    assert!(ButtonStick::new(0, 1, true, -1, false).is_none());
    assert!(ButtonStick::new(0, 1, true, 90 * DEG + 1, false).is_none());
    assert!(ButtonStick::new(0, 1, true, 0, false).is_some());
    assert!(ButtonStick::new(0, i32::MAX, true, 90 * DEG, false).is_some());
}

#[test]
fn button_stick_cone_sets_the_width_of_each_direction() {
    // a cone of 45 degrees: each direction reaches 45 degrees either way
    let mut stick = ButtonStick::new(150_000, 900_000, true, 45 * DEG, false).unwrap();
    let mut keys = Buttons::new();
    stick.handle(Stick { x: 0, y: 500_000 }, 44 * DEG, 0, &mut keys);
    assert_eq!(down_keys(&keys, &LEFT_KEYS), vec![VirtualKey::LUp]);
    stick.handle(Stick { x: 0, y: 500_000 }, 45 * DEG, 0, &mut keys);
    assert_eq!(down_keys(&keys, &LEFT_KEYS), vec![VirtualKey::LUp, VirtualKey::LRight]);
    stick.handle(Stick { x: 0, y: 500_000 }, 46 * DEG, 0, &mut keys);
    assert_eq!(down_keys(&keys, &LEFT_KEYS), vec![VirtualKey::LRight]);
    // a cone of a quarter turn: only a stick exactly on an axis holds a key
    let mut stick = ButtonStick::new(150_000, 900_000, true, 90 * DEG, false).unwrap();
    stick.handle(Stick { x: 0, y: 500_000 }, 0, 0, &mut keys);
    assert_eq!(down_keys(&keys, &LEFT_KEYS), vec![VirtualKey::LUp]);
    stick.handle(Stick { x: 0, y: 500_000 }, 1, 0, &mut keys);
    assert_eq!(down_keys(&keys, &LEFT_KEYS), vec![]);
}

#[test]
fn button_stick_never_holds_opposite_directions() {
    let mut stick = ButtonStick::left(false);
    let mut keys = Buttons::new();
    for tenth in -1800..=1800 {
        stick.handle(Stick { x: 0, y: 500_000 }, tenth * DEG / 10, 0, &mut keys);
        assert!(!(keys.is_pressed(VirtualKey::LUp) && keys.is_pressed(VirtualKey::LDown)));
        assert!(!(keys.is_pressed(VirtualKey::LLeft) && keys.is_pressed(VirtualKey::LRight)));
        assert!(!down_keys(&keys, &LEFT_KEYS).is_empty());
    }
}
