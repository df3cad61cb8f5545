use gyromouse::mapping::{Buttons, KeyEvent, VirtualKey, KEY_COUNT};
use gyromouse::pad::{Binding, HostAction, Key, MouseButton, Pad, PadButton, BUTTON_COUNT};

const ALL_KEYS: [VirtualKey; 10] = [
    VirtualKey::LUp,
    VirtualKey::LDown,
    VirtualKey::LLeft,
    VirtualKey::LRight,
    VirtualKey::LRing,
    VirtualKey::RUp,
    VirtualKey::RDown,
    VirtualKey::RLeft,
    VirtualKey::RRight,
    VirtualKey::RRing,
];

#[test]
fn virtual_keys_are_numbered_in_order() {
    assert_eq!(KEY_COUNT, 10);
    for (i, key) in ALL_KEYS.iter().enumerate() {
        assert_eq!(key.index(), i);
    }
}

#[test]
fn tracker_starts_with_all_keys_up() {
    let mut b = Buttons::new();
    for key in ALL_KEYS {
        assert!(!b.is_pressed(key));
    }
    assert_eq!(b.take_events(), vec![]);
}

#[test]
fn tracker_records_edges_only() {
    let mut b = Buttons::new();
    b.key(VirtualKey::LUp, true, 1);
    b.key(VirtualKey::LUp, true, 2);
    b.key(VirtualKey::RRing, false, 3);
    b.key(VirtualKey::LUp, false, 4);
    b.key(VirtualKey::LUp, false, 5);
    b.key(VirtualKey::RRing, true, 6);
    assert_eq!(
        b.take_events(),
        vec![
            KeyEvent { key: VirtualKey::LUp, pressed: true, time: 1 },
            KeyEvent { key: VirtualKey::LUp, pressed: false, time: 4 },
            KeyEvent { key: VirtualKey::RRing, pressed: true, time: 6 },
        ]
    );
    assert!(b.is_pressed(VirtualKey::RRing));
    assert!(!b.is_pressed(VirtualKey::LUp));
}

#[test]
fn tracker_keys_are_independent() {
    for key in ALL_KEYS {
        let mut b = Buttons::new();
        b.key_down(key, 9);
        for other in ALL_KEYS {
            assert_eq!(b.is_pressed(other), other == key);
        }
        b.key_up(key, 10);
        for other in ALL_KEYS {
            assert!(!b.is_pressed(other));
        }
        assert_eq!(
            b.take_events(),
            vec![
                KeyEvent { key, pressed: true, time: 9 },
                KeyEvent { key, pressed: false, time: 10 },
            ]
        );
    }
}

#[test]
fn taking_events_keeps_the_key_states() {
    let mut b = Buttons::new();
    b.key_down(VirtualKey::LLeft, 1);
    assert_eq!(b.take_events().len(), 1);
    assert!(b.is_pressed(VirtualKey::LLeft));
    assert_eq!(b.take_events(), vec![]);
    b.key_down(VirtualKey::LLeft, 2);
    assert_eq!(b.take_events(), vec![]);
    b.key_up(VirtualKey::LLeft, 3);
    assert_eq!(b.take_events(), vec![KeyEvent { key: VirtualKey::LLeft, pressed: false, time: 3 }]);
}

fn reading(held: &[PadButton]) -> [bool; 18] {
    let mut r = [false; 18];
    for b in held {
        r[b.index()] = true;
    }
    r
}

#[test]
fn pad_buttons_are_numbered_in_scan_order() {
    assert_eq!(BUTTON_COUNT, 18);
    for i in 0..BUTTON_COUNT {
        assert_eq!(PadButton::at(i).index(), i);
    }
    assert_eq!(PadButton::at(0), PadButton::A);
    assert_eq!(PadButton::at(17), PadButton::ZL);
}

#[test]
fn pad_chord_goes_down_in_order_and_up_in_reverse() {
    let mut pad = Pad::new();
    let (actions, settle) = pad.on_report(&reading(&[PadButton::Left]));
    assert_eq!(
        actions,
        vec![
            HostAction::KeyDown(Key::Control),
            HostAction::KeyDown(Key::Shift),
            HostAction::KeyDown(Key::Tab),
        ]
    );
    assert!(settle);
    assert!(pad.is_held(PadButton::Left));
    let (actions, settle) = pad.on_report(&reading(&[PadButton::Left]));
    assert_eq!(actions, vec![]);
    assert!(!settle);
    let (actions, settle) = pad.on_report(&reading(&[]));
    assert_eq!(
        actions,
        vec![
            HostAction::KeyUp(Key::Tab),
            HostAction::KeyUp(Key::Shift),
            HostAction::KeyUp(Key::Control),
        ]
    );
    assert!(settle);
    assert!(!pad.is_held(PadButton::Left));
}

#[test]
fn pad_mouse_buttons_need_no_pause() {
    let mut pad = Pad::new();
    let (actions, settle) = pad.on_report(&reading(&[PadButton::ZL, PadButton::LStick]));
    assert_eq!(
        actions,
        vec![
            HostAction::MouseDown(MouseButton::Middle),
            HostAction::MouseDown(MouseButton::Left),
        ]
    );
    assert!(!settle);
    let (actions, settle) = pad.on_report(&reading(&[]));
    assert_eq!(
        actions,
        vec![HostAction::MouseUp(MouseButton::Middle), HostAction::MouseUp(MouseButton::Left)]
    );
    assert!(!settle);
}

#[test]
fn pad_clicks_on_release() {
    let mut pad = Pad::new();
    let (actions, settle) = pad.on_report(&reading(&[PadButton::ZR, PadButton::R]));
    assert_eq!(actions, vec![]);
    assert!(!settle);
    assert!(pad.is_held(PadButton::ZR));
    let (actions, settle) = pad.on_report(&reading(&[PadButton::R]));
    assert_eq!(actions, vec![HostAction::MouseClick(MouseButton::Left)]);
    assert!(!settle);
    let (actions, _) = pad.on_report(&reading(&[]));
    assert_eq!(actions, vec![HostAction::MouseClick(MouseButton::Right)]);
}

#[test]
fn pad_bindings_table() {
    let chord2 = |a, b| Binding::Chord2(a, b);
    assert_eq!(PadButton::A.binding(), chord2(Key::Meta, Key::RightArrow));
    assert_eq!(PadButton::B.binding(), chord2(Key::Meta, Key::LeftArrow));
    assert_eq!(PadButton::Minus.binding(), chord2(Key::Meta, Key::Raw(0x0D)));
    assert_eq!(PadButton::Plus.binding(), chord2(Key::Meta, Key::Raw(0x11)));
    assert_eq!(PadButton::Left.binding(), Binding::Chord3(Key::Control, Key::Shift, Key::Tab));
    assert_eq!(PadButton::Right.binding(), chord2(Key::Control, Key::Tab));
    assert_eq!(PadButton::Down.binding(), chord2(Key::Meta, Key::Raw(0x08)));
    assert_eq!(PadButton::Up.binding(), chord2(Key::Meta, Key::Raw(0x09)));
    assert_eq!(PadButton::Home.binding(), Binding::Chord3(Key::Meta, Key::Shift, Key::Raw(0x06)));
    assert_eq!(PadButton::Capture.binding(), chord2(Key::Meta, Key::Raw(0x06)));
    assert_eq!(PadButton::LStick.binding(), Binding::Hold(MouseButton::Middle));
    assert_eq!(PadButton::RStick.binding(), Binding::Chord1(Key::Return));
    assert_eq!(PadButton::X.binding(), Binding::Chord1(Key::Meta));
    assert_eq!(PadButton::Y.binding(), Binding::Chord1(Key::Shift));
    assert_eq!(PadButton::ZR.binding(), Binding::ClickOnRelease(MouseButton::Left));
    assert_eq!(PadButton::L.binding(), chord2(Key::Meta, Key::Raw(0x0F)));
    assert_eq!(PadButton::R.binding(), Binding::ClickOnRelease(MouseButton::Right));
    assert_eq!(PadButton::ZL.binding(), Binding::Hold(MouseButton::Left));
}

#[test]
fn pad_binding_actions() {
    let mut actions = vec![HostAction::MouseClick(MouseButton::Middle)];
    PadButton::Home.binding().push_actions(true, &mut actions);
    PadButton::Home.binding().push_actions(false, &mut actions);
    PadButton::ZR.binding().push_actions(true, &mut actions);
    PadButton::X.binding().push_actions(false, &mut actions);
    assert_eq!(
        actions,
        vec![
            HostAction::MouseClick(MouseButton::Middle),
            HostAction::KeyDown(Key::Meta),
            HostAction::KeyDown(Key::Shift),
            HostAction::KeyDown(Key::Raw(0x06)),
            HostAction::KeyUp(Key::Raw(0x06)),
            HostAction::KeyUp(Key::Shift),
            HostAction::KeyUp(Key::Meta),
            HostAction::KeyUp(Key::Meta),
        ]
    );
    assert!(PadButton::Home.binding().settles());
    assert!(PadButton::RStick.binding().settles());
    assert!(!PadButton::ZL.binding().settles());
    assert!(!PadButton::R.binding().settles());
}

#[test]
fn pad_goes_through_buttons_in_scan_order() {
    let mut pad = Pad::new();
    let (actions, settle) =
        pad.on_report(&reading(&[PadButton::ZL, PadButton::Y, PadButton::A, PadButton::RStick]));
    assert_eq!(
        actions,
        vec![
            HostAction::KeyDown(Key::Meta),
            HostAction::KeyDown(Key::RightArrow),
            HostAction::KeyDown(Key::Return),
            HostAction::KeyDown(Key::Shift),
            HostAction::MouseDown(MouseButton::Left),
        ]
    );
    assert!(settle);
    // one goes up while another goes down
    let (actions, settle) =
        pad.on_report(&reading(&[PadButton::ZL, PadButton::Y, PadButton::RStick, PadButton::B]));
    assert_eq!(
        actions,
        vec![
            HostAction::KeyUp(Key::RightArrow),
            HostAction::KeyUp(Key::Meta),
            HostAction::KeyDown(Key::Meta),
            HostAction::KeyDown(Key::LeftArrow),
        ]
    );
    assert!(settle);
    for i in 0..BUTTON_COUNT {
        let button = PadButton::at(i);
        let want = matches!(
            button,
            PadButton::ZL | PadButton::Y | PadButton::RStick | PadButton::B
        );
        assert_eq!(pad.is_held(button), want);
    }
}
