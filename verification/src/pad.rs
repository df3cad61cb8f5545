//! The buttons of the controller and what each does on the host.
//!
//! Most buttons stand for a chord of keys: pressing the button presses the
//! keys in order, releasing it releases them in reverse order. A tracker
//! remembers which buttons are held and turns each report into the actions
//! for the buttons that changed.

use vstd::prelude::*;

verus! {

/// The number of buttons.
pub const BUTTON_COUNT: usize = 18;

/// A button of the controller.
#[derive(Clone, Copy, Debug, PartialEq, Eq, Hash, Structural)]
pub enum PadButton {
    A,
    B,
    Minus,
    Plus,
    Left,
    Right,
    Down,
    Up,
    Home,
    Capture,
    LStick,
    RStick,
    X,
    Y,
    ZR,
    L,
    R,
    ZL,
}

/// A key of the host keyboard.
#[derive(Clone, Copy, Debug, PartialEq, Eq, Structural)]
pub enum Key {
    Meta,
    Shift,
    Control,
    Tab,
    Return,
    RightArrow,
    LeftArrow,
    /// A key given by its raw code.
    Raw(u16),
}

/// A button of the host mouse.
#[derive(Clone, Copy, Debug, PartialEq, Eq, Structural)]
pub enum MouseButton {
    Left,
    Middle,
    Right,
}

/// Something to do on the host.
#[derive(Clone, Copy, Debug, PartialEq, Eq, Structural)]
pub enum HostAction {
    KeyDown(Key),
    KeyUp(Key),
    MouseDown(MouseButton),
    MouseUp(MouseButton),
    MouseClick(MouseButton),
}

/// What a button does.
#[derive(Clone, Copy, Debug, PartialEq, Eq, Structural)]
pub enum Binding {
    /// Holds one key.
    Chord1(Key),
    /// Holds two keys.
    Chord2(Key, Key),
    /// Holds three keys.
    Chord3(Key, Key, Key),
    /// Holds a mouse button.
    Hold(MouseButton),
    /// Clicks a mouse button when released.
    ClickOnRelease(MouseButton),
}

impl PadButton {
    /// The position of the button in the order in which a report is gone
    /// through.
    pub open spec fn spec_index(self) -> int {
        match self {
            PadButton::A => 0,
            PadButton::B => 1,
            PadButton::Minus => 2,
            PadButton::Plus => 3,
            PadButton::Left => 4,
            PadButton::Right => 5,
            PadButton::Down => 6,
            PadButton::Up => 7,
            PadButton::Home => 8,
            PadButton::Capture => 9,
            PadButton::LStick => 10,
            PadButton::RStick => 11,
            PadButton::X => 12,
            PadButton::Y => 13,
            PadButton::ZR => 14,
            PadButton::L => 15,
            PadButton::R => 16,
            PadButton::ZL => 17,
        }
    }

    /// The position of the button in the order in which a report is gone
    /// through.
    pub fn index(self) -> (r: usize)
        ensures
            r == self.spec_index(),
            r < BUTTON_COUNT,
    {
        match self {
            PadButton::A => 0,
            PadButton::B => 1,
            PadButton::Minus => 2,
            PadButton::Plus => 3,
            PadButton::Left => 4,
            PadButton::Right => 5,
            PadButton::Down => 6,
            PadButton::Up => 7,
            PadButton::Home => 8,
            PadButton::Capture => 9,
            PadButton::LStick => 10,
            PadButton::RStick => 11,
            PadButton::X => 12,
            PadButton::Y => 13,
            PadButton::ZR => 14,
            PadButton::L => 15,
            PadButton::R => 16,
            PadButton::ZL => 17,
        }
    }

    /// The button at a position.
    pub open spec fn spec_at(i: int) -> PadButton {
        if i == 0 {
            PadButton::A
        } else if i == 1 {
            PadButton::B
        } else if i == 2 {
            PadButton::Minus
        } else if i == 3 {
            PadButton::Plus
        } else if i == 4 {
            PadButton::Left
        } else if i == 5 {
            PadButton::Right
        } else if i == 6 {
            PadButton::Down
        } else if i == 7 {
            PadButton::Up
        } else if i == 8 {
            PadButton::Home
        } else if i == 9 {
            PadButton::Capture
        } else if i == 10 {
            PadButton::LStick
        } else if i == 11 {
            PadButton::RStick
        } else if i == 12 {
            PadButton::X
        } else if i == 13 {
            PadButton::Y
        } else if i == 14 {
            PadButton::ZR
        } else if i == 15 {
            PadButton::L
        } else if i == 16 {
            PadButton::R
        } else {
            PadButton::ZL
        }
    }

    /// The button at a position.
    pub fn at(i: usize) -> (r: PadButton)
        requires
            i < BUTTON_COUNT,
        ensures
            r == PadButton::spec_at(i as int),
            r.spec_index() == i,
    {
        if i == 0 {
            PadButton::A
        } else if i == 1 {
            PadButton::B
        } else if i == 2 {
            PadButton::Minus
        } else if i == 3 {
            PadButton::Plus
        } else if i == 4 {
            PadButton::Left
        } else if i == 5 {
            PadButton::Right
        } else if i == 6 {
            PadButton::Down
        } else if i == 7 {
            PadButton::Up
        } else if i == 8 {
            PadButton::Home
        } else if i == 9 {
            PadButton::Capture
        } else if i == 10 {
            PadButton::LStick
        } else if i == 11 {
            PadButton::RStick
        } else if i == 12 {
            PadButton::X
        } else if i == 13 {
            PadButton::Y
        } else if i == 14 {
            PadButton::ZR
        } else if i == 15 {
            PadButton::L
        } else if i == 16 {
            PadButton::R
        } else {
            PadButton::ZL
        }
    }

    /// What the button does.
    pub open spec fn spec_binding(self) -> Binding {
        match self {
            PadButton::A => Binding::Chord2(Key::Meta, Key::RightArrow),
            PadButton::B => Binding::Chord2(Key::Meta, Key::LeftArrow),
            PadButton::Minus => Binding::Chord2(Key::Meta, Key::Raw(0x0D)),
            PadButton::Plus => Binding::Chord2(Key::Meta, Key::Raw(0x11)),
            PadButton::Left => Binding::Chord3(Key::Control, Key::Shift, Key::Tab),
            PadButton::Right => Binding::Chord2(Key::Control, Key::Tab),
            PadButton::Down => Binding::Chord2(Key::Meta, Key::Raw(0x08)),
            PadButton::Up => Binding::Chord2(Key::Meta, Key::Raw(0x09)),
            PadButton::Home => Binding::Chord3(Key::Meta, Key::Shift, Key::Raw(0x06)),
            PadButton::Capture => Binding::Chord2(Key::Meta, Key::Raw(0x06)),
            PadButton::LStick => Binding::Hold(MouseButton::Middle),
            PadButton::RStick => Binding::Chord1(Key::Return),
            PadButton::X => Binding::Chord1(Key::Meta),
            PadButton::Y => Binding::Chord1(Key::Shift),
            PadButton::ZR => Binding::ClickOnRelease(MouseButton::Left),
            PadButton::L => Binding::Chord2(Key::Meta, Key::Raw(0x0F)),
            PadButton::R => Binding::ClickOnRelease(MouseButton::Right),
            PadButton::ZL => Binding::Hold(MouseButton::Left),
        }
    }

    /// What the button does.
    pub fn binding(self) -> (r: Binding)
        ensures
            r == self.spec_binding(),
    {
        match self {
            PadButton::A => Binding::Chord2(Key::Meta, Key::RightArrow),
            PadButton::B => Binding::Chord2(Key::Meta, Key::LeftArrow),
            PadButton::Minus => Binding::Chord2(Key::Meta, Key::Raw(0x0D)),
            PadButton::Plus => Binding::Chord2(Key::Meta, Key::Raw(0x11)),
            PadButton::Left => Binding::Chord3(Key::Control, Key::Shift, Key::Tab),
            PadButton::Right => Binding::Chord2(Key::Control, Key::Tab),
            PadButton::Down => Binding::Chord2(Key::Meta, Key::Raw(0x08)),
            PadButton::Up => Binding::Chord2(Key::Meta, Key::Raw(0x09)),
            PadButton::Home => Binding::Chord3(Key::Meta, Key::Shift, Key::Raw(0x06)),
            PadButton::Capture => Binding::Chord2(Key::Meta, Key::Raw(0x06)),
            PadButton::LStick => Binding::Hold(MouseButton::Middle),
            PadButton::RStick => Binding::Chord1(Key::Return),
            PadButton::X => Binding::Chord1(Key::Meta),
            PadButton::Y => Binding::Chord1(Key::Shift),
            PadButton::ZR => Binding::ClickOnRelease(MouseButton::Left),
            PadButton::L => Binding::Chord2(Key::Meta, Key::Raw(0x0F)),
            PadButton::R => Binding::ClickOnRelease(MouseButton::Right),
            PadButton::ZL => Binding::Hold(MouseButton::Left),
        }
    }
}

impl Binding {
    /// The keys of a chord, in the order in which they go down; empty for a
    /// binding that is no chord.
    pub open spec fn chord(self) -> Seq<Key> {
        match self {
            Binding::Chord1(a) => seq![a],
            Binding::Chord2(a, b) => seq![a, b],
            Binding::Chord3(a, b, c) => seq![a, b, c],
            Binding::Hold(_) => seq![],
            Binding::ClickOnRelease(_) => seq![],
        }
    }

    /// What pressing the button does: a chord's keys go down in order, a held
    /// mouse button goes down.
    pub open spec fn press_actions(self) -> Seq<HostAction> {
        match self {
            Binding::Hold(button) => seq![HostAction::MouseDown(button)],
            Binding::ClickOnRelease(_) => seq![],
            _ => self.chord().map_values(|key: Key| HostAction::KeyDown(key)),
        }
    }

    /// What releasing the button does: a chord's keys come up in reverse
    /// order, a held mouse button comes up, a click is made.
    pub open spec fn release_actions(self) -> Seq<HostAction> {
        match self {
            Binding::Hold(button) => seq![HostAction::MouseUp(button)],
            Binding::ClickOnRelease(button) => seq![HostAction::MouseClick(button)],
            _ => self.chord().reverse().map_values(|key: Key| HostAction::KeyUp(key)),
        }
    }

    /// Whether the host needs a pause after the actions, so that it sees
    /// them in order: after keys, not after mouse buttons.
    pub open spec fn spec_settles(self) -> bool {
        match self {
            Binding::Hold(_) => false,
            Binding::ClickOnRelease(_) => false,
            _ => true,
        }
    }

    /// Whether the host needs a pause after the actions.
    pub fn settles(self) -> (r: bool)
        ensures
            r == self.spec_settles(),
    {
        match self {
            Binding::Hold(_) => false,
            Binding::ClickOnRelease(_) => false,
            _ => true,
        }
    }

    /// Appends what pressing (`pressed`) or releasing the button does.
    pub fn push_actions(self, pressed: bool, actions: &mut Vec<HostAction>)
        ensures
            final(actions)@ == old(actions)@ + if pressed {
                self.press_actions()
            } else {
                self.release_actions()
            },
    {
        let ghost before = actions@;
        match self {
            Binding::Chord1(a) => {
                if pressed {
                    actions.push(HostAction::KeyDown(a));
                    assert(actions@ =~= before + self.press_actions());
                } else {
                    actions.push(HostAction::KeyUp(a));
                    assert(self.chord().reverse() =~= seq![a]);
                    assert(actions@ =~= before + self.release_actions());
                }
            },
            Binding::Chord2(a, b) => {
                if pressed {
                    actions.push(HostAction::KeyDown(a));
                    actions.push(HostAction::KeyDown(b));
                    assert(actions@ =~= before + self.press_actions());
                } else {
                    actions.push(HostAction::KeyUp(b));
                    actions.push(HostAction::KeyUp(a));
                    assert(self.chord().reverse() =~= seq![b, a]);
                    assert(actions@ =~= before + self.release_actions());
                }
            },
            Binding::Chord3(a, b, c) => {
                if pressed {
                    actions.push(HostAction::KeyDown(a));
                    actions.push(HostAction::KeyDown(b));
                    actions.push(HostAction::KeyDown(c));
                    assert(actions@ =~= before + self.press_actions());
                } else {
                    actions.push(HostAction::KeyUp(c));
                    actions.push(HostAction::KeyUp(b));
                    actions.push(HostAction::KeyUp(a));
                    assert(self.chord().reverse() =~= seq![c, b, a]);
                    assert(actions@ =~= before + self.release_actions());
                }
            },
            Binding::Hold(button) => {
                if pressed {
                    actions.push(HostAction::MouseDown(button));
                    assert(actions@ =~= before + self.press_actions());
                } else {
                    actions.push(HostAction::MouseUp(button));
                    assert(actions@ =~= before + self.release_actions());
                }
            },
            Binding::ClickOnRelease(button) => {
                if pressed {
                    assert(actions@ =~= before + self.press_actions());
                } else {
                    actions.push(HostAction::MouseClick(button));
                    assert(actions@ =~= before + self.release_actions());
                }
            },
        }
    }
}

/// The mathematical state of the tracker: the buttons that are held.
pub struct PadModel {
    /// The buttons that are held.
    pub held: Set<PadButton>,
}

/// What going through a report has come to: the buttons held, the actions
/// to take, oldest first, and whether to pause after them.
pub struct Scan {
    /// The buttons that are held.
    pub held: Set<PadButton>,
    /// The actions to take, oldest first.
    pub actions: Seq<HostAction>,
    /// Whether the host needs a pause after the actions.
    pub settle: bool,
}

/// A scan after one more button has been looked at: a button that has
/// changed is recorded in its new state, its actions are added, and a pause
/// is called for if its binding needs one; a button that has not changed
/// leaves the scan as it is.
pub open spec fn scan_button(s: Scan, button: PadButton, pressed: bool) -> Scan {
    if s.held.contains(button) == pressed {
        s
    } else {
        Scan {
            held: if pressed {
                s.held.insert(button)
            } else {
                s.held.remove(button)
            },
            actions: s.actions + if pressed {
                button.spec_binding().press_actions()
            } else {
                button.spec_binding().release_actions()
            },
            settle: s.settle || button.spec_binding().spec_settles(),
        }
    }
}

/// A scan after the first `n` buttons of a report have been looked at, in
/// order. `reading[i]` tells whether the button at position `i` is pressed.
pub open spec fn scan_first(held: Set<PadButton>, reading: Seq<bool>, n: nat) -> Scan
    decreases n,
{
    if n == 0 {
        Scan { held, actions: seq![], settle: false }
    } else {
        scan_button(
            scan_first(held, reading, (n - 1) as nat),
            PadButton::spec_at(n - 1),
            reading[n - 1],
        )
    }
}

/// The tracker of the controller's buttons.
#[derive(Debug)]
pub struct Pad {
    held: Vec<bool>,
}

impl View for Pad {
    type V = PadModel;

    closed spec fn view(&self) -> PadModel {
        PadModel { held: Set::new(|button: PadButton| self.held@[button.spec_index()]) }
    }
}

impl Pad {
    /// The tracker holds one state per button.
    pub closed spec fn wf(&self) -> bool {
        self.held@.len() == BUTTON_COUNT
    }

    /// A tracker with no button held.
    pub fn new() -> (r: Pad)
        ensures
            r.wf(),
            r@.held == Set::<PadButton>::empty(),
    {
        let mut held: Vec<bool> = Vec::new();
        let mut i: usize = 0;
        while i < BUTTON_COUNT
            invariant
                i <= BUTTON_COUNT,
                held@.len() == i,
                forall|j: int| 0 <= j < i ==> !held@[j],
            decreases BUTTON_COUNT - i,
        {
            held.push(false);
            i = i + 1;
        }
        let r = Pad { held };
        assert(r@.held =~= Set::<PadButton>::empty());
        r
    }

    /// Whether the button is held.
    pub fn is_held(&self, button: PadButton) -> (r: bool)
        requires
            self.wf(),
        ensures
            r == self@.held.contains(button),
    {
        self.held[button.index()]
    }

    /// Takes in the buttons of one report, `reading[i]` telling whether the
    /// button at position `i` is pressed, and returns the actions for the
    /// buttons that have changed, in the order of the buttons, and whether
    /// the host needs a pause after them.
    pub fn on_report(&mut self, reading: &[bool; 18]) -> (r: (Vec<HostAction>, bool))
        requires
            old(self).wf(),
        ensures
            final(self).wf(),
            final(self)@.held == scan_first(old(self)@.held, reading@, BUTTON_COUNT as nat).held,
            r.0@ == scan_first(old(self)@.held, reading@, BUTTON_COUNT as nat).actions,
            r.1 == scan_first(old(self)@.held, reading@, BUTTON_COUNT as nat).settle,
    {
        let ghost start = self@.held;
        let mut actions: Vec<HostAction> = Vec::new();
        let mut settle: bool = false;
        let mut i: usize = 0;
        while i < BUTTON_COUNT
            invariant
                i <= BUTTON_COUNT,
                self.wf(),
                self@.held == scan_first(start, reading@, i as nat).held,
                actions@ == scan_first(start, reading@, i as nat).actions,
                settle == scan_first(start, reading@, i as nat).settle,
            decreases BUTTON_COUNT - i,
        {
            let button: PadButton = PadButton::at(i);
            let pressed: bool = reading[i];
            let ghost before = self@.held;
            if self.held[i] != pressed {
                self.held.set(i, pressed);
                let binding: Binding = button.binding();
                binding.push_actions(pressed, &mut actions);
                settle = settle || binding.settles();
                assert(self@.held =~= if pressed {
                    before.insert(button)
                } else {
                    before.remove(button)
                });
            } else {
                assert(self@.held =~= before);
            }
            i = i + 1;
        }
        (actions, settle)
    }
}

} // verus!
