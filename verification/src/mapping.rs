//! Virtual keys and the tracker that turns their desired states into press
//! and release events.

use vstd::prelude::*;

verus! {

/// The number of virtual keys.
pub const KEY_COUNT: usize = 10;

/// A key that a stick can hold down: four directions and a ring for each of
/// the two sticks.
#[derive(Clone, Copy, Debug, PartialEq, Eq, Hash, Structural)]
pub enum VirtualKey {
    LUp,
    LDown,
    LLeft,
    LRight,
    LRing,
    RUp,
    RDown,
    RLeft,
    RRight,
    RRing,
}

impl VirtualKey {
    /// The position of the key in the order of declaration.
    pub open spec fn spec_index(self) -> int {
        match self {
            VirtualKey::LUp => 0,
            VirtualKey::LDown => 1,
            VirtualKey::LLeft => 2,
            VirtualKey::LRight => 3,
            VirtualKey::LRing => 4,
            VirtualKey::RUp => 5,
            VirtualKey::RDown => 6,
            VirtualKey::RLeft => 7,
            VirtualKey::RRight => 8,
            VirtualKey::RRing => 9,
        }
    }

    /// The position of the key in the order of declaration.
    pub fn index(self) -> (r: usize)
        ensures
            r == self.spec_index(),
            r < KEY_COUNT,
    {
        match self {
            VirtualKey::LUp => 0,
            VirtualKey::LDown => 1,
            VirtualKey::LLeft => 2,
            VirtualKey::LRight => 3,
            VirtualKey::LRing => 4,
            VirtualKey::RUp => 5,
            VirtualKey::RDown => 6,
            VirtualKey::RLeft => 7,
            VirtualKey::RRight => 8,
            VirtualKey::RRing => 9,
        }
    }
}

/// A change of a key's state.
#[derive(Clone, Copy, Debug, PartialEq, Eq, Structural)]
pub struct KeyEvent {
    /// The key that changed.
    pub key: VirtualKey,
    /// Whether it went down (`true`) or up (`false`).
    pub pressed: bool,
    /// When it changed, in millionths of a second.
    pub time: u64,
}

/// The mathematical state of the tracker.
pub struct ButtonsModel {
    /// The keys that are held down.
    pub down: Set<VirtualKey>,
    /// The changes not yet taken, oldest first.
    pub events: Seq<KeyEvent>,
}

/// The tracker after a key has been asked to be in a given state: the key is
/// in that state, and an event is recorded if and only if that is a change.
pub open spec fn set_key(
    b: ButtonsModel,
    key: VirtualKey,
    pressed: bool,
    time: u64,
) -> ButtonsModel {
    ButtonsModel {
        down: if pressed {
            b.down.insert(key)
        } else {
            b.down.remove(key)
        },
        events: if b.down.contains(key) != pressed {
            b.events.push(KeyEvent { key, pressed, time })
        } else {
            b.events
        },
    }
}

/// The key-state tracker: remembers which keys are down and records an event
/// on each edge.
#[derive(Debug)]
pub struct Buttons {
    down: Vec<bool>,
    events: Vec<KeyEvent>,
}

impl View for Buttons {
    type V = ButtonsModel;

    closed spec fn view(&self) -> ButtonsModel {
        ButtonsModel {
            down: Set::new(|key: VirtualKey| self.down@[key.spec_index()]),
            events: self.events@,
        }
    }
}

impl Buttons {
    /// The tracker holds one state per key.
    pub closed spec fn wf(&self) -> bool {
        self.down@.len() == KEY_COUNT
    }

    /// A tracker with every key up and no event recorded.
    pub fn new() -> (r: Buttons)
        ensures
            r.wf(),
            r@.down == Set::<VirtualKey>::empty(),
            r@.events == Seq::<KeyEvent>::empty(),
    {
        let mut down: Vec<bool> = Vec::new();
        let mut i: usize = 0;
        while i < KEY_COUNT
            invariant
                i <= KEY_COUNT,
                down@.len() == i,
                forall|j: int| 0 <= j < i ==> !down@[j],
            decreases KEY_COUNT - i,
        {
            down.push(false);
            i = i + 1;
        }
        let r = Buttons { down, events: Vec::new() };
        assert(r@.down =~= Set::<VirtualKey>::empty());
        r
    }

    /// Whether the key is held down.
    pub fn is_pressed(&self, key: VirtualKey) -> (r: bool)
        requires
            self.wf(),
        ensures
            r == self@.down.contains(key),
    {
        self.down[key.index()]
    }

    /// Asks for the key to be down (`pressed`) or up at time `now`. An event
    /// is recorded on a change and only then.
    pub fn key(&mut self, key: VirtualKey, pressed: bool, now: u64)
        requires
            old(self).wf(),
        ensures
            final(self).wf(),
            final(self)@ == set_key(old(self)@, key, pressed, now),
    {
        let i: usize = key.index();
        if self.down[i] != pressed {
            self.down.set(i, pressed);
            self.events.push(KeyEvent { key, pressed, time: now });
        }
        assert(final(self)@.down =~= set_key(old(self)@, key, pressed, now).down);
    }

    /// Asks for the key to be down.
    pub fn key_down(&mut self, key: VirtualKey, now: u64)
        requires
            old(self).wf(),
        ensures
            final(self).wf(),
            final(self)@ == set_key(old(self)@, key, true, now),
    {
        self.key(key, true, now)
    }

    /// Asks for the key to be up.
    pub fn key_up(&mut self, key: VirtualKey, now: u64)
        requires
            old(self).wf(),
        ensures
            final(self).wf(),
            final(self)@ == set_key(old(self)@, key, false, now),
    {
        self.key(key, false, now)
    }

    /// Hands out the recorded events, oldest first, and forgets them.
    pub fn take_events(&mut self) -> (events: Vec<KeyEvent>)
        requires
            old(self).wf(),
        ensures
            final(self).wf(),
            events@ == old(self)@.events,
            final(self)@.events == Seq::<KeyEvent>::empty(),
            final(self)@.down == old(self)@.down,
    {
        let mut events: Vec<KeyEvent> = Vec::new();
        core::mem::swap(&mut events, &mut self.events);
        events
    }
}

} // verus!
