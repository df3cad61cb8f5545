//! A stick that holds down keys: one for each of the four directions that it
//! leans toward, and a ring key for how far it leans.

use vstd::prelude::*;
use crate::angle::{normalize_signed, normalized_signed, HALF_TURN, QUARTER_TURN};
use crate::fixed::abs;
use crate::joystick::{
    amp_clamped, clamped_zone, lemma_dead_zone, DEFAULT_DEADZONE, DEFAULT_FULLZONE, ZONE_ONE,
};
use crate::mapping::{set_key, Buttons, ButtonsModel, VirtualKey};
use crate::vector::Stick;

verus! {

/// The half-angle of the cone of the default tuning, 30 degrees.
pub const DEFAULT_CONE: i64 = 30_000_000;

/// The mathematical content of a `ButtonStick`.
pub struct ButtonStickModel {
    /// Deflections up to this length press nothing.
    pub deadzone: int,
    /// Deflections from this length on count as full.
    pub fullzone: int,
    /// Whether this is the left stick.
    pub left: bool,
    /// The half-angle of the cone, in millionths of a degree: a direction
    /// key is held while the stick is within a quarter turn less this angle
    /// of its axis.
    pub angle: int,
    /// Whether the ring key stands for the inner ring (held while the stick
    /// is between dead zone and full zone) or for the outer ring (held while
    /// the stick is in the full zone).
    pub inner_ring: bool,
}

/// The ring key of a side.
pub open spec fn ring_key(left: bool) -> VirtualKey {
    if left {
        VirtualKey::LRing
    } else {
        VirtualKey::RRing
    }
}

/// The key for leaning right.
pub open spec fn right_key(left: bool) -> VirtualKey {
    if left {
        VirtualKey::LRight
    } else {
        VirtualKey::RRight
    }
}

/// The key for leaning left.
pub open spec fn left_key(left: bool) -> VirtualKey {
    if left {
        VirtualKey::LLeft
    } else {
        VirtualKey::RLeft
    }
}

/// The key for leaning up.
pub open spec fn up_key(left: bool) -> VirtualKey {
    if left {
        VirtualKey::LUp
    } else {
        VirtualKey::RUp
    }
}

/// The key for leaning down.
pub open spec fn down_key(left: bool) -> VirtualKey {
    if left {
        VirtualKey::LDown
    } else {
        VirtualKey::RDown
    }
}

/// Whether the ring key is wanted down at the clamped zone value `amp`: the
/// inner ring above zero and below one, the outer ring at one.
pub open spec fn ring_wanted(inner_ring: bool, amp: int) -> bool {
    if inner_ring {
        0 < amp < ZONE_ONE
    } else {
        amp >= ZONE_ONE
    }
}

/// Whether a stick at `heading` is within `epsilon` of the axis at heading
/// `axis`. Headings are measured from straight up, clockwise.
pub open spec fn near_axis(heading: int, axis: int, epsilon: int) -> bool {
    abs(normalized_signed(heading - axis)) <= epsilon
}

/// The tracker after the four direction keys of a side have each been
/// asked into a state: right, left, up and down, in that order.
pub open spec fn set_directions(
    b: ButtonsModel,
    side_left: bool,
    right: bool,
    left: bool,
    up: bool,
    down: bool,
    now: u64,
) -> ButtonsModel {
    let b = set_key(b, right_key(side_left), right, now);
    let b = set_key(b, left_key(side_left), left, now);
    let b = set_key(b, up_key(side_left), up, now);
    set_key(b, down_key(side_left), down, now)
}

/// The tracker after all keys of a side have been released: the ring, then
/// left, right, up and down, in that order.
pub open spec fn release_all(b: ButtonsModel, side_left: bool, now: u64) -> ButtonsModel {
    let b = set_key(b, ring_key(side_left), false, now);
    let b = set_key(b, left_key(side_left), false, now);
    let b = set_key(b, right_key(side_left), false, now);
    let b = set_key(b, up_key(side_left), false, now);
    set_key(b, down_key(side_left), false, now)
}

/// The tracker after the stick has been handled.
///
/// Outside the dead zone the ring key and the four direction keys are each
/// asked into the state that the deflection and the heading call for.
/// Inside it the ring key and the four direction keys are released.
pub open spec fn buttons_after(
    m: ButtonStickModel,
    stick: Stick,
    heading: int,
    now: u64,
    b: ButtonsModel,
) -> ButtonsModel {
    let amp = amp_clamped(stick.fine_norm(), m.deadzone, m.fullzone);
    let epsilon = QUARTER_TURN - m.angle;
    if amp > 0 {
        set_directions(
            set_key(b, ring_key(m.left), ring_wanted(m.inner_ring, amp), now),
            m.left,
            near_axis(heading, QUARTER_TURN as int, epsilon),
            near_axis(heading, -QUARTER_TURN, epsilon),
            near_axis(heading, 0, epsilon),
            near_axis(heading, HALF_TURN as int, epsilon),
            now,
        )
    } else {
        release_all(b, m.left, now)
    }
}

/// Setting the direction keys puts each into the state asked for and leaves
/// the ring key as it was.
pub proof fn lemma_set_directions(
    b: ButtonsModel,
    side_left: bool,
    right: bool,
    left: bool,
    up: bool,
    down: bool,
    now: u64,
)
    ensures
        ({
            let after = set_directions(b, side_left, right, left, up, down, now);
            &&& after.down.contains(right_key(side_left)) == right
            &&& after.down.contains(left_key(side_left)) == left
            &&& after.down.contains(up_key(side_left)) == up
            &&& after.down.contains(down_key(side_left)) == down
            &&& after.down.contains(ring_key(side_left)) == b.down.contains(ring_key(side_left))
        }),
{
}

/// Releasing all keys of a side leaves none of them down.
pub proof fn lemma_release_all(b: ButtonsModel, side_left: bool, now: u64)
    ensures
        ({
            let after = release_all(b, side_left, now);
            &&& !after.down.contains(ring_key(side_left))
            &&& !after.down.contains(right_key(side_left))
            &&& !after.down.contains(left_key(side_left))
            &&& !after.down.contains(up_key(side_left))
            &&& !after.down.contains(down_key(side_left))
        }),
{
}

/// Whether the stick is near an axis depends on the heading only up to whole
/// turns.
pub proof fn lemma_near_axis_normalized(heading: int, axis: int, epsilon: int)
    ensures
        near_axis(normalized_signed(heading), axis, epsilon) == near_axis(heading, axis, epsilon),
{
    let n = normalized_signed(heading);
    assert((n - axis) % 360_000_000 == (heading - axis) % 360_000_000) by {
        assert((heading - n) % 360_000_000 == 0);
        vstd::arithmetic::div_mod::lemma_mod_equivalence(n - axis, heading - axis, 360_000_000);
    }
}

/// With a cone of at most 45 degrees the four directions leave no gap: a
/// stick outside the dead zone is near at least one axis.
pub proof fn lemma_directions_cover(heading: int, epsilon: int)
    requires
        epsilon >= QUARTER_TURN / 2,
    ensures
        near_axis(heading, 0, epsilon) || near_axis(heading, QUARTER_TURN as int, epsilon)
            || near_axis(heading, HALF_TURN as int, epsilon) || near_axis(
            heading,
            -QUARTER_TURN,
            epsilon,
        ),
{
}

/// With a cone of more than zero degrees no two opposite directions are
/// held at once.
pub proof fn lemma_opposites_exclude(heading: int, epsilon: int)
    requires
        epsilon < QUARTER_TURN,
    ensures
        !(near_axis(heading, 0, epsilon) && near_axis(heading, HALF_TURN as int, epsilon)),
        !(near_axis(heading, QUARTER_TURN as int, epsilon) && near_axis(
            heading,
            -QUARTER_TURN,
            epsilon,
        )),
{
}

/// A stick that holds down direction and ring keys.
#[derive(Clone, Copy, Debug, PartialEq, Eq, Structural)]
pub struct ButtonStick {
    deadzone: i32,
    fullzone: i32,
    left: bool,
    angle: i64,
    inner_ring: bool,
}

impl View for ButtonStick {
    type V = ButtonStickModel;

    closed spec fn view(&self) -> ButtonStickModel {
        ButtonStickModel {
            deadzone: self.deadzone as int,
            fullzone: self.fullzone as int,
            left: self.left,
            angle: self.angle as int,
            inner_ring: self.inner_ring,
        }
    }
}

/// Whether a heading in `(-180, 180]` degrees is within `epsilon` of `axis`.
fn is_near_axis(heading: i64, axis: i64, epsilon: i64) -> (r: bool)
    requires
        -HALF_TURN < heading <= HALF_TURN,
        -HALF_TURN <= axis <= HALF_TURN,
        0 <= epsilon <= QUARTER_TURN,
    ensures
        r == near_axis(heading as int, axis as int, epsilon as int),
{
    let off: i64 = normalize_signed(heading - axis);
    -epsilon <= off && off <= epsilon
}

/// Asks each direction key of a side into the given state.
fn press_directions(
    bindings: &mut Buttons,
    side_left: bool,
    right: bool,
    left: bool,
    up: bool,
    down: bool,
    now: u64,
)
    requires
        old(bindings).wf(),
    ensures
        final(bindings).wf(),
        final(bindings)@ == set_directions(old(bindings)@, side_left, right, left, up, down, now),
{
    bindings.key(
        if side_left {
            VirtualKey::LRight
        } else {
            VirtualKey::RRight
        },
        right,
        now,
    );
    bindings.key(
        if side_left {
            VirtualKey::LLeft
        } else {
            VirtualKey::RLeft
        },
        left,
        now,
    );
    bindings.key(
        if side_left {
            VirtualKey::LUp
        } else {
            VirtualKey::RUp
        },
        up,
        now,
    );
    bindings.key(
        if side_left {
            VirtualKey::LDown
        } else {
            VirtualKey::RDown
        },
        down,
        now,
    );
}

impl ButtonStick {
    /// The dead zone lies below the full zone and the cone is at most a
    /// quarter turn wide.
    pub open spec fn wf(&self) -> bool {
        &&& 0 <= self@.deadzone < self@.fullzone
        &&& 0 <= self@.angle <= QUARTER_TURN
    }

    /// A stick with the given tuning, or `None` if the dead zone does not lie
    /// below the full zone or the cone is wider than a quarter turn.
    pub fn new(deadzone: i32, fullzone: i32, left: bool, angle: i64, inner_ring: bool) -> (r:
        Option<ButtonStick>)
        ensures
            r.is_some() <==> 0 <= deadzone < fullzone && 0 <= angle <= QUARTER_TURN,
            r matches Some(stick) ==> stick.wf() && stick@ == (ButtonStickModel {
                deadzone: deadzone as int,
                fullzone: fullzone as int,
                left,
                angle: angle as int,
                inner_ring,
            }),
    {
        if 0 <= deadzone && deadzone < fullzone && 0 <= angle && angle <= QUARTER_TURN {
            Some(ButtonStick { deadzone, fullzone, left, angle, inner_ring })
        } else {
            None
        }
    }

    /// The left stick with the default tuning.
    pub fn left(inner_ring: bool) -> (r: ButtonStick)
        ensures
            r.wf(),
            r@ == (ButtonStickModel {
                deadzone: DEFAULT_DEADZONE as int,
                fullzone: DEFAULT_FULLZONE as int,
                left: true,
                angle: DEFAULT_CONE as int,
                inner_ring,
            }),
    {
        ButtonStick {
            deadzone: DEFAULT_DEADZONE,
            fullzone: DEFAULT_FULLZONE,
            left: true,
            angle: DEFAULT_CONE,
            inner_ring,
        }
    }

    /// The right stick with the default tuning.
    pub fn right(inner_ring: bool) -> (r: ButtonStick)
        ensures
            r.wf(),
            r@ == (ButtonStickModel {
                deadzone: DEFAULT_DEADZONE as int,
                fullzone: DEFAULT_FULLZONE as int,
                left: false,
                angle: DEFAULT_CONE as int,
                inner_ring,
            }),
    {
        ButtonStick {
            deadzone: DEFAULT_DEADZONE,
            fullzone: DEFAULT_FULLZONE,
            left: false,
            angle: DEFAULT_CONE,
            inner_ring,
        }
    }

    /// Brings the keys of this stick into the state that the stick calls
    /// for. `heading` is the direction in which the stick leans, measured
    /// from straight up, clockwise, in millionths of a degree; it is read
    /// only outside the dead zone. `now` is the time that the events carry.
    ///
    /// A stick inside the dead zone leaves none of its keys down, neither a
    /// direction nor the ring. After every call the ring key is down
    /// exactly when the clamped zone value calls for it: above zero and
    /// below one for an inner ring, at one for an outer ring.
    pub fn handle(&mut self, stick: Stick, heading: i64, now: u64, bindings: &mut Buttons)
        requires
            old(self).wf(),
            old(bindings).wf(),
        ensures
            *final(self) == *old(self),
            final(bindings).wf(),
            final(bindings)@ == buttons_after(
                old(self)@,
                stick,
                heading as int,
                now,
                old(bindings)@,
            ),
            final(bindings)@.down.contains(ring_key(old(self)@.left)) <==> ring_wanted(
                old(self)@.inner_ring,
                amp_clamped(stick.fine_norm(), old(self)@.deadzone, old(self)@.fullzone),
            ),
            stick.norm_sq() < old(self)@.deadzone * old(self)@.deadzone ==> {
                &&& amp_clamped(stick.fine_norm(), old(self)@.deadzone, old(self)@.fullzone) == 0
                &&& !final(bindings)@.down.contains(ring_key(old(self)@.left))
                &&& !final(bindings)@.down.contains(left_key(old(self)@.left))
                &&& !final(bindings)@.down.contains(right_key(old(self)@.left))
                &&& !final(bindings)@.down.contains(up_key(old(self)@.left))
                &&& !final(bindings)@.down.contains(down_key(old(self)@.left))
            },
            amp_clamped(stick.fine_norm(), old(self)@.deadzone, old(self)@.fullzone) == 0 ==> {
                &&& !final(bindings)@.down.contains(ring_key(old(self)@.left))
                &&& !final(bindings)@.down.contains(left_key(old(self)@.left))
                &&& !final(bindings)@.down.contains(right_key(old(self)@.left))
                &&& !final(bindings)@.down.contains(up_key(old(self)@.left))
                &&& !final(bindings)@.down.contains(down_key(old(self)@.left))
            },
    {
        let amp: u64 = stick.magnitude_fine();
        let zone: i64 = clamped_zone(amp, self.deadzone, self.fullzone);
        proof {
            if stick.norm_sq() < self@.deadzone * self@.deadzone {
                lemma_dead_zone(stick.norm_sq(), amp as int, self@.deadzone, self@.fullzone);
            }
        }
        if zone > 0 {
            let epsilon: i64 = QUARTER_TURN - self.angle;
            let lean: i64 = normalize_signed(heading);
            let ring: bool = if self.inner_ring {
                zone < ZONE_ONE
            } else {
                zone >= ZONE_ONE
            };
            bindings.key(
                if self.left {
                    VirtualKey::LRing
                } else {
                    VirtualKey::RRing
                },
                ring,
                now,
            );
            proof {
                lemma_near_axis_normalized(heading as int, QUARTER_TURN as int, epsilon as int);
                lemma_near_axis_normalized(heading as int, -QUARTER_TURN, epsilon as int);
                lemma_near_axis_normalized(heading as int, 0, epsilon as int);
                lemma_near_axis_normalized(heading as int, HALF_TURN as int, epsilon as int);
                lemma_set_directions(
                    bindings@,
                    self.left,
                    near_axis(heading as int, QUARTER_TURN as int, epsilon as int),
                    near_axis(heading as int, -QUARTER_TURN, epsilon as int),
                    near_axis(heading as int, 0, epsilon as int),
                    near_axis(heading as int, HALF_TURN as int, epsilon as int),
                    now,
                );
            }
            press_directions(
                bindings,
                self.left,
                is_near_axis(lean, QUARTER_TURN, epsilon),
                is_near_axis(lean, -QUARTER_TURN, epsilon),
                is_near_axis(lean, 0, epsilon),
                is_near_axis(lean, HALF_TURN, epsilon),
                now,
            );
        } else {
            proof {
                lemma_release_all(bindings@, self.left, now);
            }
            if self.left {
                bindings.key_up(VirtualKey::LRing, now);
                bindings.key_up(VirtualKey::LLeft, now);
                bindings.key_up(VirtualKey::LRight, now);
                bindings.key_up(VirtualKey::LUp, now);
                bindings.key_up(VirtualKey::LDown, now);
            } else {
                bindings.key_up(VirtualKey::RRing, now);
                bindings.key_up(VirtualKey::RLeft, now);
                bindings.key_up(VirtualKey::RRight, now);
                bindings.key_up(VirtualKey::RUp, now);
                bindings.key_up(VirtualKey::RDown, now);
            }
        }
    }
}

} // verus!
