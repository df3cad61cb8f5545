//! A stick that turns the view: a quick deflection snaps the view to the
//! angle that the stick points at, at a fixed angular speed, and while the
//! stick stays deflected the view follows its rotation.

use vstd::prelude::*;
use crate::angle::{normalize_signed, normalized_signed, HALF_TURN};
use crate::fixed::abs;
use crate::vector::Stick;

verus! {

/// The flick time of the default tuning: a tenth of a second for half a
/// turn.
pub const DEFAULT_FLICK_TIME: u64 = 100_000;

/// The threshold of the default tuning, `0.6`.
pub const DEFAULT_THRESHOLD: i32 = 600_000;

/// The phase that a `FlickStick` is in. Angles are in millionths of a
/// degree, times in millionths of a second.
#[derive(Clone, Copy, Debug, PartialEq, Eq, Structural)]
pub enum FlickStickState {
    /// The stick is at rest.
    Center,
    /// The view is snapping toward `target`; `last` is how far it has come.
    Flicking { flick_start: u64, last: i64, target: i64 },
    /// The snap is over and the view follows the stick, last seen at
    /// `old_rotation`.
    Rotating { old_rotation: i64 },
}

/// The mathematical content of a `FlickStick`.
pub struct FlickStickModel {
    /// The time that a snap of half a turn takes.
    pub flick_time: int,
    /// Deflections shorter than this bring the stick back to rest.
    pub threshold: int,
    /// The phase.
    pub state: FlickStickState,
    /// Whether the view follows the stick after the snap.
    pub do_rotate: bool,
}

/// Whether the deflection is shorter than the threshold.
pub open spec fn below_threshold(stick: Stick, threshold: int) -> bool {
    threshold > 0 && stick.norm_sq() < threshold * threshold
}

/// The time since the snap began; a clock that ran backwards counts as no
/// time.
pub open spec fn flick_elapsed(flick_start: int, now: int) -> int {
    if now >= flick_start {
        now - flick_start
    } else {
        0
    }
}

/// Whether the snap toward `target` is over after `elapsed`: whether more
/// time has passed than `flick_time * |target| / 180` degrees.
pub open spec fn flick_done(flick_time: int, target: int, elapsed: int) -> bool {
    elapsed * HALF_TURN > flick_time * abs(target)
}

/// How far the snap toward `target` has come after `elapsed`: the target
/// once the time for it has passed, and before that the angle reached at
/// half a turn per `flick_time`, in the direction of the target.
pub open spec fn flick_angle(flick_time: int, target: int, elapsed: int) -> int {
    if elapsed * HALF_TURN >= flick_time * abs(target) {
        target
    } else if target >= 0 {
        (elapsed * HALF_TURN) / flick_time
    } else {
        -((elapsed * HALF_TURN) / flick_time)
    }
}

/// The phase after the stick has been handled, and the angle by which the
/// view turns.
pub open spec fn flick_step(m: FlickStickModel, stick: Stick, heading: int, now: int) -> (
    FlickStickState,
    int,
) {
    if below_threshold(stick, m.threshold) {
        (FlickStickState::Center, 0)
    } else {
        match m.state {
            FlickStickState::Center => (
                FlickStickState::Flicking {
                    flick_start: now as u64,
                    last: 0,
                    target: normalized_signed(heading) as i64,
                },
                0,
            ),
            FlickStickState::Flicking { flick_start, last, target } => {
                let elapsed = flick_elapsed(flick_start as int, now);
                let current = flick_angle(m.flick_time, target as int, elapsed);
                let delta = normalized_signed(current - last);
                if flick_done(m.flick_time, target as int, elapsed) {
                    (FlickStickState::Rotating { old_rotation: current as i64 }, delta)
                } else {
                    (FlickStickState::Flicking { flick_start, last: current as i64, target }, delta)
                }
            },
            FlickStickState::Rotating { old_rotation } => {
                if m.do_rotate {
                    let angle = normalized_signed(heading);
                    (
                        FlickStickState::Rotating { old_rotation: angle as i64 },
                        normalized_signed(angle - old_rotation),
                    )
                } else {
                    (FlickStickState::Rotating { old_rotation }, 0)
                }
            },
        }
    }
}

/// The angles of a phase are in `(-180, 180]` degrees, and a snap has come
/// no further than its target.
pub open spec fn state_wf(state: FlickStickState) -> bool {
    match state {
        FlickStickState::Center => true,
        FlickStickState::Flicking { flick_start, last, target } => {
            &&& -HALF_TURN < target <= HALF_TURN
            &&& (0 <= last <= target || target <= last <= 0)
        },
        FlickStickState::Rotating { old_rotation } => -HALF_TURN < old_rotation <= HALF_TURN,
    }
}

/// A snap moves from zero toward its target and never past it, and it never
/// moves back as time goes on.
pub proof fn lemma_flick_angle_monotone(flick_time: int, target: int, early: int, late: int)
    requires
        0 <= flick_time,
        0 <= early <= late,
    ensures
        target >= 0 ==> 0 <= flick_angle(flick_time, target, early) <= flick_angle(
            flick_time,
            target,
            late,
        ) <= target,
        target <= 0 ==> target <= flick_angle(flick_time, target, late) <= flick_angle(
            flick_time,
            target,
            early,
        ) <= 0,
{
    let bound = flick_time * abs(target);
    let e = early * HALF_TURN;
    let l = late * HALF_TURN;
    assert(0 <= e <= l);
    assert(bound >= 0) by (nonlinear_arith)
        requires
            bound == flick_time * abs(target),
            flick_time >= 0,
            abs(target) >= 0,
    ;
    if e < bound {
        assert(flick_time > 0) by (nonlinear_arith)
            requires
                bound == flick_time * abs(target),
                bound > 0,
                flick_time >= 0,
        ;
        assert(0 <= e / flick_time <= abs(target)) by (nonlinear_arith)
            requires
                0 <= e < flick_time * abs(target),
                flick_time > 0,
        ;
        if l < bound {
            assert(e / flick_time <= l / flick_time <= abs(target)) by (nonlinear_arith)
                requires
                    0 <= e <= l,
                    l < flick_time * abs(target),
                    flick_time > 0,
            ;
        }
    }
}

/// What one handling reads: the stick, the heading that it points at and
/// the time.
pub struct FlickInput {
    /// The stick reading.
    pub stick: Stick,
    /// The direction in which the stick points, in millionths of a degree.
    pub heading: int,
    /// The time, in millionths of a second.
    pub now: int,
}

/// The phase after a sequence of handlings.
pub open spec fn run_state(m: FlickStickModel, inputs: Seq<FlickInput>) -> FlickStickState
    decreases inputs.len(),
{
    if inputs.len() == 0 {
        m.state
    } else {
        let before = FlickStickModel { state: run_state(m, inputs.drop_last()), ..m };
        flick_step(before, inputs.last().stick, inputs.last().heading, inputs.last().now).0
    }
}

/// The sum of the angles by which the view turned over a sequence of
/// handlings.
pub open spec fn run_turned(m: FlickStickModel, inputs: Seq<FlickInput>) -> int
    decreases inputs.len(),
{
    if inputs.len() == 0 {
        0
    } else {
        let before = FlickStickModel { state: run_state(m, inputs.drop_last()), ..m };
        run_turned(m, inputs.drop_last()) + flick_step(
            before,
            inputs.last().stick,
            inputs.last().heading,
            inputs.last().now,
        ).1
    }
}

/// The stick is held at `heading`: every input is at or above the threshold
/// and points at `heading`, the times fit the clock, and they never go back.
pub open spec fn held_at(m: FlickStickModel, inputs: Seq<FlickInput>, heading: int) -> bool {
    &&& forall|i: int|
        0 <= i < inputs.len() ==> {
            &&& !below_threshold((#[trigger] inputs[i]).stick, m.threshold)
            &&& inputs[i].heading == heading
            &&& 0 <= inputs[i].now <= u64::MAX
        }
    &&& forall|i: int, j: int|
        0 <= i <= j < inputs.len() ==> (#[trigger] inputs[i]).now <= (#[trigger] inputs[j]).now
}

/// The flick law: when a stick at rest is deflected to a heading and held
/// there, the angles by which the view turns add up to what the snap has
/// reached so far, and from the handling that ends the snap on they add up
/// to the heading, normalized to `(-180, 180]` degrees. The snap goes on
/// only as long as no more than `flick_time * |heading| / 180` degrees has
/// passed since the first handling.
pub proof fn lemma_flick_reaches_heading(m: FlickStickModel, inputs: Seq<FlickInput>, heading: int)
    requires
        m.state == FlickStickState::Center,
        0 <= m.flick_time,
        held_at(m, inputs, heading),
    ensures
        match run_state(m, inputs) {
            FlickStickState::Center => inputs.len() == 0 && run_turned(m, inputs) == 0,
            FlickStickState::Flicking { flick_start, last, target } => {
                &&& inputs.len() > 0
                &&& target == normalized_signed(heading)
                &&& run_turned(m, inputs) == last
                &&& flick_start == inputs[0].now
                &&& !flick_done(m.flick_time, target as int, inputs.last().now - inputs[0].now)
                &&& last == 0 || last == flick_angle(
                    m.flick_time,
                    target as int,
                    inputs.last().now - inputs[0].now,
                )
            },
            FlickStickState::Rotating { old_rotation } => {
                &&& inputs.len() > 0
                &&& old_rotation == normalized_signed(heading)
                &&& run_turned(m, inputs) == normalized_signed(heading)
            },
        },
    decreases inputs.len(),
{
    if inputs.len() > 0 {
        let earlier = inputs.drop_last();
        let input = inputs.last();
        assert(held_at(m, earlier, heading)) by {
            assert forall|i: int| 0 <= i < earlier.len() implies {
                &&& !below_threshold((#[trigger] earlier[i]).stick, m.threshold)
                &&& earlier[i].heading == heading
                &&& 0 <= earlier[i].now <= u64::MAX
            } by {
                assert(earlier[i] == inputs[i]);
            }
            assert forall|i: int, j: int| 0 <= i <= j < earlier.len() implies (
            #[trigger] earlier[i]).now <= (#[trigger] earlier[j]).now by {
                assert(earlier[i] == inputs[i]);
                assert(earlier[j] == inputs[j]);
            }
        }
        lemma_flick_reaches_heading(m, earlier, heading);
        let goal = normalized_signed(heading);
        assert(input == inputs[inputs.len() - 1]);
        assert(inputs[0].now <= input.now);
        match run_state(m, earlier) {
            FlickStickState::Center => {
                assert(0 * HALF_TURN <= m.flick_time * abs(goal)) by (nonlinear_arith)
                    requires
                        0 <= m.flick_time,
                        0 <= abs(goal),
                ;
            },
            FlickStickState::Flicking { flick_start, last, target } => {
                let previous = earlier.last();
                assert(previous == inputs[inputs.len() - 2]);
                assert(previous.now <= input.now);
                assert(earlier[0] == inputs[0]);
                let was = flick_elapsed(flick_start as int, previous.now);
                let elapsed = flick_elapsed(flick_start as int, input.now);
                lemma_flick_angle_monotone(m.flick_time, target as int, 0, was);
                lemma_flick_angle_monotone(m.flick_time, target as int, was, elapsed);
                lemma_flick_angle_monotone(m.flick_time, target as int, 0, elapsed);
            },
            FlickStickState::Rotating { old_rotation } => {},
        }
    }
}

/// A stick that snaps the view to where it points and then turns it.
#[derive(Clone, Copy, Debug, PartialEq, Eq, Structural)]
pub struct FlickStick {
    flick_time: u64,
    threshold: i32,
    state: FlickStickState,
    do_rotate: bool,
}

impl View for FlickStick {
    type V = FlickStickModel;

    closed spec fn view(&self) -> FlickStickModel {
        FlickStickModel {
            flick_time: self.flick_time as int,
            threshold: self.threshold as int,
            state: self.state,
            do_rotate: self.do_rotate,
        }
    }
}

/// How far a snap has come, and whether it is over.
fn flick_progress(flick_time: u64, target: i64, elapsed: u64) -> (r: (i64, bool))
    requires
        -HALF_TURN < target <= HALF_TURN,
    ensures
        r.0 == flick_angle(flick_time as int, target as int, elapsed as int),
        r.1 == flick_done(flick_time as int, target as int, elapsed as int),
        target >= 0 ==> 0 <= r.0 <= target,
        target <= 0 ==> target <= r.0 <= 0,
{
    let magnitude: u128 = if target >= 0 {
        target as u128
    } else {
        (-target) as u128
    };
    assert(elapsed * HALF_TURN <= 0xffff_ffff_ffff_ffff * 180_000_000) by (nonlinear_arith)
        requires
            0 <= elapsed <= 0xffff_ffff_ffff_ffff,
    ;
    assert(flick_time * magnitude <= 0xffff_ffff_ffff_ffff * 180_000_000) by (nonlinear_arith)
        requires
            0 <= flick_time <= 0xffff_ffff_ffff_ffff,
            0 <= magnitude <= 180_000_000,
    ;
    let covered: u128 = elapsed as u128 * 180_000_000;
    let needed: u128 = flick_time as u128 * magnitude;
    proof {
        lemma_flick_angle_monotone(flick_time as int, target as int, 0, elapsed as int);
    }
    if covered >= needed {
        (target, covered > needed)
    } else {
        assert(flick_time > 0) by (nonlinear_arith)
            requires
                needed == flick_time * magnitude,
                needed > 0,
                flick_time >= 0,
        ;
        let reached: u128 = covered / (flick_time as u128);
        if target >= 0 {
            (reached as i64, false)
        } else {
            (-(reached as i64), false)
        }
    }
}

impl FlickStick {
    /// The phase is well formed.
    pub open spec fn wf(&self) -> bool {
        state_wf(self@.state)
    }

    /// A stick at rest with the given tuning.
    pub fn new(flick_time: u64, threshold: i32, do_rotate: bool) -> (r: FlickStick)
        ensures
            r.wf(),
            r@ == (FlickStickModel {
                flick_time: flick_time as int,
                threshold: threshold as int,
                state: FlickStickState::Center,
                do_rotate,
            }),
    {
        FlickStick { flick_time, threshold, state: FlickStickState::Center, do_rotate }
    }

    /// The phase that the stick is in.
    pub fn state(&self) -> (r: FlickStickState)
        ensures
            r == self@.state,
    {
        self.state
    }

    /// Takes in one stick reading and returns the angle by which the view
    /// turns, in millionths of a degree. `heading` is the direction in which
    /// the stick points, measured from straight ahead, clockwise, in
    /// millionths of a degree; `now` is the time in millionths of a second.
    pub fn handle(&mut self, stick: Stick, heading: i64, now: u64) -> (turn: i64)
        requires
            old(self).wf(),
        ensures
            final(self).wf(),
            final(self)@ == (FlickStickModel {
                state: flick_step(old(self)@, stick, heading as int, now as int).0,
                ..old(self)@
            }),
            turn == flick_step(old(self)@, stick, heading as int, now as int).1,
            -HALF_TURN < turn <= HALF_TURN,
    {
        let threshold: i64 = self.threshold as i64;
        assert(0 <= threshold * threshold <= 0x4000_0000_0000_0000) by (nonlinear_arith)
            requires
                -0x8000_0000 <= threshold <= 0x8000_0000,
        ;
        if threshold > 0 && stick.magnitude2() < (threshold * threshold) as u64 {
            self.state = FlickStickState::Center;
            return 0;
        }
        match self.state {
            FlickStickState::Center => {
                self.state = FlickStickState::Flicking {
                    flick_start: now,
                    last: 0,
                    target: normalize_signed(heading),
                };
                0
            },
            FlickStickState::Flicking { flick_start, last, target } => {
                let elapsed: u64 = if now >= flick_start {
                    now - flick_start
                } else {
                    0
                };
                let progress: (i64, bool) = flick_progress(self.flick_time, target, elapsed);
                let delta: i64 = progress.0 - last;
                if progress.1 {
                    self.state = FlickStickState::Rotating { old_rotation: progress.0 };
                } else {
                    self.state = FlickStickState::Flicking {
                        flick_start,
                        last: progress.0,
                        target,
                    };
                }
                normalize_signed(delta)
            },
            FlickStickState::Rotating { old_rotation } => {
                if self.do_rotate {
                    let angle: i64 = normalize_signed(heading);
                    let delta: i64 = angle - old_rotation;
                    self.state = FlickStickState::Rotating { old_rotation: angle };
                    normalize_signed(delta)
                } else {
                    0
                }
            },
        }
    }
}

impl Default for FlickStick {
    /// A stick at rest with the default tuning: a tenth of a second for
    /// half a turn, threshold `0.6`, and the view follows the stick after
    /// the snap.
    fn default() -> (r: FlickStick)
        ensures
            r.wf(),
            r@ == (FlickStickModel {
                flick_time: DEFAULT_FLICK_TIME as int,
                threshold: DEFAULT_THRESHOLD as int,
                state: FlickStickState::Center,
                do_rotate: true,
            }),
    {
        FlickStick {
            flick_time: DEFAULT_FLICK_TIME,
            threshold: DEFAULT_THRESHOLD,
            state: FlickStickState::Center,
            do_rotate: true,
        }
    }
}

} // verus!
