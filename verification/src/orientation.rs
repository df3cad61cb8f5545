//! The orientation estimator: a one-state complementary filter that blends an
//! integrated angular rate with an accelerometer leveling angle into a roll
//! angle that does not drift.

use vstd::prelude::*;
use crate::angle::{HALF_TURN, RATE_LIMIT};
use vstd::arithmetic::power::{lemma_pow_positive, pow};
use crate::fixed::{abs, lemma_trunc_div_between, lemma_trunc_div_error, trunc_div, ONE};

verus! {

/// The number of inertial samples per second; one sample lasts a 200th of a
/// second.
pub const SAMPLES_PER_SECOND: i64 = 200;

/// The largest magnitude that the estimated angle can reach, in millionths
/// of a degree.
pub const ANGLE_LIMIT: i64 = 5_000_000_000_000_000;

/// The filter weight of the default tuning, `0.95`.
pub const DEFAULT_ALPHA: i64 = 950_000;

/// The angle after one sample: `(angle - rate * dt) * alpha + level * (1 -
/// alpha)`, with `dt` one sample interval, rounded once toward zero.
pub open spec fn blend(angle: int, rate: int, level: int, alpha: int) -> int {
    trunc_div(
        (SAMPLES_PER_SECOND * angle - rate) * alpha + SAMPLES_PER_SECOND * level * (ONE - alpha),
        SAMPLES_PER_SECOND * ONE,
    )
}

/// The angle after `n` samples with no rotation and a constant leveling
/// angle.
pub open spec fn settle(angle: int, level: int, alpha: int, n: nat) -> int
    decreases n,
{
    if n == 0 {
        angle
    } else {
        blend(settle(angle, level, alpha, (n - 1) as nat), 0, level, alpha)
    }
}

/// One sample with bounded inputs keeps a bounded angle bounded.
pub proof fn lemma_blend_bounded(angle: int, rate: int, level: int, alpha: int)
    requires
        abs(angle) <= ANGLE_LIMIT,
        abs(rate) <= RATE_LIMIT,
        abs(level) <= HALF_TURN,
        0 <= alpha < ONE,
    ensures
        abs(blend(angle, rate, level, alpha)) <= ANGLE_LIMIT,
{
    let n = (200 * angle - rate) * alpha + 200 * level * (1_000_000 - alpha);
    let t = 1_000_000 - alpha;
    assert(-5_000_000_000_000_000 * 200_000_000 <= n <= 5_000_000_000_000_000 * 200_000_000)
        by (nonlinear_arith)
        requires
            n == (200 * angle - rate) * alpha + 200 * level * t,
            t == 1_000_000 - alpha,
            1 <= t <= 1_000_000,
            -5_000_000_000_000_000 <= angle <= 5_000_000_000_000_000,
            -1_000_000_000_000 <= rate <= 1_000_000_000_000,
            -180_000_000 <= level <= 180_000_000,
    {
        let hi = 200 * 5_000_000_000_000_000 + 1_000_000_000_000;
        assert((200 * angle - rate) * alpha <= hi * alpha);
        assert((200 * angle - rate) * alpha >= -hi * alpha);
        assert(200 * level * t <= 200 * 180_000_000 * t);
        assert(200 * level * t >= -200 * 180_000_000 * t);
        assert(hi * alpha + 200 * 180_000_000 * t == hi * 1_000_000 - (hi - 36_000_000_000) * t);
        assert((hi - 36_000_000_000) * t >= hi - 36_000_000_000);
    }
    lemma_trunc_div_between(
        n,
        200_000_000,
        -5_000_000_000_000_000,
        5_000_000_000_000_000,
    );
}

/// With no rotation, one sample moves the angle toward the leveling angle
/// and never past it; while the angle is further than `1 / (1 - alpha)`
/// millionths of a degree away, it moves by at least one millionth; and what
/// is left of the distance is the fraction `alpha` of it, but for rounding.
pub proof fn lemma_blend_approaches(angle: int, level: int, alpha: int)
    requires
        0 <= alpha < ONE,
    ensures
        angle >= level ==> level <= blend(angle, 0, level, alpha) <= angle,
        angle <= level ==> angle <= blend(angle, 0, level, alpha) <= level,
        abs(angle - level) * (ONE - alpha) >= ONE ==> abs(blend(angle, 0, level, alpha) - level)
            < abs(angle - level),
        abs(blend(angle, 0, level, alpha) - level) * ONE <= abs(angle - level) * alpha + ONE,
{
    let t = 1_000_000 - alpha;
    let n = (200 * angle - 0) * alpha + 200 * level * (1_000_000 - alpha);
    assert(n == 200_000_000 * angle - 200 * ((angle - level) * t)) by (nonlinear_arith)
        requires
            n == (200 * angle - 0) * alpha + 200 * level * t,
            t == 1_000_000 - alpha,
    ;
    assert(n == 200_000_000 * level + 200 * ((angle - level) * alpha)) by (nonlinear_arith)
        requires
            n == (200 * angle - 0) * alpha + 200 * level * t,
            t == 1_000_000 - alpha,
    ;
    if angle >= level {
        assert((angle - level) * t >= 0) by (nonlinear_arith)
            requires
                angle - level >= 0,
                t >= 0,
        ;
        assert((angle - level) * alpha >= 0) by (nonlinear_arith)
            requires
                angle - level >= 0,
                alpha >= 0,
        ;
        lemma_trunc_div_between(n, 200_000_000, level, angle);
        if (angle - level) * t >= 1_000_000 {
            lemma_trunc_div_between(n, 200_000_000, level, angle - 1);
        }
        lemma_trunc_div_error(n, 200_000_000);
        let after = blend(angle, 0, level, alpha);
        assert(after == trunc_div(n, 200_000_000));
        assert(abs(angle - level) * alpha == (angle - level) * alpha);
        assert(after * 200_000_000 < n + 200_000_000);
        assert((after - level) * ONE <= (angle - level) * alpha + ONE);
    } else {
        assert((angle - level) * t <= 0) by (nonlinear_arith)
            requires
                angle - level <= 0,
                t >= 0,
        ;
        assert((angle - level) * alpha <= 0) by (nonlinear_arith)
            requires
                angle - level <= 0,
                alpha >= 0,
        ;
        lemma_trunc_div_between(n, 200_000_000, angle, level);
        assert((level - angle) * t == -((angle - level) * t)) by (nonlinear_arith);
        if (level - angle) * t >= 1_000_000 {
            lemma_trunc_div_between(n, 200_000_000, angle + 1, level);
        }
        lemma_trunc_div_error(n, 200_000_000);
        let after = blend(angle, 0, level, alpha);
        assert(after == trunc_div(n, 200_000_000));
        assert(abs(angle - level) * alpha == -((angle - level) * alpha)) by (nonlinear_arith)
            requires
                angle < level,
        ;
        assert(after * 200_000_000 > n - 200_000_000);
        assert((level - after) * ONE <= -((angle - level) * alpha) + ONE);
    }
}

/// The estimator converges: with no rotation and a constant leveling angle,
/// from any initial angle, after `n` samples the angle is either within
/// `1 / (1 - alpha)` millionths of a degree of the leveling angle or at least
/// `n` millionths closer to it than it started, and it never moves away.
pub proof fn lemma_settles(angle: int, level: int, alpha: int, n: nat)
    requires
        0 <= alpha < ONE,
    ensures
        abs(settle(angle, level, alpha, n) - level) <= abs(angle - level),
        abs(settle(angle, level, alpha, n) - level) * (ONE - alpha) < ONE || abs(
            settle(angle, level, alpha, n) - level,
        ) <= abs(angle - level) - n,
    decreases n,
{
    if n > 0 {
        let before = settle(angle, level, alpha, (n - 1) as nat);
        lemma_settles(angle, level, alpha, (n - 1) as nat);
        lemma_blend_approaches(before, level, alpha);
        let after = blend(before, 0, level, alpha);
        if abs(before - level) * (ONE - alpha) < ONE {
            assert(abs(after - level) * (ONE - alpha) <= abs(before - level) * (ONE - alpha))
                by (nonlinear_arith)
                requires
                    0 <= abs(after - level) <= abs(before - level),
                    ONE - alpha > 0,
            ;
        }
    }
}

/// The estimator converges geometrically: with no rotation and a constant
/// leveling angle, the distance to the leveling angle after `n` samples is
/// at most `alpha` to the power `n` times the distance at the start, plus
/// `1 / (1 - alpha)` millionths of a degree for rounding.
pub proof fn lemma_settles_geometrically(angle: int, level: int, alpha: int, n: nat)
    requires
        0 <= alpha < ONE,
    ensures
        abs(settle(angle, level, alpha, n) - level) * pow(ONE as int, n) * (ONE - alpha) <= abs(
            angle - level,
        ) * pow(alpha, n) * (ONE - alpha) + pow(ONE as int, n) * ONE,
    decreases n,
{
    reveal(pow);
    let one = ONE as int;
    if n == 0 {
        assert(pow(one, 0) == 1 && pow(alpha, 0) == 1);
        assert(abs(angle - level) * 1 * (one - alpha) <= abs(angle - level) * 1 * (one - alpha) + 1
            * one) by (nonlinear_arith)
            requires
                one > 0,
        ;
    } else {
        let m = (n - 1) as nat;
        let before = abs(settle(angle, level, alpha, m) - level);
        let after = abs(settle(angle, level, alpha, n) - level);
        let start = abs(angle - level);
        lemma_settles_geometrically(angle, level, alpha, m);
        lemma_blend_approaches(settle(angle, level, alpha, m), level, alpha);
        let om = pow(one, m);
        let am = pow(alpha, m);
        lemma_pow_positive(one, m);
        assert(pow(one, n) == one * om);
        assert(pow(alpha, n) == alpha * am);
        assert(after * (one * om) * (one - alpha) <= start * (alpha * am) * (one - alpha) + (one
            * om) * one) by (nonlinear_arith)
            requires
                after * one <= before * alpha + one,
                before * om * (one - alpha) <= start * am * (one - alpha) + om * one,
                om > 0,
                0 <= alpha < one,
                after >= 0,
                before >= 0,
        {
            let t = one - alpha;
            assert(after * one * (om * t) <= (before * alpha + one) * (om * t));
            assert((before * alpha + one) * (om * t) == alpha * (before * om * t) + one * om * t);
            assert(alpha * (before * om * t) <= alpha * (start * am * t + om * one));
            assert(alpha * (start * am * t + om * one) + one * om * t == start * (alpha * am) * t
                + (one * om) * one);
            assert(after * (one * om) * t == after * one * (om * t));
        }
    }
}

/// The mathematical state of the estimator.
pub struct OrientationModel {
    /// The estimated roll angle, in millionths of a degree.
    pub angle: int,
    /// The weight of the integrated rate against the leveling angle, in
    /// millionths.
    pub alpha: int,
}

/// The orientation estimator.
#[derive(Clone, Copy, Debug, PartialEq, Eq, Structural)]
pub struct Orientation {
    angle: i64,
    alpha: i64,
}

impl View for Orientation {
    type V = OrientationModel;

    closed spec fn view(&self) -> OrientationModel {
        OrientationModel { angle: self.angle as int, alpha: self.alpha as int }
    }
}

impl Orientation {
    /// The weight lies in `[0, 1)` and the angle within `ANGLE_LIMIT`.
    pub open spec fn wf(&self) -> bool {
        &&& 0 <= self@.alpha < ONE
        &&& abs(self@.angle) <= ANGLE_LIMIT
    }

    /// An estimator at angle zero with the given weight, or `None` if the
    /// weight is outside `[0, 1)`.
    pub fn new(alpha: i64) -> (r: Option<Orientation>)
        ensures
            r.is_some() <==> 0 <= alpha < ONE,
            r matches Some(o) ==> o.wf() && o@ == (OrientationModel {
                angle: 0,
                alpha: alpha as int,
            }),
    {
        Orientation::with_angle(0, alpha)
    }

    /// An estimator at the given angle with the given weight, or `None` if
    /// the weight is outside `[0, 1)` or the angle beyond `ANGLE_LIMIT`.
    pub fn with_angle(angle: i64, alpha: i64) -> (r: Option<Orientation>)
        ensures
            r.is_some() <==> 0 <= alpha < ONE && abs(angle as int) <= ANGLE_LIMIT,
            r matches Some(o) ==> o.wf() && o@ == (OrientationModel {
                angle: angle as int,
                alpha: alpha as int,
            }),
    {
        if 0 <= alpha && alpha < ONE && -ANGLE_LIMIT <= angle && angle <= ANGLE_LIMIT {
            Some(Orientation { angle, alpha })
        } else {
            None
        }
    }

    /// The estimated roll angle, in millionths of a degree.
    pub fn angle(&self) -> (r: i64)
        ensures
            r == self@.angle,
    {
        self.angle
    }

    /// The filter weight, in millionths.
    pub fn alpha(&self) -> (r: i64)
        ensures
            r == self@.alpha,
    {
        self.alpha
    }

    /// Whether a rate and a leveling angle are within what `update` accepts.
    pub fn accepts(rate: i64, level: i64) -> (r: bool)
        ensures
            r == (abs(rate as int) <= RATE_LIMIT && abs(level as int) <= HALF_TURN),
    {
        -RATE_LIMIT <= rate && rate <= RATE_LIMIT && -HALF_TURN <= level && level <= HALF_TURN
    }

    /// Takes in one inertial sample: `rate` is the angular rate about the x
    /// axis in millionths of a degree per second, `level` the leveling angle
    /// that the accelerometer gives, in millionths of a degree.
    pub fn update(&mut self, rate: i64, level: i64)
        requires
            old(self).wf(),
            abs(rate as int) <= RATE_LIMIT,
            abs(level as int) <= HALF_TURN,
        ensures
            final(self).wf(),
            final(self)@.alpha == old(self)@.alpha,
            final(self)@.angle == blend(
                old(self)@.angle,
                rate as int,
                level as int,
                old(self)@.alpha,
            ),
    {
        let alpha: i128 = self.alpha as i128;
        let integrated: i128 = 200 * (self.angle as i128) - rate as i128;
        let leveling: i128 = 200 * (level as i128);
        proof {
            assert(-1_000_001_000_000_000_000 * 1_000_000 <= integrated * alpha
                <= 1_000_001_000_000_000_000 * 1_000_000) by (nonlinear_arith)
                requires
                    -1_000_001_000_000_000_000 <= integrated <= 1_000_001_000_000_000_000,
                    0 <= alpha <= 1_000_000,
            ;
            assert(-36_000_000_000 * 1_000_000 <= leveling * (1_000_000 - alpha) <= 36_000_000_000
                * 1_000_000) by (nonlinear_arith)
                requires
                    -36_000_000_000 <= leveling <= 36_000_000_000,
                    0 <= 1_000_000 - alpha <= 1_000_000,
            ;
            lemma_blend_bounded(self.angle as int, rate as int, level as int, self.alpha as int);
        }
        let numerator: i128 = integrated * alpha + leveling * (1_000_000 - alpha);
        self.angle = (numerator / 200_000_000) as i64;
    }
}

impl Default for Orientation {
    /// An estimator at angle zero with the reference weight `0.95`.
    fn default() -> (r: Orientation)
        ensures
            r.wf(),
            r@ == (OrientationModel { angle: 0, alpha: DEFAULT_ALPHA as int }),
    {
        Orientation { angle: 0, alpha: DEFAULT_ALPHA }
    }
}

} // verus!
