//! A stick that moves the pointer: the velocity grows with the deflection,
//! and ramps up further while the stick is pinned to its edge.

use vstd::prelude::*;
use crate::fixed::{
    abs, is_sqrt_floor, lemma_round_div_bounds, lemma_square_monotone, lemma_trunc_div_between,
    lemma_trunc_div_monotone, round_div, trunc_div, ONE,
};
use crate::joystick::{
    amp_clamped, clamped_zone, lemma_dead_zone, lemma_fine_length, lemma_zone_ends, zone,
    DEFAULT_DEADZONE, DEFAULT_FULLZONE, ZONE_ONE,
};
use crate::vector::{Stick, Vector2, FINE};

verus! {

/// The number of output ticks per second that velocities are normalized to.
pub const TICK_RATE: i64 = 66;

/// The largest magnitude of a sensitivity, in millionths of a pixel per
/// second.
pub const SENSITIVITY_LIMIT: i64 = 1_000_000_000_000;

/// The largest acceleration, in millionths per second.
pub const ACCELERATION_LIMIT: i64 = 1_000_000_000_000;

/// The largest speed-up that the ramp can reach, in millionths.
pub const SPEED_LIMIT: i64 = 1_000_000_000;

/// The largest magnitude of the speed along the stick, on the fine scale.
pub const RATE_BOUND: i128 = 1_001_000_000_000_000_000_000;

/// The zone value `base` to the power `exp`, for a base in `[0, 1]`, on the
/// scale of zone values.
pub open spec fn pow_unit(base: int, exp: nat) -> int
    decreases exp,
{
    if exp == 0 {
        ZONE_ONE as int
    } else {
        trunc_div(pow_unit(base, (exp - 1) as nat) * base, ZONE_ONE as int)
    }
}

/// A power of a base in `[0, 1]` is in `[0, 1]`, and a positive power of
/// zero is zero.
pub proof fn lemma_pow_unit_range(base: int, exp: nat)
    requires
        0 <= base <= ZONE_ONE,
    ensures
        0 <= pow_unit(base, exp) <= ZONE_ONE,
        base == 0 && exp > 0 ==> pow_unit(base, exp) == 0,
    decreases exp,
{
    if exp > 0 {
        lemma_pow_unit_range(base, (exp - 1) as nat);
        let p = pow_unit(base, (exp - 1) as nat);
        assert(0 <= p * base <= ZONE_ONE * ZONE_ONE) by (nonlinear_arith)
            requires
                0 <= p <= ZONE_ONE,
                0 <= base <= ZONE_ONE,
        ;
        lemma_trunc_div_between(p * base, ZONE_ONE as int, 0, ZONE_ONE as int);
        if base == 0 {
            assert(p * base == 0) by (nonlinear_arith)
                requires
                    base == 0,
            ;
        }
    }
}

/// A larger base in `[0, 1]` never gives a smaller power.
pub proof fn lemma_pow_unit_monotone(low: int, high: int, exp: nat)
    requires
        0 <= low <= high <= ZONE_ONE,
    ensures
        pow_unit(low, exp) <= pow_unit(high, exp),
    decreases exp,
{
    if exp > 0 {
        lemma_pow_unit_monotone(low, high, (exp - 1) as nat);
        lemma_pow_unit_range(low, (exp - 1) as nat);
        lemma_pow_unit_range(high, (exp - 1) as nat);
        let p = pow_unit(low, (exp - 1) as nat);
        let q = pow_unit(high, (exp - 1) as nat);
        assert(p * low <= q * high) by (nonlinear_arith)
            requires
                0 <= p <= q,
                0 <= low <= high,
        ;
        lemma_trunc_div_monotone(p * low, q * high, ZONE_ONE as int);
    }
}

/// The response curve never falls: a longer deflection never gives a
/// smaller power of its zone value.
pub proof fn lemma_gain_monotone(shorter: int, longer: int, deadzone: int, fullzone: int, exp: nat)
    requires
        deadzone < fullzone,
        shorter <= longer,
    ensures
        pow_unit(amp_clamped(shorter, deadzone, fullzone), exp) <= pow_unit(
            amp_clamped(longer, deadzone, fullzone),
            exp,
        ),
{
    let width = (fullzone - deadzone) * FINE;
    assert((shorter - deadzone * FINE) * ZONE_ONE <= (longer - deadzone * FINE) * ZONE_ONE)
        by (nonlinear_arith)
        requires
            shorter <= longer,
    ;
    lemma_trunc_div_monotone(
        (shorter - deadzone * FINE) * ZONE_ONE,
        (longer - deadzone * FINE) * ZONE_ONE,
        width,
    );
    lemma_pow_unit_monotone(
        amp_clamped(shorter, deadzone, fullzone),
        amp_clamped(longer, deadzone, fullzone),
        exp,
    );
}

/// The mathematical content of a `CameraStick`.
pub struct CameraStickModel {
    /// Deflections up to this length give no velocity.
    pub deadzone: int,
    /// Deflections from this length on count as full.
    pub fullzone: int,
    /// The velocity at full deflection, in millionths of a pixel per second.
    pub sens_pps: int,
    /// The exponent of the response curve.
    pub exp: nat,
    /// How fast the speed-up grows while the stick is pinned to its edge, in
    /// millionths per second.
    pub acceleration: int,
    /// The largest speed-up.
    pub max_speed: int,
    /// The current speed-up.
    pub current_speed: int,
}

/// The speed-up after a reading of the fine length `amp`: one tick further
/// up the ramp, up to the maximum, while the stick is pinned to its edge,
/// that is while the zone value is at least one, and zero otherwise.
pub open spec fn next_speed(m: CameraStickModel, amp: int) -> int {
    if zone(amp, m.deadzone, m.fullzone) >= ZONE_ONE {
        let ramped = m.current_speed + trunc_div(m.acceleration, TICK_RATE as int);
        if ramped < m.max_speed {
            ramped
        } else {
            m.max_speed
        }
    } else {
        0
    }
}

/// The speed along the stick in pixels per second, on the fine scale:
/// `sens * (1 + speed) * gain`.
pub open spec fn gained_rate(sens: int, speed: int, gain: int) -> int {
    trunc_div(sens * (ONE + speed) * gain, ZONE_ONE as int)
}

/// One component of the velocity, in millionths of a pixel per tick: the
/// share `axis / amp` of the rate, spread over the ticks of a second and
/// rounded to the nearest millionth. `amp` is the fine length of the stick;
/// a stick without deflection gives no velocity.
pub open spec fn velocity_axis(rate: int, axis: int, amp: int) -> int {
    if amp == 0 {
        0
    } else {
        round_div(rate * axis, TICK_RATE * amp)
    }
}

/// The velocity that a reading gives at a given gain: the stick rescaled to
/// the length `gain` and multiplied by `sens / 66 * (1 + speed)`.
pub open spec fn velocity_at(m: CameraStickModel, stick: Stick, gain: int) -> (int, int) {
    let amp = stick.fine_norm();
    let rate = gained_rate(m.sens_pps, next_speed(m, amp), gain);
    (velocity_axis(rate, stick.x as int, amp), velocity_axis(rate, stick.y as int, amp))
}

/// The velocity that a reading gives: the stick rescaled to the length
/// `zone ^ exp` and multiplied by `sens / 66 * (1 + speed)`. Length, zone
/// and power are carried on scales so fine that what they lose does not
/// show in the result, which is rounded once.
pub open spec fn velocity(m: CameraStickModel, stick: Stick) -> (int, int) {
    velocity_at(
        m,
        stick,
        pow_unit(amp_clamped(stick.fine_norm(), m.deadzone, m.fullzone), m.exp),
    )
}

/// A stick that gives a pointer velocity.
#[derive(Clone, Copy, Debug, PartialEq, Eq, Structural)]
pub struct CameraStick {
    deadzone: i32,
    fullzone: i32,
    sens_pps: i64,
    exp: u8,
    acceleration: i64,
    max_speed: i64,
    current_speed: i64,
}

impl View for CameraStick {
    type V = CameraStickModel;

    closed spec fn view(&self) -> CameraStickModel {
        CameraStickModel {
            deadzone: self.deadzone as int,
            fullzone: self.fullzone as int,
            sens_pps: self.sens_pps as int,
            exp: self.exp as nat,
            acceleration: self.acceleration as int,
            max_speed: self.max_speed as int,
            current_speed: self.current_speed as int,
        }
    }
}

/// The tuning is one that a `CameraStick` accepts: the dead zone lies below
/// the full zone, and sensitivity, acceleration and maximal speed-up are
/// within their limits.
pub open spec fn tuning_ok(
    deadzone: int,
    fullzone: int,
    sens_pps: int,
    acceleration: int,
    max_speed: int,
) -> bool {
    &&& 0 <= deadzone < fullzone
    &&& abs(sens_pps) <= SENSITIVITY_LIMIT
    &&& 0 <= acceleration <= ACCELERATION_LIMIT
    &&& 0 <= max_speed <= SPEED_LIMIT
}

/// The zone value `base` to the power `exp`.
fn power(base: i64, exp: u8) -> (r: i64)
    requires
        0 <= base <= ZONE_ONE,
    ensures
        r == pow_unit(base as int, exp as nat),
        0 <= r <= ZONE_ONE,
{
    let mut r: i64 = ZONE_ONE;
    let mut i: u8 = 0;
    while i < exp
        invariant
            i <= exp,
            0 <= base <= ZONE_ONE,
            r == pow_unit(base as int, i as nat),
            0 <= r <= ZONE_ONE,
        decreases exp - i,
    {
        proof {
            lemma_pow_unit_range(base as int, (i + 1) as nat);
            assert(0 <= r * base <= ZONE_ONE * ZONE_ONE) by (nonlinear_arith)
                requires
                    0 <= r <= ZONE_ONE,
                    0 <= base <= ZONE_ONE,
            ;
        }
        r = ((r as i128 * base as i128) / (ZONE_ONE as i128)) as i64;
        i = i + 1;
    }
    r
}

/// The speed along the stick on the fine scale.
fn rate_of(sens: i64, speed: i64, gain: i64) -> (r: i128)
    requires
        abs(sens as int) <= SENSITIVITY_LIMIT,
        0 <= speed <= SPEED_LIMIT,
        0 <= gain <= ZONE_ONE,
    ensures
        r == gained_rate(sens as int, speed as int, gain as int),
        abs(r as int) <= RATE_BOUND,
        abs(r as int) <= abs(sens as int) * (ONE + speed),
        gain == 0 ==> r == 0,
{
    let boost: i128 = 1_000_000 + speed as i128;
    let wide_sens: i128 = sens as i128;
    let wide_gain: i128 = gain as i128;
    assert(-1_001_000_000_000_000_000_000 <= wide_sens * boost <= 1_001_000_000_000_000_000_000)
        by (nonlinear_arith)
        requires
            -1_000_000_000_000 <= wide_sens <= 1_000_000_000_000,
            0 <= boost <= 1_001_000_000,
    ;
    let full: i128 = wide_sens * boost;
    assert(-1_001_000_000_000_000_000_000 * 10_000_000_000_000_000 <= full * wide_gain
        <= 1_001_000_000_000_000_000_000 * 10_000_000_000_000_000) by (nonlinear_arith)
        requires
            -1_001_000_000_000_000_000_000 <= full <= 1_001_000_000_000_000_000_000,
            0 <= wide_gain <= 10_000_000_000_000_000,
    ;
    proof {
        lemma_trunc_div_between(
            full * wide_gain,
            ZONE_ONE as int,
            -1_001_000_000_000_000_000_000,
            1_001_000_000_000_000_000_000,
        );
        let most = abs(sens as int) * (ONE + speed);
        assert(-most * ZONE_ONE <= full * wide_gain <= most * ZONE_ONE) by (nonlinear_arith)
            requires
                full == wide_sens * boost,
                most == abs(wide_sens as int) * boost,
                boost >= 0,
                0 <= wide_gain <= ZONE_ONE,
        {
            assert(-most <= full <= most);
            assert(-most * wide_gain <= full * wide_gain <= most * wide_gain);
            assert(most * wide_gain <= most * ZONE_ONE);
        }
        lemma_trunc_div_between(full * wide_gain, ZONE_ONE as int, -most, most);
        if gain == 0 {
            assert(full * wide_gain == 0) by (nonlinear_arith)
                requires
                    wide_gain == 0,
            ;
        }
    }
    (full * wide_gain) / 10_000_000_000_000_000
}

/// One component of the velocity.
fn scale_axis(rate: i128, axis: i32, amp: u64) -> (r: i64)
    requires
        abs(rate as int) <= RATE_BOUND,
        abs(axis as int) * FINE <= amp,
    ensures
        r == velocity_axis(rate as int, axis as int, amp as int),
        rate == 0 ==> r == 0,
        132_000_000 * abs(r as int) <= 2 * abs(rate as int) + 66_000_000,
{
    if amp == 0 {
        return 0;
    }
    let wide_axis: i128 = axis as i128;
    let wide_amp: i128 = amp as i128;
    assert(-1_001_000_000_000_000_000_000 * 0x8000_0000 <= rate * wide_axis
        <= 1_001_000_000_000_000_000_000 * 0x8000_0000) by (nonlinear_arith)
        requires
            -1_001_000_000_000_000_000_000 <= rate <= 1_001_000_000_000_000_000_000,
            -0x8000_0000 <= wide_axis <= 0x8000_0000,
    ;
    let numerator: i128 = rate * wide_axis;
    let denominator: i128 = 66 * wide_amp;
    proof {
        assert(-16_000_000_000_000 * denominator <= numerator <= 16_000_000_000_000
            * denominator) by (nonlinear_arith)
            requires
                numerator == rate * wide_axis,
                denominator == 66 * wide_amp,
                -1_001_000_000_000_000_000_000 <= rate <= 1_001_000_000_000_000_000_000,
                -wide_amp <= wide_axis * 1_000_000 <= wide_amp,
                wide_amp > 0,
        {
            assert(-1_001_000_000_000_000_000_000 * wide_amp <= rate * (wide_axis * 1_000_000)
                <= 1_001_000_000_000_000_000_000 * wide_amp);
            assert(rate * (wide_axis * 1_000_000) == numerator * 1_000_000);
        }
        lemma_round_div_bounds(
            numerator as int,
            denominator as int,
            -16_000_000_000_000,
            16_000_000_000_000,
        );
        if rate == 0 {
            assert(numerator == 0) by (nonlinear_arith)
                requires
                    numerator == rate * wide_axis,
                    rate == 0,
            ;
        }
        let q = round_div(numerator as int, denominator as int);
        assert(132_000_000 * abs(q) <= 2 * abs(rate as int) + 66_000_000) by (nonlinear_arith)
            requires
                -denominator <= 2 * (q * denominator - numerator) <= denominator,
                numerator == rate * wide_axis,
                denominator == 66 * wide_amp,
                -wide_amp <= wide_axis * 1_000_000 <= wide_amp,
                wide_amp > 0,
        {
            let a = abs(numerator as int);
            let m = abs(rate as int);
            assert(a * 1_000_000 <= m * wide_amp);
            assert(2 * abs(q) * denominator <= 2 * a + denominator);
            assert(132_000_000 * abs(q) * wide_amp <= (2 * m + 66_000_000) * wide_amp);
        }
    }
    let r: i128 = if numerator >= 0 {
        (2 * numerator + denominator) / (2 * denominator)
    } else {
        -((2 * (-numerator) + denominator) / (2 * denominator))
    };
    r as i64
}

/// No component of a stick is longer than the stick.
proof fn lemma_axis_within(x: int, y: int, amp: int)
    requires
        is_sqrt_floor((x * x + y * y) * (FINE * FINE), amp),
    ensures
        abs(x) * FINE <= amp,
        abs(y) * FINE <= amp,
{
    let fx = abs(x) * FINE;
    let fy = abs(y) * FINE;
    assert(fx * fx <= (x * x + y * y) * (FINE * FINE)) by (nonlinear_arith)
        requires
            fx == abs(x) * FINE,
    ;
    assert(fy * fy <= (x * x + y * y) * (FINE * FINE)) by (nonlinear_arith)
        requires
            fy == abs(y) * FINE,
    ;
    if fx > amp + 1 {
        lemma_square_monotone(amp + 1, fx);
    }
    if fy > amp + 1 {
        lemma_square_monotone(amp + 1, fy);
    }
}

impl CameraStick {
    /// The tuning is acceptable and the speed-up is between zero and its
    /// maximum.
    pub open spec fn wf(&self) -> bool {
        &&& tuning_ok(
            self@.deadzone,
            self@.fullzone,
            self@.sens_pps,
            self@.acceleration,
            self@.max_speed,
        )
        &&& 0 <= self@.current_speed <= self@.max_speed
    }

    /// A stick with the given tuning and no speed-up, or `None` if the
    /// tuning is not acceptable.
    pub fn new(
        deadzone: i32,
        fullzone: i32,
        sens_pps: i64,
        exp: u8,
        acceleration: i64,
        max_speed: i64,
    ) -> (r: Option<CameraStick>)
        ensures
            r.is_some() <==> tuning_ok(
                deadzone as int,
                fullzone as int,
                sens_pps as int,
                acceleration as int,
                max_speed as int,
            ),
            r matches Some(stick) ==> stick.wf() && stick@ == (CameraStickModel {
                deadzone: deadzone as int,
                fullzone: fullzone as int,
                sens_pps: sens_pps as int,
                exp: exp as nat,
                acceleration: acceleration as int,
                max_speed: max_speed as int,
                current_speed: 0,
            }),
    {
        if 0 <= deadzone && deadzone < fullzone && -SENSITIVITY_LIMIT <= sens_pps && sens_pps
            <= SENSITIVITY_LIMIT && 0 <= acceleration && acceleration <= ACCELERATION_LIMIT && 0
            <= max_speed && max_speed <= SPEED_LIMIT {
            Some(
                CameraStick {
                    deadzone,
                    fullzone,
                    sens_pps,
                    exp,
                    acceleration,
                    max_speed,
                    current_speed: 0,
                },
            )
        } else {
            None
        }
    }

    /// The current speed-up, in millionths.
    pub fn current_speed(&self) -> (r: i64)
        ensures
            r == self@.current_speed,
    {
        self.current_speed
    }

    /// The clamped zone value of a reading: how far the stick has come from
    /// the dead zone to the full zone.
    pub fn zone_of(&self, stick: Stick) -> (r: i64)
        requires
            self.wf(),
        ensures
            r == amp_clamped(stick.fine_norm(), self@.deadzone, self@.fullzone),
            0 <= r <= ZONE_ONE,
            stick.norm_sq() < self@.deadzone * self@.deadzone ==> r == 0,
    {
        let amp: u64 = stick.magnitude_fine();
        proof {
            if stick.norm_sq() < self@.deadzone * self@.deadzone {
                lemma_dead_zone(stick.norm_sq(), amp as int, self@.deadzone, self@.fullzone);
            }
        }
        clamped_zone(amp, self.deadzone, self.fullzone)
    }

    /// Takes in one stick reading and returns the pointer velocity, in
    /// millionths of a pixel per tick.
    ///
    /// A stick inside the dead zone gives no velocity, for every exponent
    /// above zero, and no speed-up. Along each axis the velocity is never
    /// more than `sens / 66 * (1 + speed)`, but for half a millionth of
    /// rounding.
    pub fn handle(&mut self, stick: Stick) -> (out: Vector2)
        requires
            old(self).wf(),
        ensures
            final(self).wf(),
            final(self)@ == (CameraStickModel {
                current_speed: next_speed(old(self)@, stick.fine_norm()),
                ..old(self)@
            }),
            out.x == velocity(old(self)@, stick).0,
            out.y == velocity(old(self)@, stick).1,
            final(self)@.current_speed > 0 ==> stick.norm_sq() >= old(self)@.fullzone
                * old(self)@.fullzone,
            stick.norm_sq() < old(self)@.deadzone * old(self)@.deadzone ==> {
                &&& final(self)@.current_speed == 0
                &&& old(self)@.exp > 0 ==> out == (Vector2 { x: 0, y: 0 })
            },
            ({
                let most = abs(old(self)@.sens_pps) * (ONE + final(self)@.current_speed);
                &&& 2 * TICK_RATE * ONE * abs(out.x as int) <= 2 * most + TICK_RATE * ONE
                &&& 2 * TICK_RATE * ONE * abs(out.y as int) <= 2 * most + TICK_RATE * ONE
            }),
    {
        let zone: i64 = self.zone_of(stick);
        let gain: i64 = power(zone, self.exp);
        proof {
            lemma_pow_unit_range(0, self.exp as nat);
        }
        self.handle_with_gain(stick, gain)
    }

    /// Takes in one stick reading like `handle`, with the length that the
    /// stick is rescaled to given by the caller in place of the power of the
    /// zone value. `gain` is a zone value in `[0, 1]`; a caller with a
    /// response curve of its own takes the zone value from `zone_of`, and
    /// hands in what its curve makes of it.
    pub fn handle_with_gain(&mut self, stick: Stick, gain: i64) -> (out: Vector2)
        requires
            old(self).wf(),
            0 <= gain <= ZONE_ONE,
        ensures
            final(self).wf(),
            final(self)@ == (CameraStickModel {
                current_speed: next_speed(old(self)@, stick.fine_norm()),
                ..old(self)@
            }),
            out.x == velocity_at(old(self)@, stick, gain as int).0,
            out.y == velocity_at(old(self)@, stick, gain as int).1,
            final(self)@.current_speed > 0 ==> stick.norm_sq() >= old(self)@.fullzone
                * old(self)@.fullzone,
            stick.norm_sq() < old(self)@.deadzone * old(self)@.deadzone
                ==> final(self)@.current_speed == 0,
            gain == 0 ==> out == (Vector2 { x: 0, y: 0 }),
            ({
                let most = abs(old(self)@.sens_pps) * (ONE + final(self)@.current_speed);
                &&& 2 * TICK_RATE * ONE * abs(out.x as int) <= 2 * most + TICK_RATE * ONE
                &&& 2 * TICK_RATE * ONE * abs(out.y as int) <= 2 * most + TICK_RATE * ONE
            }),
    {
        let amp: u64 = stick.magnitude_fine();
        proof {
            lemma_zone_ends(amp as int, self@.deadzone, self@.fullzone);
            lemma_fine_length(stick.norm_sq(), amp as int, self@.fullzone);
            lemma_fine_length(stick.norm_sq(), amp as int, self@.deadzone);
        }
        if amp as i128 >= self.fullzone as i128 * 1_000_000 {
            let ramped: i64 = self.current_speed + self.acceleration / TICK_RATE;
            self.current_speed = if ramped < self.max_speed {
                ramped
            } else {
                self.max_speed
            };
        } else {
            self.current_speed = 0;
        }
        let rate: i128 = rate_of(self.sens_pps, self.current_speed, gain);
        proof {
            lemma_axis_within(stick.x as int, stick.y as int, amp as int);
        }
        let out = Vector2 { x: scale_axis(rate, stick.x, amp), y: scale_axis(rate, stick.y, amp) };
        proof {
            let most = abs(self@.sens_pps) * (ONE + self@.current_speed);
            assert(abs(rate as int) <= most);
            assert(2 * TICK_RATE * ONE * abs(out.x as int) == 132_000_000 * abs(out.x as int));
            assert(2 * TICK_RATE * ONE * abs(out.y as int) == 132_000_000 * abs(out.y as int));
        }
        out
    }
}

impl Default for CameraStick {
    /// A stick with the default tuning: dead zone `0.15`, full zone `0.9`,
    /// 1000 pixels per second, exponent 2, no acceleration, and a speed-up
    /// of at most 10.
    fn default() -> (r: CameraStick)
        ensures
            r.wf(),
            r@ == (CameraStickModel {
                deadzone: DEFAULT_DEADZONE as int,
                fullzone: DEFAULT_FULLZONE as int,
                sens_pps: 1_000_000_000,
                exp: 2,
                acceleration: 0,
                max_speed: 10_000_000,
                current_speed: 0,
            }),
    {
        CameraStick {
            deadzone: DEFAULT_DEADZONE,
            fullzone: DEFAULT_FULLZONE,
            sens_pps: 1_000_000_000,
            exp: 2,
            acceleration: 0,
            max_speed: 10_000_000,
            current_speed: 0,
        }
    }
}

} // verus!
