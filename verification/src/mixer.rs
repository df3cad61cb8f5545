//! The motion mixer: turns stick deflection and angular rate into integer
//! pointer and scroll deltas, once per output tick.
//!
//! Every output axis is a leaky integrator over the stick input, plus the
//! rotation-derived motion, plus the fraction that the previous tick could not
//! emit. Only whole units leave the mixer; the fraction is carried, so the
//! emitted total never strays from the continuous total by more than one unit.

use vstd::prelude::*;
use crate::angle::RATE_LIMIT;
use crate::fixed::{
    abs, lemma_round_units_remainder, lemma_trunc_div_between, round_to_units, round_units,
    trunc_div, ONE,
};
use crate::vector::Stick;

verus! {

/// The largest magnitude of a scaled stick input to one axis.
pub const INPUT_LIMIT: i64 = 4_000_000_000_000;

/// The largest magnitude of a motion contribution to one axis.
pub const MOTION_LIMIT: i64 = 4_000_000_000_000_000_000;

/// The largest magnitude that an axis velocity can reach.
pub const VELOCITY_LIMIT: i64 = 4_000_000_000_000_000_000;

/// The largest number of whole units that one axis can emit in a tick.
pub const EMITTED_LIMIT: i64 = 8_000_000_000_001;

/// The largest gain that a channel accepts, `1000.0`.
pub const GAIN_LIMIT: i64 = 1_000_000_000;

/// A reading with everything below the threshold replaced by zero.
pub open spec fn dead_zoned(value: int, threshold: int) -> int {
    if abs(value) < threshold {
        0
    } else {
        value
    }
}

/// The velocity of a leaky integrator after one more input.
pub open spec fn leak(velocity: int, input: int, decay: int) -> int {
    trunc_div((velocity + input) * decay, ONE as int)
}

/// The mathematical state of one output axis.
pub struct AxisModel {
    /// Leaky-integrator velocity, in millionths of a unit per tick.
    pub velocity: int,
    /// The displacement not yet emitted, in millionths of a unit.
    pub remainder: int,
}

/// What one tick feeds into an axis.
pub struct AxisTick {
    /// The scaled, dead-zoned stick input.
    pub input: int,
    /// The motion contribution.
    pub motion: int,
}

/// The continuous displacement that a tick adds, before the carried fraction.
pub open spec fn tick_displacement(s: AxisModel, t: AxisTick, decay: int) -> int {
    leak(s.velocity, t.input, decay) + t.motion
}

/// The whole units that a tick emits.
pub open spec fn tick_emitted(s: AxisModel, t: AxisTick, decay: int) -> int {
    round_units(tick_displacement(s, t, decay) + s.remainder)
}

/// The axis after a tick.
pub open spec fn tick_next(s: AxisModel, t: AxisTick, decay: int) -> AxisModel {
    AxisModel {
        velocity: leak(s.velocity, t.input, decay),
        remainder: tick_displacement(s, t, decay) + s.remainder - tick_emitted(s, t, decay)
            * ONE,
    }
}

/// The axis after a sequence of ticks.
pub open spec fn run_state(s: AxisModel, ticks: Seq<AxisTick>, decay: int) -> AxisModel
    decreases ticks.len(),
{
    if ticks.len() == 0 {
        s
    } else {
        tick_next(run_state(s, ticks.drop_last(), decay), ticks.last(), decay)
    }
}

/// The sum of the whole units emitted over a sequence of ticks.
pub open spec fn run_emitted(s: AxisModel, ticks: Seq<AxisTick>, decay: int) -> int
    decreases ticks.len(),
{
    if ticks.len() == 0 {
        0
    } else {
        run_emitted(s, ticks.drop_last(), decay) + tick_emitted(
            run_state(s, ticks.drop_last(), decay),
            ticks.last(),
            decay,
        )
    }
}

/// The continuous displacement accumulated over a sequence of ticks, in
/// millionths of a unit.
pub open spec fn run_displacement(s: AxisModel, ticks: Seq<AxisTick>, decay: int) -> int
    decreases ticks.len(),
{
    if ticks.len() == 0 {
        0
    } else {
        run_displacement(s, ticks.drop_last(), decay) + tick_displacement(
            run_state(s, ticks.drop_last(), decay),
            ticks.last(),
            decay,
        )
    }
}

/// Over any sequence of ticks, what was emitted and what is still carried add
/// up to the continuous displacement plus what was carried at the start.
pub proof fn lemma_run_conserves(s: AxisModel, ticks: Seq<AxisTick>, decay: int)
    ensures
        run_emitted(s, ticks, decay) * ONE + run_state(s, ticks, decay).remainder
            == run_displacement(s, ticks, decay) + s.remainder,
        ticks.len() > 0 ==> abs(run_state(s, ticks, decay).remainder) <= 500_000,
    decreases ticks.len(),
{
    if ticks.len() > 0 {
        let before = run_state(s, ticks.drop_last(), decay);
        lemma_run_conserves(s, ticks.drop_last(), decay);
        lemma_round_units_remainder(
            tick_displacement(before, ticks.last(), decay) + before.remainder,
        );
    }
}

/// The residual law: over any sequence of ticks the emitted whole units stay
/// within one unit of the continuous cumulative displacement, provided the
/// axis started with at most half a unit carried.
pub proof fn lemma_residual_bounded(s: AxisModel, ticks: Seq<AxisTick>, decay: int)
    requires
        abs(s.remainder) <= 500_000,
    ensures
        abs(run_emitted(s, ticks, decay) * ONE - run_displacement(s, ticks, decay)) <= ONE,
        s.remainder == 0 ==> 2 * abs(
            run_emitted(s, ticks, decay) * ONE - run_displacement(s, ticks, decay),
        ) <= ONE,
{
    lemma_run_conserves(s, ticks, decay);
}

/// With a constant non-negative input and no motion, a velocity at or below
/// the steady state `input * decay / (1 - decay)` rises monotonically and
/// never overshoots it.
pub proof fn lemma_leak_monotone(velocity: int, input: int, decay: int)
    requires
        0 <= decay < ONE,
        0 <= input,
        0 <= velocity,
        velocity * (ONE - decay) <= input * decay,
    ensures
        velocity <= leak(velocity, input, decay),
        leak(velocity, input, decay) * (ONE - decay) <= input * decay,
{
    let next = leak(velocity, input, decay);
    let n = (velocity + input) * decay;
    assert(n >= 0) by (nonlinear_arith)
        requires
            velocity + input >= 0,
            decay >= 0,
            n == (velocity + input) * decay,
    ;
    assert(n >= velocity * ONE) by (nonlinear_arith)
        requires
            n == (velocity + input) * decay,
            velocity * (ONE - decay) <= input * decay,
    ;
    lemma_trunc_div_between(n, ONE as int, velocity, n);
    assert(next * ONE <= n);
    assert(next * (ONE - decay) <= input * decay) by (nonlinear_arith)
        requires
            next * ONE <= n,
            n == (velocity + input) * decay,
            velocity * (ONE - decay) <= input * decay,
            0 <= decay < ONE,
            0 <= next,
    {
        assert(next * ONE * (ONE - decay) <= (velocity + input) * decay * (ONE - decay));
        assert((velocity + input) * decay * (ONE - decay) == decay * (velocity * (ONE - decay))
            + decay * (input * (ONE - decay)));
        assert(decay * (velocity * (ONE - decay)) <= decay * (input * decay));
        assert(decay * (input * decay) + decay * (input * (ONE - decay)) == input * decay * ONE);
        assert(next * (ONE - decay) * ONE <= input * decay * ONE);
    }
}

/// The velocity after `n` ticks of a constant input, from rest.
pub open spec fn ramp(input: int, decay: int, n: nat) -> int
    decreases n,
{
    if n == 0 {
        0
    } else {
        leak(ramp(input, decay, (n - 1) as nat), input, decay)
    }
}

/// Under a constant non-negative input the velocity converges
/// monotonically: from rest it rises tick by tick, never falls, and never
/// passes the steady state `input * decay / (1 - decay)`.
pub proof fn lemma_ramp_converges(input: int, decay: int, n: nat)
    requires
        0 <= decay < ONE,
        0 <= input,
    ensures
        0 <= ramp(input, decay, n) <= ramp(input, decay, n + 1),
        ramp(input, decay, n) * (ONE - decay) <= input * decay,
    decreases n,
{
    if n == 0 {
        assert(0 <= input * decay) by (nonlinear_arith)
            requires
                0 <= input,
                0 <= decay,
        ;
    } else {
        lemma_ramp_converges(input, decay, (n - 1) as nat);
        lemma_leak_monotone(ramp(input, decay, (n - 1) as nat), input, decay);
    }
    lemma_leak_monotone(ramp(input, decay, n), input, decay);
}

/// One output axis: a leaky-integrator velocity and the carried fraction.
#[derive(Clone, Copy, Debug, PartialEq, Eq, Structural)]
pub struct Axis {
    velocity: i64,
    remainder: i64,
}

impl View for Axis {
    type V = AxisModel;

    closed spec fn view(&self) -> AxisModel {
        AxisModel { velocity: self.velocity as int, remainder: self.remainder as int }
    }
}

impl Axis {
    /// The velocity is within its limit and at most half a unit is carried.
    pub open spec fn wf(&self) -> bool {
        &&& abs(self@.velocity) <= VELOCITY_LIMIT
        &&& abs(self@.remainder) <= 500_000
    }

    /// An axis at rest with nothing carried.
    pub fn new() -> (r: Axis)
        ensures
            r.wf(),
            r@ == (AxisModel { velocity: 0, remainder: 0 }),
    {
        Axis { velocity: 0, remainder: 0 }
    }

    /// The current velocity, in millionths of a unit per tick.
    pub fn velocity(&self) -> (r: i64)
        ensures
            r == self@.velocity,
    {
        self.velocity
    }

    /// The carried fraction, in millionths of a unit.
    pub fn remainder(&self) -> (r: i64)
        ensures
            r == self@.remainder,
    {
        self.remainder
    }

    /// Brings the axis to rest and drops the carried fraction.
    pub fn reset(&mut self)
        ensures
            final(self).wf(),
            final(self)@ == (AxisModel { velocity: 0, remainder: 0 }),
    {
        self.velocity = 0;
        self.remainder = 0;
    }

    /// Advances the axis by one tick and returns the whole units to emit.
    ///
    /// The velocity becomes `(velocity + input) * decay`; the displacement of
    /// this tick is that velocity plus `motion` plus the carried fraction; the
    /// displacement rounded to the nearest whole unit is emitted and the rest
    /// is carried on.
    pub fn step(&mut self, input: i64, motion: i64, decay: i64) -> (emitted: i64)
        requires
            old(self).wf(),
            0 < decay < ONE,
            abs(input as int) <= INPUT_LIMIT,
            abs(motion as int) <= MOTION_LIMIT,
        ensures
            final(self).wf(),
            final(self)@ == tick_next(
                old(self)@,
                AxisTick { input: input as int, motion: motion as int },
                decay as int,
            ),
            emitted == tick_emitted(
                old(self)@,
                AxisTick { input: input as int, motion: motion as int },
                decay as int,
            ),
            abs(emitted as int) <= EMITTED_LIMIT,
    {
        let sum: i128 = (self.velocity + input) as i128;
        let wide_decay: i128 = decay as i128;
        proof {
            assert(-4_000_004_000_000_000_000 * 1_000_000 <= sum * wide_decay
                <= 4_000_004_000_000_000_000 * 1_000_000) by (nonlinear_arith)
                requires
                    -4_000_004_000_000_000_000 <= sum <= 4_000_004_000_000_000_000,
                    0 < wide_decay < 1_000_000,
            ;
            assert(-4_000_000_000_000_000_000 * 1_000_000 <= sum * wide_decay
                <= 4_000_000_000_000_000_000 * 1_000_000) by (nonlinear_arith)
                requires
                    -4_000_004_000_000_000_000 <= sum <= 4_000_004_000_000_000_000,
                    0 < wide_decay <= 999_999,
            ;
            lemma_trunc_div_between(
                sum * wide_decay,
                ONE as int,
                -4_000_000_000_000_000_000,
                4_000_000_000_000_000_000,
            );
        }
        let velocity: i128 = (sum * wide_decay) / 1_000_000;
        let displacement: i64 = (velocity + motion as i128 + self.remainder as i128) as i64;
        let emitted: i64 = round_to_units(displacement);
        proof {
            lemma_round_units_remainder(displacement as int);
        }
        self.velocity = velocity as i64;
        self.remainder = displacement - emitted * 1_000_000;
        emitted
    }
}

/// What an output channel drives.
#[derive(Clone, Copy, Debug, PartialEq, Eq, Structural)]
pub enum Role {
    /// The channel moves the pointer.
    Pointer,
    /// The channel scrolls.
    Scroll,
}

/// The two output channels, named after the stick that feeds each.
#[derive(Clone, Copy, Debug, PartialEq, Eq, Structural)]
pub enum Side {
    /// The channel fed by the left stick.
    Left,
    /// The channel fed by the right stick.
    Right,
}

/// The tuning of one output channel.
#[derive(Clone, Copy, Debug, PartialEq, Eq, Structural)]
pub struct ChannelConfig {
    /// Multiplier applied to the dead-zoned stick reading, in millionths.
    pub stick_gain: i64,
    /// Multiplier applied to the rotated angular rate, in millionths.
    pub motion_gain: i64,
    /// Stick readings smaller than this count as zero.
    pub stick_dead_zone: i32,
    /// The fraction of the velocity that survives a tick, in millionths.
    pub decay: i64,
}

impl ChannelConfig {
    /// The gains are within `GAIN_LIMIT` and the decay lies strictly between
    /// zero and one.
    pub open spec fn wf(&self) -> bool {
        &&& abs(self.stick_gain as int) <= GAIN_LIMIT
        &&& abs(self.motion_gain as int) <= GAIN_LIMIT
        &&& 0 < self.decay < ONE
    }

    /// Whether the tuning is well formed.
    pub fn is_valid(&self) -> (r: bool)
        ensures
            r == self.wf(),
    {
        -GAIN_LIMIT <= self.stick_gain && self.stick_gain <= GAIN_LIMIT && -GAIN_LIMIT
            <= self.motion_gain && self.motion_gain <= GAIN_LIMIT && 0 < self.decay && self.decay
            < ONE
    }
}

/// The tuning of the whole mixer.
#[derive(Clone, Copy, Debug, PartialEq, Eq, Structural)]
pub struct MixerConfig {
    /// The channel fed by the left stick.
    pub left: ChannelConfig,
    /// The channel fed by the right stick.
    pub right: ChannelConfig,
    /// Angular rates smaller than this count as zero.
    pub gyro_dead_zone: i64,
}

/// The sensitivity that a command-line option in `[-5, 5]` selects:
/// `2 + option * 0.2`.
pub open spec fn option_sensitivity(option: int) -> int {
    2 * ONE + trunc_div(option, 5)
}

/// The tuning that a pair of sensitivities selects: the left stick scrolls at
/// a sixteenth of the stick sensitivity, the right stick moves the pointer at
/// twice the stick sensitivity, and rotation moves the pointer at an eighth
/// of the gyro sensitivity.
pub open spec fn tuning(gyro_sensitivity: int, stick_sensitivity: int) -> MixerConfig {
    MixerConfig {
        left: ChannelConfig {
            stick_gain: trunc_div(stick_sensitivity, 16) as i64,
            motion_gain: 0,
            stick_dead_zone: 200_000,
            decay: 900_000,
        },
        right: ChannelConfig {
            stick_gain: (stick_sensitivity * 2) as i64,
            motion_gain: trunc_div(gyro_sensitivity, 8) as i64,
            stick_dead_zone: 200_000,
            decay: 900_000,
        },
        gyro_dead_zone: 2_000_000,
    }
}

impl MixerConfig {
    /// Both channels are well formed.
    pub open spec fn wf(&self) -> bool {
        self.left.wf() && self.right.wf()
    }

    /// Whether the tuning is well formed.
    pub fn is_valid(&self) -> (r: bool)
        ensures
            r == self.wf(),
    {
        self.left.is_valid() && self.right.is_valid()
    }

    /// The tuning for the sensitivity options `gyro` and `stick`, each in
    /// millionths. Options outside `[-5, 5]` are rejected.
    pub fn from_options(gyro: i64, stick: i64) -> (r: Option<MixerConfig>)
        ensures
            r.is_some() <==> abs(gyro as int) <= 5 * ONE && abs(stick as int) <= 5 * ONE,
            r matches Some(config) ==> config.wf() && config == tuning(
                option_sensitivity(gyro as int),
                option_sensitivity(stick as int),
            ),
    {
        if gyro < -5_000_000 || gyro > 5_000_000 || stick < -5_000_000 || stick > 5_000_000 {
            return None;
        }
        let gyro_sensitivity: i64 = 2_000_000 + gyro / 5;
        let stick_sensitivity: i64 = 2_000_000 + stick / 5;
        Some(
            MixerConfig {
                left: ChannelConfig {
                    stick_gain: stick_sensitivity / 16,
                    motion_gain: 0,
                    stick_dead_zone: 200_000,
                    decay: 900_000,
                },
                right: ChannelConfig {
                    stick_gain: stick_sensitivity * 2,
                    motion_gain: gyro_sensitivity / 8,
                    stick_dead_zone: 200_000,
                    decay: 900_000,
                },
                gyro_dead_zone: 2_000_000,
            },
        )
    }
}

impl Default for MixerConfig {
    /// The tuning for both sensitivity options at zero.
    fn default() -> (r: MixerConfig)
        ensures
            r.wf(),
            r == tuning(2 * ONE, 2 * ONE),
    {
        MixerConfig {
            left: ChannelConfig {
                stick_gain: 125_000,
                motion_gain: 0,
                stick_dead_zone: 200_000,
                decay: 900_000,
            },
            right: ChannelConfig {
                stick_gain: 4_000_000,
                motion_gain: 250_000,
                stick_dead_zone: 200_000,
                decay: 900_000,
            },
            gyro_dead_zone: 2_000_000,
        }
    }
}

/// What the mixer reads on one tick.
#[derive(Clone, Copy, Debug, PartialEq, Eq, Structural)]
pub struct MixerInput {
    /// The latest left stick reading.
    pub left: Stick,
    /// The latest right stick reading.
    pub right: Stick,
    /// The latest angular rate about the y axis, in millionths.
    pub rate_y: i64,
    /// The latest angular rate about the z axis, in millionths.
    pub rate_z: i64,
    /// The cosine of the orientation angle, in millionths.
    pub cos: i32,
    /// The sine of the orientation angle, in millionths.
    pub sin: i32,
}

impl MixerInput {
    /// The rates are within `RATE_LIMIT` and the cosine and sine within one.
    pub open spec fn wf(&self) -> bool {
        &&& abs(self.rate_y as int) <= RATE_LIMIT
        &&& abs(self.rate_z as int) <= RATE_LIMIT
        &&& abs(self.cos as int) <= ONE
        &&& abs(self.sin as int) <= ONE
    }

    /// Whether the input is well formed.
    pub fn is_valid(&self) -> (r: bool)
        ensures
            r == self.wf(),
    {
        -RATE_LIMIT <= self.rate_y && self.rate_y <= RATE_LIMIT && -RATE_LIMIT <= self.rate_z
            && self.rate_z <= RATE_LIMIT && -1_000_000 <= self.cos && self.cos <= 1_000_000
            && -1_000_000 <= self.sin && self.sin <= 1_000_000
    }

    /// The planar motion along x that the dead-zoned rates give when rotated
    /// by the orientation angle: `gz * cos + gy * sin`, scaled by a million.
    pub open spec fn rotated_x(&self, dead_zone: int) -> int {
        dead_zoned(self.rate_z as int, dead_zone) * self.cos + dead_zoned(
            self.rate_y as int,
            dead_zone,
        ) * self.sin
    }

    /// The planar motion along y that the dead-zoned rates give when rotated
    /// by the orientation angle: `gz * sin - gy * cos`, scaled by a million.
    pub open spec fn rotated_y(&self, dead_zone: int) -> int {
        dead_zoned(self.rate_z as int, dead_zone) * self.sin - dead_zoned(
            self.rate_y as int,
            dead_zone,
        ) * self.cos
    }
}

/// What a channel feeds into its x axis: the dead-zoned stick deflection and
/// the rotated rate, each times its gain.
pub open spec fn channel_tick_x(config: ChannelConfig, stick: Stick, rotated_x: int) -> AxisTick {
    AxisTick {
        input: trunc_div(
            dead_zoned(stick.x as int, config.stick_dead_zone as int) * config.stick_gain,
            ONE as int,
        ),
        motion: trunc_div(rotated_x * config.motion_gain, ONE * ONE),
    }
}

/// What a channel feeds into its y axis. Pushing the stick up moves the
/// output toward smaller y.
pub open spec fn channel_tick_y(config: ChannelConfig, stick: Stick, rotated_y: int) -> AxisTick {
    AxisTick {
        input: trunc_div(
            -dead_zoned(stick.y as int, config.stick_dead_zone as int) * config.stick_gain,
            ONE as int,
        ),
        motion: trunc_div(rotated_y * config.motion_gain, ONE * ONE),
    }
}

/// The mathematical state of one output channel.
pub struct ChannelModel {
    /// The axis along x.
    pub x: AxisModel,
    /// The axis along y.
    pub y: AxisModel,
    /// What the channel drives.
    pub role: Role,
    /// How the channel is tuned.
    pub config: ChannelConfig,
}

/// One output channel: two axes, what they drive and how they are tuned.
#[derive(Clone, Copy, Debug)]
pub struct Channel {
    x: Axis,
    y: Axis,
    role: Role,
    config: ChannelConfig,
}

impl View for Channel {
    type V = ChannelModel;

    closed spec fn view(&self) -> ChannelModel {
        ChannelModel { x: self.x@, y: self.y@, role: self.role, config: self.config }
    }
}

/// A reading with everything below the threshold replaced by zero.
fn apply_dead_zone(value: i64, threshold: i64) -> (r: i64)
    ensures
        r == dead_zoned(value as int, threshold as int),
{
    if threshold > 0 && -threshold < value && value < threshold {
        0
    } else {
        value
    }
}

/// A value times a gain.
fn apply_gain(value: i64, gain: i64) -> (r: i64)
    requires
        abs(value as int) <= 0x8000_0000,
        abs(gain as int) <= GAIN_LIMIT,
    ensures
        r == trunc_div(value * gain, ONE as int),
        abs(r as int) <= INPUT_LIMIT,
{
    let wide: i128 = value as i128;
    let wide_gain: i128 = gain as i128;
    proof {
        assert(-4_000_000_000_000 * 1_000_000 <= wide * wide_gain <= 4_000_000_000_000
            * 1_000_000) by (nonlinear_arith)
            requires
                -0x8000_0000 <= wide <= 0x8000_0000,
                -1_000_000_000 <= wide_gain <= 1_000_000_000,
        ;
        lemma_trunc_div_between(
            wide * wide_gain,
            ONE as int,
            -4_000_000_000_000,
            4_000_000_000_000,
        );
    }
    ((wide * wide_gain) / 1_000_000) as i64
}

/// A rotated rate times a gain.
fn apply_motion_gain(rotated: i128, gain: i64) -> (r: i64)
    requires
        abs(rotated as int) <= 2 * RATE_LIMIT * ONE,
        abs(gain as int) <= GAIN_LIMIT,
    ensures
        r == trunc_div(rotated * gain, ONE * ONE),
        abs(r as int) <= MOTION_LIMIT,
{
    let wide_gain: i128 = gain as i128;
    proof {
        assert(-2_000_000_000_000_000 * 1_000_000_000_000 <= rotated * wide_gain
            <= 2_000_000_000_000_000 * 1_000_000_000_000) by (nonlinear_arith)
            requires
                -2_000_000_000_000_000_000 <= rotated <= 2_000_000_000_000_000_000,
                -1_000_000_000 <= wide_gain <= 1_000_000_000,
        ;
        lemma_trunc_div_between(
            rotated * wide_gain,
            ONE * ONE,
            -2_000_000_000_000_000,
            2_000_000_000_000_000,
        );
    }
    ((rotated * wide_gain) / 1_000_000_000_000) as i64
}

impl Channel {
    /// Both axes and the tuning are well formed.
    pub open spec fn wf(&self) -> bool {
        &&& abs(self@.x.velocity) <= VELOCITY_LIMIT
        &&& abs(self@.x.remainder) <= 500_000
        &&& abs(self@.y.velocity) <= VELOCITY_LIMIT
        &&& abs(self@.y.remainder) <= 500_000
        &&& self@.config.wf()
    }

    /// A channel at rest.
    pub(crate) fn new(role: Role, config: ChannelConfig) -> (r: Channel)
        requires
            config.wf(),
        ensures
            r.wf(),
            r@ == (ChannelModel {
                x: AxisModel { velocity: 0, remainder: 0 },
                y: AxisModel { velocity: 0, remainder: 0 },
                role,
                config,
            }),
    {
        Channel { x: Axis::new(), y: Axis::new(), role, config }
    }

    /// What the channel drives.
    pub fn role(&self) -> (r: Role)
        ensures
            r == self@.role,
    {
        self.role
    }

    /// The x axis.
    pub fn x(&self) -> (r: Axis)
        ensures
            r@ == self@.x,
    {
        self.x
    }

    /// The y axis.
    pub fn y(&self) -> (r: Axis)
        ensures
            r@ == self@.y,
    {
        self.y
    }

    /// Makes the channel drive `role`. A change of role brings both axes to
    /// rest and drops their carried fractions, so that motion meant for one
    /// output never jumps to the other; setting the role it already has
    /// changes nothing.
    pub(crate) fn set_role(&mut self, role: Role)
        requires
            old(self).wf(),
        ensures
            final(self).wf(),
            role == old(self)@.role ==> final(self)@ == old(self)@,
            role != old(self)@.role ==> final(self)@ == (ChannelModel {
                x: AxisModel { velocity: 0, remainder: 0 },
                y: AxisModel { velocity: 0, remainder: 0 },
                role,
                config: old(self)@.config,
            }),
    {
        if self.role != role {
            self.x.reset();
            self.y.reset();
            self.role = role;
        }
    }

    /// Advances both axes by one tick and returns the whole units that each
    /// emits. `rotated_x` and `rotated_y` are the rotated angular rates,
    /// scaled by a million.
    pub(crate) fn tick(&mut self, stick: Stick, rotated_x: i128, rotated_y: i128) -> (emitted: (
        i64,
        i64,
    ))
        requires
            old(self).wf(),
            abs(rotated_x as int) <= 2 * RATE_LIMIT * ONE,
            abs(rotated_y as int) <= 2 * RATE_LIMIT * ONE,
        ensures
            final(self).wf(),
            final(self)@.role == old(self)@.role,
            final(self)@.config == old(self)@.config,
            final(self)@.x == tick_next(
                old(self)@.x,
                channel_tick_x(old(self)@.config, stick, rotated_x as int),
                old(self)@.config.decay as int,
            ),
            final(self)@.y == tick_next(
                old(self)@.y,
                channel_tick_y(old(self)@.config, stick, rotated_y as int),
                old(self)@.config.decay as int,
            ),
            emitted.0 == tick_emitted(
                old(self)@.x,
                channel_tick_x(old(self)@.config, stick, rotated_x as int),
                old(self)@.config.decay as int,
            ),
            emitted.1 == tick_emitted(
                old(self)@.y,
                channel_tick_y(old(self)@.config, stick, rotated_y as int),
                old(self)@.config.decay as int,
            ),
            abs(emitted.0 as int) <= EMITTED_LIMIT,
            abs(emitted.1 as int) <= EMITTED_LIMIT,
    {
        let dead_zone: i64 = self.config.stick_dead_zone as i64;
        let gain: i64 = self.config.stick_gain;
        let input_x: i64 = apply_gain(apply_dead_zone(stick.x as i64, dead_zone), gain);
        let input_y: i64 = apply_gain(-apply_dead_zone(stick.y as i64, dead_zone), gain);
        let motion_x: i64 = apply_motion_gain(rotated_x, self.config.motion_gain);
        let motion_y: i64 = apply_motion_gain(rotated_y, self.config.motion_gain);
        let emitted_x: i64 = self.x.step(input_x, motion_x, self.config.decay);
        let emitted_y: i64 = self.y.step(input_y, motion_y, self.config.decay);
        (emitted_x, emitted_y)
    }
}

/// The integer deltas that one tick sends to the host.
#[derive(Clone, Copy, Debug, PartialEq, Eq, Structural)]
pub struct MixerOutput {
    /// Relative pointer movement along x, in pixels.
    pub pointer_x: i64,
    /// Relative pointer movement along y, in pixels.
    pub pointer_y: i64,
    /// Scroll along x, in notches.
    pub scroll_x: i64,
    /// Scroll along y, in notches.
    pub scroll_y: i64,
}

/// What a channel contributes to the output that `role` names: what it
/// emitted if it drives that output, nothing otherwise.
pub open spec fn routed(channel_role: Role, role: Role, emitted: int) -> int {
    if channel_role == role {
        emitted
    } else {
        0
    }
}

/// The mathematical state of the mixer.
pub struct MixerModel {
    /// The channel fed by the left stick.
    pub left: ChannelModel,
    /// The channel fed by the right stick.
    pub right: ChannelModel,
    /// Angular rates smaller than this count as zero.
    pub gyro_dead_zone: int,
}

/// The motion mixer: one channel per stick.
#[derive(Clone, Copy, Debug)]
pub struct Mixer {
    left: Channel,
    right: Channel,
    gyro_dead_zone: i64,
}

impl View for Mixer {
    type V = MixerModel;

    closed spec fn view(&self) -> MixerModel {
        MixerModel {
            left: self.left@,
            right: self.right@,
            gyro_dead_zone: self.gyro_dead_zone as int,
        }
    }
}

/// `after` and `out` are what one tick makes of `before` and `input`: every
/// axis advances by its channel's tick, roles and tuning stay, and each
/// output is the sum of what the channels driving it emitted.
pub open spec fn ticked(
    before: MixerModel,
    after: MixerModel,
    input: MixerInput,
    out: MixerOutput,
) -> bool {
    let l = before.left;
    let r = before.right;
    let rx = input.rotated_x(before.gyro_dead_zone);
    let ry = input.rotated_y(before.gyro_dead_zone);
    let lx = channel_tick_x(l.config, input.left, rx);
    let ly = channel_tick_y(l.config, input.left, ry);
    let rtx = channel_tick_x(r.config, input.right, rx);
    let rty = channel_tick_y(r.config, input.right, ry);
    let ld = l.config.decay as int;
    let rd = r.config.decay as int;
    &&& after.gyro_dead_zone == before.gyro_dead_zone
    &&& after.left == (ChannelModel { x: tick_next(l.x, lx, ld), y: tick_next(l.y, ly, ld), ..l })
    &&& after.right == (ChannelModel {
        x: tick_next(r.x, rtx, rd),
        y: tick_next(r.y, rty, rd),
        ..r
    })
    &&& out.pointer_x == routed(l.role, Role::Pointer, tick_emitted(l.x, lx, ld)) + routed(
        r.role,
        Role::Pointer,
        tick_emitted(r.x, rtx, rd),
    )
    &&& out.pointer_y == routed(l.role, Role::Pointer, tick_emitted(l.y, ly, ld)) + routed(
        r.role,
        Role::Pointer,
        tick_emitted(r.y, rty, rd),
    )
    &&& out.scroll_x == routed(l.role, Role::Scroll, tick_emitted(l.x, lx, ld)) + routed(
        r.role,
        Role::Scroll,
        tick_emitted(r.x, rtx, rd),
    )
    &&& out.scroll_y == routed(l.role, Role::Scroll, tick_emitted(l.y, ly, ld)) + routed(
        r.role,
        Role::Scroll,
        tick_emitted(r.y, rty, rd),
    )
}

/// The sum of two products of a rate and a trigonometric factor.
fn rotate(a: i64, p: i32, b: i64, q: i32) -> (r: i128)
    requires
        abs(a as int) <= RATE_LIMIT,
        abs(b as int) <= RATE_LIMIT,
        abs(p as int) <= ONE,
        abs(q as int) <= ONE,
    ensures
        r == a * p + b * q,
        abs(r as int) <= 2 * RATE_LIMIT * ONE,
{
    let wa: i128 = a as i128;
    let wp: i128 = p as i128;
    let wb: i128 = b as i128;
    let wq: i128 = q as i128;
    proof {
        assert(-1_000_000_000_000 * 1_000_000 <= wa * wp <= 1_000_000_000_000 * 1_000_000)
            by (nonlinear_arith)
            requires
                -1_000_000_000_000 <= wa <= 1_000_000_000_000,
                -1_000_000 <= wp <= 1_000_000,
        ;
        assert(-1_000_000_000_000 * 1_000_000 <= wb * wq <= 1_000_000_000_000 * 1_000_000)
            by (nonlinear_arith)
            requires
                -1_000_000_000_000 <= wb <= 1_000_000_000_000,
                -1_000_000 <= wq <= 1_000_000,
        ;
    }
    wa * wp + wb * wq
}

impl Mixer {
    /// Both channels are well formed.
    pub open spec fn wf(&self) -> bool {
        &&& abs(self@.left.x.velocity) <= VELOCITY_LIMIT
        &&& abs(self@.left.x.remainder) <= 500_000
        &&& abs(self@.left.y.velocity) <= VELOCITY_LIMIT
        &&& abs(self@.left.y.remainder) <= 500_000
        &&& self@.left.config.wf()
        &&& abs(self@.right.x.velocity) <= VELOCITY_LIMIT
        &&& abs(self@.right.x.remainder) <= 500_000
        &&& abs(self@.right.y.velocity) <= VELOCITY_LIMIT
        &&& abs(self@.right.y.remainder) <= 500_000
        &&& self@.right.config.wf()
    }

    /// A mixer at rest in which the left stick scrolls and the right stick
    /// moves the pointer, or `None` if the tuning is not well formed.
    pub fn new(config: MixerConfig) -> (r: Option<Mixer>)
        ensures
            r.is_some() <==> config.wf(),
            r matches Some(mixer) ==> mixer.wf() && mixer@ == (MixerModel {
                left: ChannelModel {
                    x: AxisModel { velocity: 0, remainder: 0 },
                    y: AxisModel { velocity: 0, remainder: 0 },
                    role: Role::Scroll,
                    config: config.left,
                },
                right: ChannelModel {
                    x: AxisModel { velocity: 0, remainder: 0 },
                    y: AxisModel { velocity: 0, remainder: 0 },
                    role: Role::Pointer,
                    config: config.right,
                },
                gyro_dead_zone: config.gyro_dead_zone as int,
            }),
    {
        if !config.is_valid() {
            return None;
        }
        Some(
            Mixer {
                left: Channel::new(Role::Scroll, config.left),
                right: Channel::new(Role::Pointer, config.right),
                gyro_dead_zone: config.gyro_dead_zone,
            },
        )
    }

    /// The channel on the given side.
    pub fn channel(&self, side: Side) -> (r: Channel)
        ensures
            side == Side::Left ==> r@ == self@.left,
            side == Side::Right ==> r@ == self@.right,
    {
        match side {
            Side::Left => self.left,
            Side::Right => self.right,
        }
    }

    /// Makes the channel on the given side drive `role`, at a tick boundary.
    /// A change of role resets that channel's velocities and carried
    /// fractions; the other channel is untouched.
    pub fn set_role(&mut self, side: Side, role: Role)
        requires
            old(self).wf(),
        ensures
            final(self).wf(),
            final(self)@.gyro_dead_zone == old(self)@.gyro_dead_zone,
            side == Side::Left ==> final(self)@.right == old(self)@.right,
            side == Side::Right ==> final(self)@.left == old(self)@.left,
            ({
                let before = if side == Side::Left {
                    old(self)@.left
                } else {
                    old(self)@.right
                };
                let after = if side == Side::Left {
                    final(self)@.left
                } else {
                    final(self)@.right
                };
                &&& role == before.role ==> after == before
                &&& role != before.role ==> after == (ChannelModel {
                    x: AxisModel { velocity: 0, remainder: 0 },
                    y: AxisModel { velocity: 0, remainder: 0 },
                    role,
                    config: before.config,
                })
            }),
    {
        match side {
            Side::Left => self.left.set_role(role),
            Side::Right => self.right.set_role(role),
        }
    }

    /// Runs one output tick: feeds each channel its stick and the rotated,
    /// dead-zoned angular rates, and adds what the channels emit into the
    /// outputs that they drive.
    pub fn tick(&mut self, input: &MixerInput) -> (out: MixerOutput)
        requires
            old(self).wf(),
            input.wf(),
        ensures
            final(self).wf(),
            ticked(old(self)@, final(self)@, *input, out),
    {
        let rate_z: i64 = apply_dead_zone(input.rate_z, self.gyro_dead_zone);
        let rate_y: i64 = apply_dead_zone(input.rate_y, self.gyro_dead_zone);
        let rotated_x: i128 = rotate(rate_z, input.cos, rate_y, input.sin);
        let rotated_y: i128 = rotate(rate_z, input.sin, -rate_y, input.cos);
        assert(rotated_y == input.rotated_y(self@.gyro_dead_zone)) by (nonlinear_arith)
            requires
                rotated_y == rate_z * input.sin + (-rate_y) * input.cos,
                input.rotated_y(self@.gyro_dead_zone) == rate_z * input.sin - rate_y * input.cos,
        ;
        let left: (i64, i64) = self.left.tick(input.left, rotated_x, rotated_y);
        let right: (i64, i64) = self.right.tick(input.right, rotated_x, rotated_y);
        let mut out = MixerOutput { pointer_x: 0, pointer_y: 0, scroll_x: 0, scroll_y: 0 };
        match self.left.role() {
            Role::Pointer => {
                out.pointer_x = out.pointer_x + left.0;
                out.pointer_y = out.pointer_y + left.1;
            },
            Role::Scroll => {
                out.scroll_x = out.scroll_x + left.0;
                out.scroll_y = out.scroll_y + left.1;
            },
        }
        match self.right.role() {
            Role::Pointer => {
                out.pointer_x = out.pointer_x + right.0;
                out.pointer_y = out.pointer_y + right.1;
            },
            Role::Scroll => {
                out.scroll_x = out.scroll_x + right.0;
                out.scroll_y = out.scroll_y + right.1;
            },
        }
        out
    }
}

} // verus!
