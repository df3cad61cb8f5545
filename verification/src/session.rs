//! The decisions of the session coordinator.
//!
//! A session runs two loops. The producer blocks on the device, and hands
//! each report, or the failure to get one, to `SessionState::on_poll`. The
//! consumer wakes at a fixed period and calls `SessionState::tick`, which
//! either tells it to leave or gives it the deltas to emit. The loops, the
//! waiting and the device are the caller's; what is published, what is
//! emitted and when the session ends is decided here.

use vstd::prelude::*;
use crate::angle::{HALF_TURN, RATE_LIMIT};
use crate::fixed::{abs, ONE};
use crate::mixer::{ticked, Mixer, MixerInput, MixerOutput};
use crate::orientation::{blend, Orientation, OrientationModel, ANGLE_LIMIT};
use crate::vector::{Stick, Vector3};

verus! {

/// The period of the consumer's ticks, in millionths of a second: 200 ticks
/// per second.
pub const TICK_PERIOD: u64 = 5_000;

/// One decoded inertial sample, with the leveling angle that its
/// acceleration gives.
#[derive(Clone, Copy, Debug, PartialEq, Eq, Structural)]
pub struct Sample {
    /// Angular rate about each axis, in millionths of a degree per second.
    pub rate: Vector3,
    /// The angle of the acceleration in the y-z plane, in millionths of a
    /// degree.
    pub level: i64,
}

impl Sample {
    /// The rates are within `RATE_LIMIT` and the leveling angle within half a
    /// turn.
    pub open spec fn wf(&self) -> bool {
        &&& abs(self.rate.x as int) <= RATE_LIMIT
        &&& abs(self.rate.y as int) <= RATE_LIMIT
        &&& abs(self.rate.z as int) <= RATE_LIMIT
        &&& abs(self.level as int) <= HALF_TURN
    }

    /// Whether the sample is well formed.
    pub fn is_valid(&self) -> (r: bool)
        ensures
            r == self.wf(),
    {
        -RATE_LIMIT <= self.rate.x && self.rate.x <= RATE_LIMIT && -RATE_LIMIT <= self.rate.y
            && self.rate.y <= RATE_LIMIT && -RATE_LIMIT <= self.rate.z && self.rate.z
            <= RATE_LIMIT && -HALF_TURN <= self.level && self.level <= HALF_TURN
    }
}

/// What one poll of the device brings: the inertial samples taken since the
/// last poll, oldest first, and the current stick readings.
#[derive(Debug)]
pub struct Report {
    /// The inertial samples, oldest first.
    pub samples: Vec<Sample>,
    /// The left stick reading.
    pub left_stick: Stick,
    /// The right stick reading.
    pub right_stick: Stick,
}

/// Why a session ended.
#[derive(Clone, Copy, Debug, PartialEq, Eq, Structural)]
pub enum SessionError {
    /// A report was malformed.
    Decode,
    /// The device could not be read.
    Io,
}

/// What the producer does after a poll.
#[derive(Clone, Copy, Debug, PartialEq, Eq, Structural)]
pub enum ProducerStep {
    /// Poll again.
    Continue,
    /// Leave the loop; the session is over.
    Stop(SessionError),
}

/// What the consumer does on a tick.
#[derive(Clone, Copy, Debug, PartialEq, Eq, Structural)]
pub enum TickAction {
    /// Leave the loop; the session is over.
    Exit,
    /// Emit these deltas and wait for the next tick.
    Emit(MixerOutput),
}

/// Every sample of the sequence is well formed.
pub open spec fn all_valid(samples: Seq<Sample>) -> bool {
    forall|i: int| 0 <= i < samples.len() ==> (#[trigger] samples[i]).wf()
}

/// The angle after the estimator has taken in each sample in turn.
pub open spec fn feed(angle: int, alpha: int, samples: Seq<Sample>) -> int
    decreases samples.len(),
{
    if samples.len() == 0 {
        angle
    } else {
        blend(
            feed(angle, alpha, samples.drop_last()),
            samples.last().rate.x as int,
            samples.last().level as int,
            alpha,
        )
    }
}

/// The mathematical content of the shared session state.
pub struct SessionModel {
    /// The latest angular rate about the y axis.
    pub rate_y: int,
    /// The latest angular rate about the z axis.
    pub rate_z: int,
    /// The latest left stick reading.
    pub left_stick: Stick,
    /// The latest right stick reading.
    pub right_stick: Stick,
    /// The orientation estimate.
    pub orientation: OrientationModel,
    /// Whether the session has been told to end.
    pub interrupt: bool,
}

/// What a well-formed report publishes: the sticks it carries, the angle
/// after all of its samples, and the rates of its last sample. A report
/// without samples leaves angle and rates as they were.
pub open spec fn published(s: SessionModel, report: Report) -> SessionModel {
    let samples = report.samples@;
    SessionModel {
        rate_y: if samples.len() == 0 {
            s.rate_y
        } else {
            samples.last().rate.y as int
        },
        rate_z: if samples.len() == 0 {
            s.rate_z
        } else {
            samples.last().rate.z as int
        },
        left_stick: report.left_stick,
        right_stick: report.right_stick,
        orientation: OrientationModel {
            angle: feed(s.orientation.angle, s.orientation.alpha, samples),
            alpha: s.orientation.alpha,
        },
        interrupt: s.interrupt,
    }
}

/// The state that the producer publishes and the consumer reads.
#[derive(Clone, Copy, Debug)]
pub struct SessionState {
    rate_y: i64,
    rate_z: i64,
    left_stick: Stick,
    right_stick: Stick,
    orientation: Orientation,
    interrupt: bool,
}

impl View for SessionState {
    type V = SessionModel;

    closed spec fn view(&self) -> SessionModel {
        SessionModel {
            rate_y: self.rate_y as int,
            rate_z: self.rate_z as int,
            left_stick: self.left_stick,
            right_stick: self.right_stick,
            orientation: self.orientation@,
            interrupt: self.interrupt,
        }
    }
}

/// Whether every sample is well formed.
fn samples_valid(samples: &Vec<Sample>) -> (r: bool)
    ensures
        r == all_valid(samples@),
{
    let mut i: usize = 0;
    while i < samples.len()
        invariant
            i <= samples.len(),
            forall|j: int| 0 <= j < i ==> (#[trigger] samples@[j]).wf(),
        decreases samples.len() - i,
    {
        if !samples[i].is_valid() {
            return false;
        }
        i = i + 1;
    }
    true
}

impl SessionState {
    /// The published rates are within `RATE_LIMIT` and the estimator is well
    /// formed.
    pub open spec fn wf(&self) -> bool {
        &&& abs(self@.rate_y) <= RATE_LIMIT
        &&& abs(self@.rate_z) <= RATE_LIMIT
        &&& 0 <= self@.orientation.alpha < ONE
        &&& abs(self@.orientation.angle) <= ANGLE_LIMIT
    }

    /// The state at the start of a session: nothing read yet, sticks centred,
    /// no interrupt.
    pub fn new(orientation: Orientation) -> (r: SessionState)
        requires
            orientation.wf(),
        ensures
            r.wf(),
            r@ == (SessionModel {
                rate_y: 0,
                rate_z: 0,
                left_stick: Stick { x: 0, y: 0 },
                right_stick: Stick { x: 0, y: 0 },
                orientation: orientation@,
                interrupt: false,
            }),
    {
        SessionState {
            rate_y: 0,
            rate_z: 0,
            left_stick: Stick { x: 0, y: 0 },
            right_stick: Stick { x: 0, y: 0 },
            orientation,
            interrupt: false,
        }
    }

    /// The latest orientation angle, in millionths of a degree.
    pub fn angle(&self) -> (r: i64)
        ensures
            r == self@.orientation.angle,
    {
        self.orientation.angle()
    }

    /// The latest angular rates about the y and the z axis.
    pub fn rates(&self) -> (r: (i64, i64))
        ensures
            r.0 == self@.rate_y,
            r.1 == self@.rate_z,
    {
        (self.rate_y, self.rate_z)
    }

    /// The latest left and right stick readings.
    pub fn sticks(&self) -> (r: (Stick, Stick))
        ensures
            r.0 == self@.left_stick,
            r.1 == self@.right_stick,
    {
        (self.left_stick, self.right_stick)
    }

    /// Whether the session has been told to end.
    pub fn is_interrupted(&self) -> (r: bool)
        ensures
            r == self@.interrupt,
    {
        self.interrupt
    }

    /// Tells the session to end. The consumer leaves on its next tick.
    pub fn interrupt(&mut self)
        requires
            old(self).wf(),
        ensures
            final(self).wf(),
            final(self)@ == (SessionModel { interrupt: true, ..old(self)@ }),
    {
        self.interrupt = true;
    }

    /// The producer's step: takes what a poll of the device gave.
    ///
    /// A report whose samples are all well formed is published: each sample
    /// goes through the estimator in order, and of the values in between only
    /// the last angle and the last rates remain. Any failure, and any report
    /// with a malformed sample, ends the session: the interrupt is raised,
    /// nothing else changes, and the producer is told to stop.
    pub fn on_poll(&mut self, polled: Result<Report, SessionError>) -> (step: ProducerStep)
        requires
            old(self).wf(),
        ensures
            final(self).wf(),
            match polled {
                Ok(report) => if all_valid(report.samples@) {
                    &&& step == ProducerStep::Continue
                    &&& final(self)@ == published(old(self)@, report)
                } else {
                    &&& step == ProducerStep::Stop(SessionError::Decode)
                    &&& final(self)@ == (SessionModel { interrupt: true, ..old(self)@ })
                },
                Err(error) => {
                    &&& step == ProducerStep::Stop(error)
                    &&& final(self)@ == (SessionModel { interrupt: true, ..old(self)@ })
                },
            },
    {
        match polled {
            Ok(report) => {
                if !samples_valid(&report.samples) {
                    self.interrupt = true;
                    return ProducerStep::Stop(SessionError::Decode);
                }
                let ghost start = self@;
                let mut i: usize = 0;
                while i < report.samples.len()
                    invariant
                        i <= report.samples.len(),
                        all_valid(report.samples@),
                        self.wf(),
                        self@.orientation.alpha == start.orientation.alpha,
                        self@.orientation.angle == feed(
                            start.orientation.angle,
                            start.orientation.alpha,
                            report.samples@.take(i as int),
                        ),
                        self@.interrupt == start.interrupt,
                        i == 0 ==> self@.rate_y == start.rate_y && self@.rate_z == start.rate_z,
                        i > 0 ==> self@.rate_y == report.samples@[i - 1].rate.y && self@.rate_z
                            == report.samples@[i - 1].rate.z,
                    decreases report.samples.len() - i,
                {
                    let sample: Sample = report.samples[i];
                    assert(report.samples@[i as int].wf());
                    proof {
                        let next = report.samples@.take(i + 1);
                        assert(next.drop_last() == report.samples@.take(i as int));
                        assert(next.last() == report.samples@[i as int]);
                    }
                    self.orientation.update(sample.rate.x, sample.level);
                    self.rate_y = sample.rate.y;
                    self.rate_z = sample.rate.z;
                    i = i + 1;
                }
                assert(report.samples@.take(i as int) == report.samples@);
                self.left_stick = report.left_stick;
                self.right_stick = report.right_stick;
                ProducerStep::Continue
            },
            Err(error) => {
                self.interrupt = true;
                ProducerStep::Stop(error)
            },
        }
    }

    /// The consumer's step, once per output tick: leaves if the session has
    /// been told to end, and otherwise runs the mixer on the latest published
    /// state. `cos` and `sin` are the cosine and the sine of the published
    /// orientation angle, in millionths.
    pub fn tick(&self, mixer: &mut Mixer, cos: i32, sin: i32) -> (action: TickAction)
        requires
            self.wf(),
            old(mixer).wf(),
            abs(cos as int) <= ONE,
            abs(sin as int) <= ONE,
        ensures
            final(mixer).wf(),
            self@.interrupt ==> action == TickAction::Exit && final(mixer)@ == old(mixer)@,
            !self@.interrupt ==> (action matches TickAction::Emit(out) && ticked(
                old(mixer)@,
                final(mixer)@,
                self.mixer_input(cos, sin),
                out,
            )),
    {
        if self.interrupt {
            return TickAction::Exit;
        }
        let input = MixerInput {
            left: self.left_stick,
            right: self.right_stick,
            rate_y: self.rate_y,
            rate_z: self.rate_z,
            cos,
            sin,
        };
        let out: MixerOutput = mixer.tick(&input);
        TickAction::Emit(out)
    }

    /// What the mixer reads on a tick: the published sticks and rates, and
    /// the given cosine and sine.
    pub open spec fn mixer_input(&self, cos: i32, sin: i32) -> MixerInput {
        MixerInput {
            left: self@.left_stick,
            right: self@.right_stick,
            rate_y: self@.rate_y as i64,
            rate_z: self@.rate_z as i64,
            cos,
            sin,
        }
    }
}

/// The first wake-up time after `now` on the grid `origin + k * period`.
pub open spec fn deadline_after(origin: int, period: int, now: int) -> int {
    if now < origin {
        origin
    } else {
        origin + ((now - origin) / period + 1) * period
    }
}

/// The consumer's next wake-up time. Deadlines lie on a grid laid out from a
/// fixed origin, so that a late wake-up does not delay the ones after it.
pub fn next_deadline(origin: u64, period: u64, now: u64) -> (r: u64)
    requires
        period > 0,
        now + period <= u64::MAX,
    ensures
        r == deadline_after(origin as int, period as int, now as int),
        r > now,
        now >= origin ==> r <= now + period && (r - origin) % (period as int) == 0,
{
    if now < origin {
        return origin;
    }
    let elapsed: u64 = now - origin;
    let whole: u64 = elapsed / period;
    proof {
        assert(elapsed == period * (elapsed / period) + elapsed % period) by (nonlinear_arith)
            requires
                period > 0,
        ;
        assert(0 <= elapsed % period < period);
        assert((whole + 1) * period == whole * period + period) by (nonlinear_arith);
        assert(whole * period == period * whole) by (nonlinear_arith);
        assert(((whole + 1) * period) % (period as int) == 0) by (nonlinear_arith)
            requires
                period > 0,
                whole >= 0,
        {
            vstd::arithmetic::div_mod::lemma_mod_multiples_basic(whole + 1, period as int);
        }
    }
    origin + (whole + 1) * period
}

} // verus!
