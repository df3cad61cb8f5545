//! The frame decoder: from packed raw inertial samples to acceleration in g
//! and rotation in degrees.

use vstd::prelude::*;
use crate::fixed::{trunc_div, lemma_trunc_div_between, ONE};
use crate::vector::{Euler, RawVector3, Vector3};

verus! {

/// The duration of one inertial sample, in millionths of a second.
pub const IMU_SAMPLE_DURATION: u32 = 5_000;

/// The number of inertial samples per second.
pub const IMU_SAMPLES_PER_SECOND: u32 = 200;

/// The number of bytes of one packed frame.
pub const FRAME_BYTES: usize = 12;

/// The span of the raw 16-bit range that a sensitivity range is spread over.
pub const RAW_SPAN: i64 = 65_535;

/// Sensitivity range of the gyroscope.
///
/// With `DPS2000`, for example, the gyroscope measures up to 2000 degrees
/// per second either way, a total range of 4000 degrees per second over the
/// 16-bit raw value.
#[derive(Clone, Copy, Debug, PartialEq, Eq, Structural)]
pub enum GyroSens {
    DPS250,
    DPS500,
    DPS1000,
    DPS2000,
}

/// Sensitivity range of the accelerometer.
///
/// With `G4`, for example, the accelerometer measures up to 4 g either way,
/// a total range of 8 g over the 16-bit raw value.
#[derive(Clone, Copy, Debug, PartialEq, Eq, Structural)]
pub enum AccSens {
    G8,
    G4,
    G2,
    G16,
}

/// Sampling rate of the gyroscope.
#[derive(Clone, Copy, Debug, PartialEq, Eq, Structural)]
pub enum GyroPerfRate {
    Hz833,
    Hz208,
}

/// Anti-aliasing setting of the accelerometer: acceleration frequencies above
/// the value are removed by a low-pass filter.
#[derive(Clone, Copy, Debug, PartialEq, Eq, Structural)]
pub enum AccAntiAliasing {
    Hz200,
    Hz100,
}

/// The configuration of the inertial sensors.
#[derive(Clone, Copy, Debug, PartialEq, Eq, Structural)]
pub struct Sensitivity {
    pub gyro_sens: GyroSens,
    pub acc_sens: AccSens,
    pub gyro_perf_rate: GyroPerfRate,
    pub acc_anti_aliasing: AccAntiAliasing,
}

impl GyroSens {
    /// The total range in degrees per second.
    pub open spec fn spec_range_dps(self) -> int {
        match self {
            GyroSens::DPS250 => 500,
            GyroSens::DPS500 => 1000,
            GyroSens::DPS1000 => 2000,
            GyroSens::DPS2000 => 4000,
        }
    }

    /// The total range in degrees per second.
    pub fn range_dps(self) -> (r: u16)
        ensures
            r == self.spec_range_dps(),
    {
        match self {
            GyroSens::DPS250 => 500,
            GyroSens::DPS500 => 1000,
            GyroSens::DPS1000 => 2000,
            GyroSens::DPS2000 => 4000,
        }
    }

    /// The factor from one raw count to degrees per second, in millionths:
    /// the range spread over the 16-bit raw span.
    pub fn factor(self) -> (r: i64)
        ensures
            r == trunc_div(self.spec_range_dps() * ONE, RAW_SPAN as int),
    {
        (self.range_dps() as i64 * ONE) / RAW_SPAN
    }
}

impl Default for GyroSens {
    fn default() -> (r: GyroSens)
        ensures
            r == GyroSens::DPS2000,
    {
        GyroSens::DPS2000
    }
}

impl AccSens {
    /// The total range in g.
    pub open spec fn spec_range_g(self) -> int {
        match self {
            AccSens::G8 => 16,
            AccSens::G4 => 8,
            AccSens::G2 => 4,
            AccSens::G16 => 32,
        }
    }

    /// The total range in g.
    pub fn range_g(self) -> (r: u16)
        ensures
            r == self.spec_range_g(),
    {
        match self {
            AccSens::G8 => 16,
            AccSens::G4 => 8,
            AccSens::G2 => 4,
            AccSens::G16 => 32,
        }
    }
}

impl Default for AccSens {
    fn default() -> (r: AccSens)
        ensures
            r == AccSens::G8,
    {
        AccSens::G8
    }
}

impl Default for GyroPerfRate {
    fn default() -> (r: GyroPerfRate)
        ensures
            r == GyroPerfRate::Hz208,
    {
        GyroPerfRate::Hz208
    }
}

impl Default for AccAntiAliasing {
    fn default() -> (r: AccAntiAliasing)
        ensures
            r == AccAntiAliasing::Hz100,
    {
        AccAntiAliasing::Hz100
    }
}

impl Default for Sensitivity {
    fn default() -> (r: Sensitivity)
        ensures
            r == (Sensitivity {
                gyro_sens: GyroSens::DPS2000,
                acc_sens: AccSens::G8,
                gyro_perf_rate: GyroPerfRate::Hz208,
                acc_anti_aliasing: AccAntiAliasing::Hz100,
            }),
    {
        Sensitivity {
            gyro_sens: GyroSens::DPS2000,
            acc_sens: AccSens::G8,
            gyro_perf_rate: GyroPerfRate::Hz208,
            acc_anti_aliasing: AccAntiAliasing::Hz100,
        }
    }
}

/// What is known of the sensors for the length of one session: the raw
/// counts that each axis reads at rest, and the configured ranges.
#[derive(Clone, Copy, Debug, PartialEq, Eq, Structural)]
pub struct Calibration {
    /// What the accelerometer reads at rest, in raw counts.
    pub accel_offset: RawVector3,
    /// What the gyroscope reads at rest, in raw counts.
    pub gyro_offset: RawVector3,
    /// The configured ranges.
    pub sensitivity: Sensitivity,
}

/// One inertial sample in physical units.
#[derive(Clone, Copy, Debug, PartialEq, Eq, Structural)]
pub struct PhysicalSample {
    /// The acceleration, in millionths of g.
    pub accel: Vector3,
    /// The rotation over the sample, in millionths of a degree.
    pub rotation: Euler,
}

/// The signed 16-bit value that two bytes hold in little-endian order.
pub open spec fn le_i16(low: u8, high: u8) -> int {
    let unsigned = low as int + 256 * (high as int);
    if unsigned >= 32_768 {
        unsigned - 65_536
    } else {
        unsigned
    }
}

/// The acceleration in millionths of g that a raw count stands for:
/// `(raw - offset) / (65535 / range)`.
pub open spec fn accel_from_raw(raw: int, offset: int, range_g: int) -> int {
    trunc_div((raw - offset) * range_g * ONE, RAW_SPAN as int)
}

/// The rotation in millionths of a degree over one sample that a raw count
/// stands for: `(raw - offset) * (range / 65535) * 0.005`.
pub open spec fn rotation_from_raw(raw: int, offset: int, range_dps: int) -> int {
    trunc_div((raw - offset) * range_dps * IMU_SAMPLE_DURATION, RAW_SPAN as int)
}

/// The angular rate in millionths of a degree per second that a raw count
/// stands for: `(raw - offset) * (range / 65535)`.
pub open spec fn rate_from_raw(raw: int, offset: int, range_dps: int) -> int {
    trunc_div((raw - offset) * range_dps * ONE, RAW_SPAN as int)
}

/// The mathematical content of a frame: three raw acceleration counts and
/// three raw angular-rate counts, each in x, y, z order.
pub struct FrameModel {
    /// The raw acceleration counts.
    pub accel: Seq<int>,
    /// The raw angular-rate counts.
    pub gyro: Seq<int>,
}

/// One raw inertial sample.
#[derive(Clone, Copy, Debug)]
pub struct Frame {
    raw_accel: [i16; 3],
    raw_gyro: [i16; 3],
}

impl View for Frame {
    type V = FrameModel;

    closed spec fn view(&self) -> FrameModel {
        FrameModel {
            accel: seq![
                self.raw_accel[0] as int,
                self.raw_accel[1] as int,
                self.raw_accel[2] as int,
            ],
            gyro: seq![self.raw_gyro[0] as int, self.raw_gyro[1] as int, self.raw_gyro[2] as int],
        }
    }
}

/// The signed 16-bit value that two bytes hold in little-endian order.
fn read_i16(low: u8, high: u8) -> (r: i16)
    ensures
        r == le_i16(low, high),
{
    let unsigned: i32 = low as i32 + 256 * (high as i32);
    if unsigned >= 32_768 {
        (unsigned - 65_536) as i16
    } else {
        unsigned as i16
    }
}

/// A raw difference times a range times a scale, spread over the raw span.
fn scale_raw(raw: i16, offset: i32, range: u16, scale: i64) -> (r: i64)
    requires
        range <= 4000,
        0 < scale <= ONE,
    ensures
        r == trunc_div((raw - offset) * range * scale, RAW_SPAN as int),
{
    let difference: i128 = raw as i128 - offset as i128;
    assert(0 <= range * scale <= 4000 * 1_000_000) by (nonlinear_arith)
        requires
            0 <= range <= 4000,
            0 < scale <= 1_000_000,
    ;
    let factor: i128 = range as i128 * scale as i128;
    proof {
        assert(-0x8000_8000 * 4_000_000_000 <= difference * factor <= 0x8000_8000
            * 4_000_000_000) by (nonlinear_arith)
            requires
                -0x8000_8000 <= difference <= 0x8000_8000,
                0 <= factor <= 4_000_000_000,
        ;
        assert((raw - offset) * range * scale == difference * factor) by (nonlinear_arith)
            requires
                difference == raw - offset,
                factor == range * scale,
        ;
        lemma_trunc_div_between(
            difference * factor,
            RAW_SPAN as int,
            -0x8000_8000 * 4_000_000_000int,
            0x8000_8000 * 4_000_000_000int,
        );
    }
    ((difference * factor) / 65_535) as i64
}

impl Frame {
    /// A frame with the given raw counts.
    pub fn new(raw_accel: [i16; 3], raw_gyro: [i16; 3]) -> (r: Frame)
        ensures
            r@.accel == seq![raw_accel[0] as int, raw_accel[1] as int, raw_accel[2] as int],
            r@.gyro == seq![raw_gyro[0] as int, raw_gyro[1] as int, raw_gyro[2] as int],
    {
        Frame { raw_accel, raw_gyro }
    }

    /// Unpacks a frame: six signed 16-bit little-endian values, the three
    /// acceleration counts first.
    pub fn from_le_bytes(bytes: &[u8; 12]) -> (r: Frame)
        ensures
            r@.accel == seq![
                le_i16(bytes[0], bytes[1]),
                le_i16(bytes[2], bytes[3]),
                le_i16(bytes[4], bytes[5]),
            ],
            r@.gyro == seq![
                le_i16(bytes[6], bytes[7]),
                le_i16(bytes[8], bytes[9]),
                le_i16(bytes[10], bytes[11]),
            ],
    {
        Frame {
            raw_accel: [
                read_i16(bytes[0], bytes[1]),
                read_i16(bytes[2], bytes[3]),
                read_i16(bytes[4], bytes[5]),
            ],
            raw_gyro: [
                read_i16(bytes[6], bytes[7]),
                read_i16(bytes[8], bytes[9]),
                read_i16(bytes[10], bytes[11]),
            ],
        }
    }

    /// The raw acceleration counts.
    pub fn raw_accel(&self) -> (r: RawVector3)
        ensures
            r.x == self@.accel[0],
            r.y == self@.accel[1],
            r.z == self@.accel[2],
    {
        RawVector3 {
            x: self.raw_accel[0] as i32,
            y: self.raw_accel[1] as i32,
            z: self.raw_accel[2] as i32,
        }
    }

    /// The raw angular-rate counts.
    pub fn raw_gyro(&self) -> (r: RawVector3)
        ensures
            r.x == self@.gyro[0],
            r.y == self@.gyro[1],
            r.z == self@.gyro[2],
    {
        RawVector3 {
            x: self.raw_gyro[0] as i32,
            y: self.raw_gyro[1] as i32,
            z: self.raw_gyro[2] as i32,
        }
    }

    /// The acceleration in millionths of g.
    pub fn accel_g(&self, offset: RawVector3, sens: AccSens) -> (r: Vector3)
        ensures
            r.x == accel_from_raw(self@.accel[0], offset.x as int, sens.spec_range_g()),
            r.y == accel_from_raw(self@.accel[1], offset.y as int, sens.spec_range_g()),
            r.z == accel_from_raw(self@.accel[2], offset.z as int, sens.spec_range_g()),
    {
        let range: u16 = sens.range_g();
        Vector3 {
            x: scale_raw(self.raw_accel[0], offset.x, range, ONE),
            y: scale_raw(self.raw_accel[1], offset.y, range, ONE),
            z: scale_raw(self.raw_accel[2], offset.z, range, ONE),
        }
    }

    /// The rotation described in this frame: the angular rate times the
    /// duration of one sample, in millionths of a degree about each axis.
    pub fn rotation(&self, offset: RawVector3, sens: GyroSens) -> (r: Euler)
        ensures
            r.x == rotation_from_raw(self@.gyro[0], offset.x as int, sens.spec_range_dps()),
            r.y == rotation_from_raw(self@.gyro[1], offset.y as int, sens.spec_range_dps()),
            r.z == rotation_from_raw(self@.gyro[2], offset.z as int, sens.spec_range_dps()),
    {
        let range: u16 = sens.range_dps();
        Euler {
            x: scale_raw(self.raw_gyro[0], offset.x, range, 5_000),
            y: scale_raw(self.raw_gyro[1], offset.y, range, 5_000),
            z: scale_raw(self.raw_gyro[2], offset.z, range, 5_000),
        }
    }

    /// The sample in physical units under the given calibration.
    pub fn decode(&self, calibration: &Calibration) -> (r: PhysicalSample)
        ensures
            r.accel.x == accel_from_raw(
                self@.accel[0],
                calibration.accel_offset.x as int,
                calibration.sensitivity.acc_sens.spec_range_g(),
            ),
            r.accel.y == accel_from_raw(
                self@.accel[1],
                calibration.accel_offset.y as int,
                calibration.sensitivity.acc_sens.spec_range_g(),
            ),
            r.accel.z == accel_from_raw(
                self@.accel[2],
                calibration.accel_offset.z as int,
                calibration.sensitivity.acc_sens.spec_range_g(),
            ),
            r.rotation.x == rotation_from_raw(
                self@.gyro[0],
                calibration.gyro_offset.x as int,
                calibration.sensitivity.gyro_sens.spec_range_dps(),
            ),
            r.rotation.y == rotation_from_raw(
                self@.gyro[1],
                calibration.gyro_offset.y as int,
                calibration.sensitivity.gyro_sens.spec_range_dps(),
            ),
            r.rotation.z == rotation_from_raw(
                self@.gyro[2],
                calibration.gyro_offset.z as int,
                calibration.sensitivity.gyro_sens.spec_range_dps(),
            ),
    {
        PhysicalSample {
            accel: self.accel_g(calibration.accel_offset, calibration.sensitivity.acc_sens),
            rotation: self.rotation(calibration.gyro_offset, calibration.sensitivity.gyro_sens),
        }
    }

    /// The angular rate in millionths of a degree per second about each
    /// axis.
    pub fn rotation_dps(&self, offset: RawVector3, sens: GyroSens) -> (r: Vector3)
        ensures
            r.x == rate_from_raw(self@.gyro[0], offset.x as int, sens.spec_range_dps()),
            r.y == rate_from_raw(self@.gyro[1], offset.y as int, sens.spec_range_dps()),
            r.z == rate_from_raw(self@.gyro[2], offset.z as int, sens.spec_range_dps()),
    {
        let range: u16 = sens.range_dps();
        Vector3 {
            x: scale_raw(self.raw_gyro[0], offset.x, range, ONE),
            y: scale_raw(self.raw_gyro[1], offset.y, range, ONE),
            z: scale_raw(self.raw_gyro[2], offset.z, range, ONE),
        }
    }
}

} // verus!
