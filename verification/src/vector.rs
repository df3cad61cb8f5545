//! Small integer vectors.

use vstd::prelude::*;
use crate::fixed::{is_sqrt_floor, isqrt, isqrt_wide, sqrt_floor};

verus! {

/// One reading of an analog stick. Each axis is in millionths of full
/// deflection, so a stick on its rim reads `1_000_000` along that axis.
#[derive(Clone, Copy, Debug, PartialEq, Eq, Structural)]
pub struct Stick {
    pub x: i32,
    pub y: i32,
}

/// The number of fine units in a millionth: a fine length counts millionths
/// of a millionth of full deflection.
pub const FINE: i64 = 1_000_000;

/// A planar vector in millionths of a unit.
#[derive(Clone, Copy, Debug, PartialEq, Eq, Structural)]
pub struct Vector2 {
    pub x: i64,
    pub y: i64,
}

/// A vector of raw sensor counts.
#[derive(Clone, Copy, Debug, PartialEq, Eq, Structural)]
pub struct RawVector3 {
    pub x: i32,
    pub y: i32,
    pub z: i32,
}

/// A spatial vector in millionths of a unit.
#[derive(Clone, Copy, Debug, PartialEq, Eq, Structural)]
pub struct Vector3 {
    pub x: i64,
    pub y: i64,
    pub z: i64,
}

/// Rotations about the three axes, in millionths of a degree.
#[derive(Clone, Copy, Debug, PartialEq, Eq, Structural)]
pub struct Euler {
    pub x: i64,
    pub y: i64,
    pub z: i64,
}

impl Stick {
    /// The squared length of the deflection.
    pub open spec fn norm_sq(self) -> int {
        self.x * self.x + self.y * self.y
    }

    /// The length of the deflection, rounded down to a whole millionth.
    pub open spec fn norm(self) -> int {
        sqrt_floor(self.norm_sq())
    }

    /// The length of the deflection on the fine scale, rounded down to a
    /// whole fine unit.
    pub open spec fn fine_norm(self) -> int {
        sqrt_floor(self.norm_sq() * (FINE * FINE))
    }

    /// The squared length of the deflection.
    pub fn magnitude2(self) -> (r: u64)
        ensures
            r == self.norm_sq(),
            r <= 0x8000_0000_0000_0000,
    {
        let x: i64 = self.x as i64;
        let y: i64 = self.y as i64;
        assert(0 <= x * x <= 0x4000_0000_0000_0000) by (nonlinear_arith)
            requires
                -0x8000_0000 <= x <= 0x8000_0000,
        ;
        assert(0 <= y * y <= 0x4000_0000_0000_0000) by (nonlinear_arith)
            requires
                -0x8000_0000 <= y <= 0x8000_0000,
        ;
        (x * x) as u64 + (y * y) as u64
    }

    /// The length of the deflection, rounded down to a whole millionth.
    pub fn magnitude(self) -> (r: u32)
        ensures
            r == self.norm(),
            is_sqrt_floor(self.norm_sq(), r as int),
    {
        isqrt(self.magnitude2())
    }

    /// The length of the deflection on the fine scale, rounded down to a
    /// whole fine unit.
    pub fn magnitude_fine(self) -> (r: u64)
        ensures
            r == self.fine_norm(),
            is_sqrt_floor(self.norm_sq() * (FINE * FINE), r as int),
    {
        let squared: u128 = self.magnitude2() as u128;
        assert(squared * 1_000_000_000_000 <= 0x8000_0000_0000_0000 * 1_000_000_000_000)
            by (nonlinear_arith)
            requires
                0 <= squared <= 0x8000_0000_0000_0000,
        ;
        isqrt_wide(squared * 1_000_000_000_000)
    }
}

impl Vector2 {
    /// The zero vector.
    pub fn zero() -> (r: Vector2)
        ensures
            r == (Vector2 { x: 0, y: 0 }),
    {
        Vector2 { x: 0, y: 0 }
    }
}

} // verus!
