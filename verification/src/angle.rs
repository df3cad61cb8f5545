//! Angles in millionths of a degree.

use vstd::prelude::*;

verus! {

/// A quarter turn, 90 degrees.
pub const QUARTER_TURN: i64 = 90_000_000;

/// Half a turn, 180 degrees.
pub const HALF_TURN: i64 = 180_000_000;

/// A full turn, 360 degrees.
pub const FULL_TURN: i64 = 360_000_000;

/// The largest magnitude of an angular rate that the pipeline accepts, in
/// millionths of a degree per second: a million degrees per second.
pub const RATE_LIMIT: i64 = 1_000_000_000_000;

/// The angle in `[0, 360)` degrees that differs from `a` by whole turns.
pub open spec fn normalized(a: int) -> int {
    a % 360_000_000
}

/// The angle in `(-180, 180]` degrees that differs from `a` by whole turns.
pub open spec fn normalized_signed(a: int) -> int {
    let r = a % 360_000_000;
    if r > 180_000_000 {
        r - 360_000_000
    } else {
        r
    }
}

/// Normalizes an angle to `[0, 360)` degrees.
pub fn normalize(a: i64) -> (r: i64)
    ensures
        r == normalized(a as int),
        0 <= r < FULL_TURN,
{
    let rem: i64 = a % FULL_TURN;
    if rem < 0 {
        rem + FULL_TURN
    } else {
        rem
    }
}

/// Normalizes an angle to `(-180, 180]` degrees.
pub fn normalize_signed(a: i64) -> (r: i64)
    ensures
        r == normalized_signed(a as int),
        -HALF_TURN < r <= HALF_TURN,
{
    let rem: i64 = normalize(a);
    if HALF_TURN < rem {
        rem - FULL_TURN
    } else {
        rem
    }
}

} // verus!
