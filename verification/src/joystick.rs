//! The stick processors: three ways of turning the deflection of an analog
//! stick into output.
//!
//! `CameraStick` gives a pointer velocity that grows with the deflection,
//! `FlickStick` snaps to the angle that the stick is flicked to and then
//! follows its rotation, and `ButtonStick` holds down direction and ring
//! keys.

pub mod button;
pub mod camera;
pub mod flick;

pub use button::ButtonStick;
pub use camera::CameraStick;
pub use flick::FlickStick;

use vstd::prelude::*;
use crate::fixed::{
    clamp, is_sqrt_floor, lemma_sqrt_floor_compare, lemma_trunc_div_at_least,
    lemma_trunc_div_at_most, trunc_div,
};
use crate::vector::FINE;

verus! {

/// The dead zone of the default tuning, `0.15`.
pub const DEFAULT_DEADZONE: i32 = 150_000;

/// The full zone of the default tuning, `0.9`.
pub const DEFAULT_FULLZONE: i32 = 900_000;

/// `1.0` as a zone value. Zone values are carried on a scale ten thousand
/// million times finer than millionths, so that powers of them lose nothing
/// that shows in a millionth.
pub const ZONE_ONE: i64 = 10_000_000_000_000_000;

/// How far a deflection of the fine length `amp` has come from the dead zone
/// to the full zone: `(amp - deadzone) / (fullzone - deadzone)`, not yet
/// limited to `[0, 1]`.
pub open spec fn zone(amp: int, deadzone: int, fullzone: int) -> int {
    trunc_div((amp - deadzone * FINE) * ZONE_ONE, (fullzone - deadzone) * FINE)
}

/// The zone value limited to `[0, 1]`.
pub open spec fn amp_clamped(amp: int, deadzone: int, fullzone: int) -> int {
    clamp(zone(amp, deadzone, fullzone), 0, ZONE_ONE as int)
}

/// The stick is pinned to the edge, that is the zone value is at least one,
/// exactly when the deflection has reached the full zone; a deflection that
/// has not left the dead zone has the clamped zone value zero; and one that
/// has left it has a clamped zone value above zero.
pub proof fn lemma_zone_ends(amp: int, deadzone: int, fullzone: int)
    requires
        deadzone < fullzone,
    ensures
        zone(amp, deadzone, fullzone) >= ZONE_ONE <==> amp >= fullzone * FINE,
        amp_clamped(amp, deadzone, fullzone) >= ZONE_ONE <==> amp >= fullzone * FINE,
        amp <= deadzone * FINE ==> amp_clamped(amp, deadzone, fullzone) == 0,
        amp > deadzone * FINE && (fullzone - deadzone) * FINE <= ZONE_ONE ==> amp_clamped(
            amp,
            deadzone,
            fullzone,
        ) > 0,
{
    let width = (fullzone - deadzone) * FINE;
    let above = amp - deadzone * FINE;
    let n = above * ZONE_ONE;
    if amp >= fullzone * FINE {
        assert(n >= ZONE_ONE * width) by (nonlinear_arith)
            requires
                n == above * ZONE_ONE,
                above >= width,
        ;
        lemma_trunc_div_at_least(n, width, ZONE_ONE as int);
    } else {
        assert(n < ZONE_ONE * width) by (nonlinear_arith)
            requires
                n == above * ZONE_ONE,
                above <= width - 1,
        ;
        if n >= 0 {
            assert(n / width < ZONE_ONE) by (nonlinear_arith)
                requires
                    0 <= n < ZONE_ONE * width,
                    width > 0,
            ;
        }
    }
    if amp <= deadzone * FINE {
        lemma_trunc_div_at_most(n, width, 0);
    }
    if amp > deadzone * FINE && width <= ZONE_ONE {
        assert(n >= 1 * width) by (nonlinear_arith)
            requires
                n == above * ZONE_ONE,
                above >= 1,
                width <= ZONE_ONE,
        ;
        lemma_trunc_div_at_least(n, width, 1);
    }
}

/// A deflection is shorter than a length exactly when its squared length is
/// below the square of that length, whatever the fine length has lost to
/// rounding.
pub proof fn lemma_fine_length(norm_sq: int, amp: int, length: int)
    requires
        is_sqrt_floor(norm_sq * (FINE * FINE), amp),
        0 <= length,
    ensures
        amp < length * FINE <==> norm_sq < length * length,
        amp >= length * FINE <==> norm_sq >= length * length,
{
    let t = length * FINE;
    assert(t * t == (length * length) * (FINE * FINE)) by (nonlinear_arith)
        requires
            t == length * FINE,
    ;
    assert(norm_sq < length * length <==> norm_sq * (FINE * FINE) < (length * length) * (FINE
        * FINE)) by (nonlinear_arith);
    lemma_sqrt_floor_compare(norm_sq * (FINE * FINE), amp, t);
}

/// A deflection whose squared length is below the square of the dead zone
/// has the clamped zone value zero.
pub proof fn lemma_dead_zone(norm_sq: int, amp: int, deadzone: int, fullzone: int)
    requires
        is_sqrt_floor(norm_sq * (FINE * FINE), amp),
        0 <= deadzone < fullzone,
        norm_sq < deadzone * deadzone,
    ensures
        amp < deadzone * FINE,
        amp_clamped(amp, deadzone, fullzone) == 0,
{
    lemma_fine_length(norm_sq, amp, deadzone);
    lemma_zone_ends(amp, deadzone, fullzone);
}

/// The clamped zone value of a deflection of the fine length `amp`.
pub fn clamped_zone(amp: u64, deadzone: i32, fullzone: i32) -> (r: i64)
    requires
        deadzone < fullzone,
    ensures
        r == amp_clamped(amp as int, deadzone as int, fullzone as int),
        0 <= r <= ZONE_ONE,
{
    let width: i128 = (fullzone as i128 - deadzone as i128) * 1_000_000;
    let above: i128 = amp as i128 - deadzone as i128 * 1_000_000;
    assert(-0x2_0000_0000_0000_0000 * 10_000_000_000_000_000 <= above * 10_000_000_000_000_000
        <= 0x2_0000_0000_0000_0000 * 10_000_000_000_000_000) by (nonlinear_arith)
        requires
            -0x2_0000_0000_0000_0000 <= above <= 0x2_0000_0000_0000_0000,
    ;
    let raw: i128 = (above * 10_000_000_000_000_000) / width;
    if raw < 0 {
        0
    } else if raw > 10_000_000_000_000_000 {
        ZONE_ONE
    } else {
        raw as i64
    }
}

} // verus!
