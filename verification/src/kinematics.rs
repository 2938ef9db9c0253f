//! Wheel geometry: how far a wheel must rotate for the chassis to travel a
//! distance or to turn on the spot.
//!
//! Lengths are integer counts of any one unit; a rotation comes out as an
//! exact ratio of degrees.

use crate::ratio::Ratio;
use vstd::prelude::*;

verus! {

/// Numerator of the library's value of pi.
///
/// `PI_NUM / PI_DEN` is the single-precision constant nearest to pi,
/// `3.1415927410125732421875`, written as a fraction.
pub const PI_NUM: i128 = 13_176_795;

/// Denominator of the library's value of pi, `2` to the power `22`.
pub const PI_DEN: i128 = 4_194_304;

/// Degrees in one full rotation.
pub const FULL_TURN: i128 = 360;

/// Rotation of a wheel of the given circumference that rolls `distance`:
/// `distance / circumference * 360` degrees.
pub open spec fn spec_distance_to_degrees(distance: int, circumference: int) -> Ratio {
    Ratio::of(FULL_TURN * distance, circumference)
}

/// Rotation of each wheel for the chassis to turn `turn_degrees` on the spot.
///
/// Each wheel runs along a circle whose diameter is the axle track, so it
/// travels the arc `pi * axle_track / (360 / turn_degrees)`, and a wheel
/// that rolls an arc rotates `arc / circumference * 360` degrees. The two
/// factors of 360 cancel: the rotation is
/// `pi * axle_track * turn_degrees / circumference`.
pub open spec fn spec_turn_angle_to_degrees(
    turn_degrees: int,
    axle_track: int,
    circumference: int,
) -> Ratio {
    Ratio::of(PI_NUM * axle_track * turn_degrees, PI_DEN * circumference)
}

/// Converts a travelled distance into wheel rotation.
///
/// `distance` and `circumference` are counts of the same unit of length. The
/// circumference of a wheel is never zero.
pub fn distance_to_degrees(distance: i64, circumference: i64) -> (degrees: Ratio)
    requires
        circumference != 0,
    ensures
        degrees == spec_distance_to_degrees(distance as int, circumference as int),
        degrees.is_quotient(360 * distance, circumference as int),
{
    let n: i128 = FULL_TURN * (distance as i128);
    Ratio::quotient(n, circumference as i128)
}

/// Converts a turn of the chassis on the spot into wheel rotation.
///
/// `axle_track` and `circumference` are counts of the same unit of length.
/// A turn of zero degrees has no arc ratio `360 / turn_degrees` and is not a
/// turn request; the circumference of a wheel is never zero.
pub fn turn_angle_to_degrees(turn_degrees: i32, axle_track: i64, circumference: i64) -> (degrees:
    Ratio)
    requires
        turn_degrees != 0,
        circumference != 0,
    ensures
        degrees == spec_turn_angle_to_degrees(
            turn_degrees as int,
            axle_track as int,
            circumference as int,
        ),
        degrees.is_quotient(
            PI_NUM * axle_track * turn_degrees,
            PI_DEN * circumference,
        ),
{
    proof {
        lemma_turn_terms_fit(turn_degrees as int, axle_track as int, circumference as int);
    }
    let swept: i128 = (axle_track as i128) * (turn_degrees as i128);
    let n: i128 = PI_NUM * swept;
    let d: i128 = PI_DEN * (circumference as i128);
    assert(n == PI_NUM * axle_track * turn_degrees) by (nonlinear_arith)
        requires
            n == PI_NUM * (axle_track * turn_degrees),
    ;
    Ratio::quotient(n, d)
}

/// The products formed for a turn fit comfortably in 128 bits.
proof fn lemma_turn_terms_fit(turn_degrees: int, axle_track: int, circumference: int)
    requires
        i32::MIN <= turn_degrees <= i32::MAX,
        i64::MIN <= axle_track <= i64::MAX,
        i64::MIN <= circumference <= i64::MAX,
        circumference != 0,
    ensures
        -0x4000_0000_0000_0000_0000_0000 <= axle_track * turn_degrees
            <= 0x4000_0000_0000_0000_0000_0000,
        -0x4000_0000_0000_0000_0000_0000_0000_0000 <= PI_NUM * (axle_track * turn_degrees)
            <= 0x4000_0000_0000_0000_0000_0000_0000_0000,
        -0x4000_0000_0000_0000_0000_0000 <= PI_DEN * circumference
            <= 0x4000_0000_0000_0000_0000_0000,
        PI_DEN * circumference != 0,
{
    assert(-0x4000_0000_0000_0000_0000_0000 <= axle_track * turn_degrees
        <= 0x4000_0000_0000_0000_0000_0000) by (nonlinear_arith)
        requires
            -0x8000_0000 <= turn_degrees <= 0x8000_0000,
            -0x8000_0000_0000_0000 <= axle_track <= 0x8000_0000_0000_0000,
    ;
    assert(PI_DEN * circumference != 0) by (nonlinear_arith)
        requires
            circumference != 0,
            PI_DEN == 4_194_304,
    ;
}

/// A wheel that rolls exactly its own circumference makes one full
/// rotation: 360 degrees.
pub proof fn lemma_one_circumference_is_full_rotation(circumference: int)
    requires
        i64::MIN <= circumference <= i64::MAX,
        circumference != 0,
    ensures
        spec_distance_to_degrees(circumference, circumference).is_integer(360),
{
    let r = spec_distance_to_degrees(circumference, circumference);
    Ratio::lemma_of_is_quotient(FULL_TURN * circumference, circumference);
    r.lemma_quotient_of_multiple(360, circumference);
}

/// The rotation for a turn is the rotation for the arc that the wheel
/// travels: with the arc `pi * axle_track / (360 / turn_degrees)` written as
/// the fraction `(pi * axle_track * turn_degrees) / 360`, the result has the
/// value of `arc / circumference * 360`.
pub proof fn lemma_turn_is_rotation_of_arc(turn_degrees: int, axle_track: int, circumference: int)
    requires
        i32::MIN <= turn_degrees <= i32::MAX,
        i64::MIN <= axle_track <= i64::MAX,
        i64::MIN <= circumference <= i64::MAX,
        turn_degrees != 0,
        circumference != 0,
    ensures
        spec_turn_angle_to_degrees(turn_degrees, axle_track, circumference).is_quotient(
            (PI_NUM * axle_track * turn_degrees) * 360,
            (PI_DEN * 360) * circumference,
        ),
{
    lemma_turn_terms_fit(turn_degrees, axle_track, circumference);
    let n = PI_NUM * axle_track * turn_degrees;
    let d = PI_DEN * circumference;
    assert(n == PI_NUM * (axle_track * turn_degrees)) by (nonlinear_arith)
        requires
            n == PI_NUM * axle_track * turn_degrees,
    ;
    Ratio::lemma_of_is_quotient(n, d);
    let r = spec_turn_angle_to_degrees(turn_degrees, axle_track, circumference);
    assert(r.num * ((PI_DEN * 360) * circumference) == (n * 360) * r.den) by (nonlinear_arith)
        requires
            r.num * d == n * r.den,
            d == PI_DEN * circumference,
    ;
    assert((PI_DEN * 360) * circumference != 0) by (nonlinear_arith)
        requires
            circumference != 0,
            PI_DEN == 4_194_304,
    ;
}

/// A full turn of the chassis, 360 degrees, makes each wheel travel
/// `pi * axle_track`, so each wheel rotates
/// `pi * axle_track / circumference * 360` degrees.
pub proof fn lemma_full_turn(axle_track: int, circumference: int)
    requires
        i64::MIN <= axle_track <= i64::MAX,
        i64::MIN <= circumference <= i64::MAX,
        circumference != 0,
    ensures
        spec_turn_angle_to_degrees(360, axle_track, circumference).is_quotient(
            PI_NUM * axle_track * 360,
            PI_DEN * circumference,
        ),
{
    lemma_turn_terms_fit(360, axle_track, circumference);
    let n = PI_NUM * axle_track * 360;
    assert(n == PI_NUM * (axle_track * 360)) by (nonlinear_arith)
        requires
            n == PI_NUM * axle_track * 360,
    ;
    Ratio::lemma_of_is_quotient(n, PI_DEN * circumference);
}

} // verus!
