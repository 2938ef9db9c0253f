//! Arcade-drive mixing: two stick demands in, two wheel speeds out.
//!
//! A demand is an integer count of some unit of full power. Mixing only
//! adds, subtracts, negates and compares, so its outputs are exact counts of
//! the same unit, whatever that unit is.

use crate::numeric::{cube, magnitude, spec_cube};
use vstd::math::{abs, max};
use vstd::prelude::*;

verus! {

/// The largest count a joystick axis reports; it stands for full deflection.
pub const AXIS_MAX: i8 = 127;

/// The number of mixing units that make up full power.
///
/// A shaped forward demand is twice the cube of the axis count and a shaped
/// turn demand is the cube itself, so with full deflection at 127 full power
/// is `2 * 127 * 127 * 127` units.
pub const MIX_SCALE: i64 = 4_096_766;

/// Wheel speeds produced by mixing, in the unit of the demands mixed.
///
/// The sign gives the direction and the magnitude the intensity.
#[derive(Clone, Copy, Debug, PartialEq, Eq, Structural)]
pub struct MixResult {
    pub left: i64,
    pub right: i64,
}

/// The larger of the two magnitudes of a pair of demands.
pub open spec fn dominant(x: int, y: int) -> int {
    max(abs(x) as int, abs(y) as int)
}

/// Left wheel speed for turn demand `x` and forward demand `y`, by the
/// quadrant of `(x, y)`.
pub open spec fn mix_left(x: int, y: int) -> int {
    if x >= 0 {
        if y >= 0 {
            dominant(x, y)
        } else {
            x + y
        }
    } else {
        if y >= 0 {
            x + y
        } else {
            -dominant(x, y)
        }
    }
}

/// Right wheel speed for turn demand `x` and forward demand `y`, by the
/// quadrant of `(x, y)`.
pub open spec fn mix_right(x: int, y: int) -> int {
    if x >= 0 {
        if y >= 0 {
            y - x
        } else {
            -dominant(x, y)
        }
    } else {
        if y >= 0 {
            dominant(x, y)
        } else {
            abs(x) - abs(y)
        }
    }
}

/// Mixes a turn demand `x` and a forward demand `y` into wheel speeds.
///
/// | quadrant         | left             | right            |
/// |------------------|------------------|------------------|
/// | `x >= 0, y >= 0` | `max(|x|, |y|)`  | `y - x`          |
/// | `x >= 0, y < 0`  | `x + y`          | `-max(|x|, |y|)` |
/// | `x < 0, y >= 0`  | `x + y`          | `max(|x|, |y|)`  |
/// | `x < 0, y < 0`   | `-max(|x|, |y|)` | `|x| - |y|`      |
pub fn mix(x: i32, y: i32) -> (speeds: MixResult)
    ensures
        speeds.left == mix_left(x as int, y as int),
        speeds.right == mix_right(x as int, y as int),
{
    let x: i64 = x as i64;
    let y: i64 = y as i64;
    let ax: i64 = magnitude(x);
    let ay: i64 = magnitude(y);
    let top: i64 = if ax >= ay {
        ax
    } else {
        ay
    };
    if x >= 0 {
        if y >= 0 {
            MixResult { left: top, right: y - x }
        } else {
            MixResult { left: x + y, right: -top }
        }
    } else {
        if y >= 0 {
            MixResult { left: x + y, right: top }
        } else {
            MixResult { left: -top, right: ax - ay }
        }
    }
}

/// Forward demand of a stick's vertical axis, in units of `1 / MIX_SCALE`.
///
/// The axis count is cubed, which flattens the response near the centre and
/// keeps the sign; the factor two brings it to the common unit.
pub open spec fn spec_shape_forward(axis: int) -> int {
    2 * spec_cube(axis)
}

/// Turn demand of a stick's horizontal axis, in units of `1 / MIX_SCALE`.
///
/// The axis count is cubed and then halved, so a turn is half as sensitive
/// as forward drive; in the common unit the halved cube is the cube itself.
pub open spec fn spec_shape_turn(axis: int) -> int {
    spec_cube(axis)
}

/// Shapes a vertical axis count into a forward demand.
pub fn shape_forward(axis: i8) -> (demand: i32)
    ensures
        demand == spec_shape_forward(axis as int),
{
    proof {
        lemma_axis_cube_bound(axis as int);
    }
    let c: i64 = cube(axis as i16);
    (2 * c) as i32
}

/// Shapes a horizontal axis count into a turn demand.
pub fn shape_turn(axis: i8) -> (demand: i32)
    ensures
        demand == spec_shape_turn(axis as int),
{
    proof {
        lemma_axis_cube_bound(axis as int);
    }
    let c: i64 = cube(axis as i16);
    c as i32
}

/// Full deflection shapes into full power forward and half power in turn.
pub proof fn lemma_full_deflection()
    ensures
        spec_shape_forward(AXIS_MAX as int) == MIX_SCALE,
        2 * spec_shape_turn(AXIS_MAX as int) == MIX_SCALE,
        spec_shape_forward(-(AXIS_MAX as int)) == -MIX_SCALE,
        2 * spec_shape_turn(-(AXIS_MAX as int)) == -MIX_SCALE,
{
    assert(spec_cube(127) == 2_048_383) by (nonlinear_arith);
    assert(spec_cube(-127) == -2_048_383) by (nonlinear_arith);
}

/// The cube of any 8-bit count lies within `128 * 128 * 128` of zero.
pub proof fn lemma_axis_cube_bound(axis: int)
    requires
        -128 <= axis <= 127,
    ensures
        -2_097_152 <= spec_cube(axis) <= 2_097_152,
{
    crate::numeric::lemma_cube_bound(abs(axis) as int, 128);
    if axis < 0 {
        assert(spec_cube(axis) == -spec_cube(-axis)) by (nonlinear_arith);
    }
}

/// Axis counts within full deflection shape into demands within full power.
pub proof fn lemma_in_range_demands(turn_axis: int, forward_axis: int)
    requires
        -127 <= turn_axis <= 127,
        -127 <= forward_axis <= 127,
    ensures
        abs(spec_shape_turn(turn_axis)) <= MIX_SCALE,
        abs(spec_shape_forward(forward_axis)) <= MIX_SCALE,
{
    crate::numeric::lemma_cube_bound(abs(turn_axis) as int, 127);
    crate::numeric::lemma_cube_bound(abs(forward_axis) as int, 127);
    if turn_axis < 0 {
        assert(spec_cube(turn_axis) == -spec_cube(-turn_axis)) by (nonlinear_arith);
    }
    if forward_axis < 0 {
        assert(spec_cube(forward_axis) == -spec_cube(-forward_axis)) by (nonlinear_arith);
    }
}

/// Neither wheel speed exceeds in magnitude the sum of the magnitudes of
/// the two demands.
pub proof fn lemma_mix_within_sum(x: int, y: int)
    ensures
        abs(mix_left(x, y)) <= abs(x) + abs(y),
        abs(mix_right(x, y)) <= abs(x) + abs(y),
{
}

/// Demands within `limit` of zero give wheel speeds within `limit` of zero:
/// no quadrant pushes a wheel beyond full power.
pub proof fn lemma_mix_within_limit(x: int, y: int, limit: int)
    requires
        abs(x) <= limit,
        abs(y) <= limit,
    ensures
        abs(mix_left(x, y)) <= limit,
        abs(mix_right(x, y)) <= limit,
{
}

/// Reversing both demands reverses both wheel speeds.
pub proof fn lemma_mix_reflection(x: int, y: int)
    ensures
        mix_left(-x, -y) == -mix_left(x, y),
        mix_right(-x, -y) == -mix_right(x, y),
{
}

/// Mixing does not depend on the unit: demands scaled by a non-negative
/// factor give wheel speeds scaled by the same factor.
pub proof fn lemma_mix_scales(k: int, x: int, y: int)
    requires
        k >= 0,
    ensures
        mix_left(k * x, k * y) == k * mix_left(x, y),
        mix_right(k * x, k * y) == k * mix_right(x, y),
{
    assert(k * x >= 0 <==> (x >= 0 || k == 0)) by (nonlinear_arith)
        requires
            k >= 0,
    ;
    assert(k * y >= 0 <==> (y >= 0 || k == 0)) by (nonlinear_arith)
        requires
            k >= 0,
    ;
    assert(abs(k * x) == k * abs(x)) by (nonlinear_arith)
        requires
            k >= 0,
    ;
    assert(abs(k * y) == k * abs(y)) by (nonlinear_arith)
        requires
            k >= 0,
    ;
    assert(k * abs(x) >= k * abs(y) <==> (abs(x) >= abs(y) || k == 0)) by (nonlinear_arith)
        requires
            k >= 0,
    ;
    assert(k * (x + y) == k * x + k * y) by (nonlinear_arith);
    assert(k * (y - x) == k * y - k * x) by (nonlinear_arith);
    assert(k * (abs(x) - abs(y)) == k * abs(x) - k * abs(y)) by (nonlinear_arith);
    assert(k * (-abs(x)) == -(k * abs(x))) by (nonlinear_arith);
    assert(k * (-abs(y)) == -(k * abs(y))) by (nonlinear_arith);
}

} // verus!
