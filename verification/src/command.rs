//! Commands for the two drive motors.

use crate::ratio::Ratio;
use vstd::prelude::*;

verus! {

/// One command for one motor.
#[derive(Clone, Copy, Debug, PartialEq, Eq, Structural)]
pub enum MotorCommand {
    /// Open-loop output as a signed byte; the motor takes -127 to 127 as
    /// full reverse to full forward.
    RawOutput(i8),
    /// Open-loop output as a fraction of full power, from -1 to 1.
    Output(Ratio),
    /// Closed-loop move by `degrees` from the current position, run at
    /// `speed`.
    PositionRelative { degrees: Ratio, speed: i32 },
    /// Active braking: the motor resists motion instead of coasting.
    Brake,
}

impl MotorCommand {
    /// This is the byte output `level`.
    pub open spec fn is_raw_output(self, level: int) -> bool {
        self matches MotorCommand::RawOutput(b) && b == level
    }

    /// This is the output `num / den`, in that representation.
    pub open spec fn is_output(self, num: int, den: int) -> bool {
        self matches MotorCommand::Output(r) && r.num == num && r.den == den
    }

    /// This is a relative move by `degrees` at `speed`.
    pub open spec fn is_position_relative(self, degrees: Ratio, speed: int) -> bool {
        self matches MotorCommand::PositionRelative { degrees: d, speed: s } && d == degrees && s
            == speed
    }
}

/// The commands of one call, one for each side of the chassis.
#[derive(Clone, Copy, Debug, PartialEq, Eq, Structural)]
pub struct DriveCommand {
    pub left: MotorCommand,
    pub right: MotorCommand,
}

/// A side of the chassis.
#[derive(Clone, Copy, Debug, PartialEq, Eq, Structural)]
pub enum Side {
    Left,
    Right,
}

/// The signed byte congruent to `v` modulo 256.
pub open spec fn wrap_byte(v: int) -> int {
    let m = v % 256;
    if m < 128 {
        m
    } else {
        m - 256
    }
}

/// Reduces an integer to the signed byte that keeps its low eight bits.
pub fn to_byte(v: i64) -> (b: i8)
    ensures
        b == wrap_byte(v as int),
{
    let m: i64 = v % 256;
    let m: i64 = if m < 0 {
        m + 256
    } else {
        m
    };
    if m < 128 {
        m as i8
    } else {
        (m - 256) as i8
    }
}

} // verus!
