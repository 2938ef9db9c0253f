//! The drivebase: wheel geometry, and the motor commands of each movement.
//!
//! The two drive motors are mounted mirrored. Driving straight therefore
//! takes opposite signs on the two sides, and turning on the spot the same
//! sign.

use crate::command::{to_byte, wrap_byte, DriveCommand, MotorCommand};
use crate::controller::ControllerInput;
use crate::kinematics::{
    distance_to_degrees, spec_distance_to_degrees, spec_turn_angle_to_degrees,
    turn_angle_to_degrees, PI_DEN, PI_NUM,
};
use crate::mixing::{
    lemma_axis_cube_bound, lemma_in_range_demands, lemma_mix_within_limit, mix, mix_left,
    mix_right, shape_forward, shape_turn, spec_shape_forward, spec_shape_turn, MixResult,
    MIX_SCALE,
};
use crate::ratio::Ratio;
use vstd::prelude::*;

verus! {

/// Micrometres in a millimetre.
pub const UM_PER_MM: i64 = 1000;

/// The geometry of a two-wheel differential drive.
#[derive(Clone, Copy, Debug, PartialEq, Eq, Structural)]
pub struct Drivebase {
    /// Wheel circumference in micrometres.
    pub circumference_um: i64,
    /// Distance between the contact points of the two wheels, in
    /// micrometres.
    pub axle_track_um: i64,
    /// Gearing between motor and wheel.
    pub gear_ratio: Ratio,
}

/// The two motor outputs that a controller snapshot asks for.
///
/// The forward demand `y` comes from the left stick's vertical axis and the
/// turn demand `x` from the right stick's horizontal axis. The left motor
/// takes the mixed left speed reversed, the right motor the mixed right
/// speed, each as a fraction of `MIX_SCALE`.
pub open spec fn spec_arcade_drive(controller: ControllerInput) -> DriveCommand {
    let x = spec_shape_turn(controller.right.x as int);
    let y = spec_shape_forward(controller.left.y as int);
    DriveCommand {
        left: MotorCommand::Output(Ratio::of(-mix_left(x, y), MIX_SCALE as int)),
        right: MotorCommand::Output(Ratio::of(mix_right(x, y), MIX_SCALE as int)),
    }
}

/// Turns mixed wheel speeds into the two motor outputs: the left speed
/// reversed over `MIX_SCALE` and the right speed over `MIX_SCALE`.
pub fn drive_outputs(speeds: MixResult) -> (cmd: DriveCommand)
    ensures
        cmd.left.is_output(-speeds.left, MIX_SCALE as int),
        cmd.right.is_output(speeds.right as int, MIX_SCALE as int),
{
    DriveCommand {
        left: MotorCommand::Output(Ratio { num: -(speeds.left as i128), den: MIX_SCALE as i128 }),
        right: MotorCommand::Output(Ratio { num: speeds.right as i128, den: MIX_SCALE as i128 }),
    }
}

impl Drivebase {
    /// Circumference and axle track are positive.
    pub open spec fn wf(self) -> bool {
        self.circumference_um > 0 && self.axle_track_um > 0
    }

    /// Describes a drivebase, if the lengths are those of a real chassis:
    /// both positive.
    pub fn new(circumference_um: i64, axle_track_um: i64, gear_ratio: Ratio) -> (made: Option<
        Drivebase,
    >)
        ensures
            made == (if circumference_um > 0 && axle_track_um > 0 {
                Some(Drivebase { circumference_um, axle_track_um, gear_ratio })
            } else {
                None
            }),
            made matches Some(d) ==> d.wf(),
    {
        if circumference_um > 0 && axle_track_um > 0 {
            Some(Drivebase { circumference_um, axle_track_um, gear_ratio })
        } else {
            None
        }
    }

    /// Drives straight at an open-loop output.
    ///
    /// The left motor takes `-speed` and the right motor `speed`, each
    /// reduced to a signed byte. A speed that is a byte already, other than
    /// -128, is passed on as it is; a speed of zero commands zero output.
    pub fn move_speed(&self, speed: i32) -> (cmd: DriveCommand)
        ensures
            cmd.left.is_raw_output(wrap_byte(-speed)),
            cmd.right.is_raw_output(wrap_byte(speed as int)),
            -127 <= speed <= 127 ==> cmd.left.is_raw_output(-speed) && cmd.right.is_raw_output(
                speed as int,
            ),
            speed == 0 ==> cmd.left == MotorCommand::RawOutput(0) && cmd.right
                == MotorCommand::RawOutput(0),
    {
        DriveCommand {
            left: MotorCommand::RawOutput(to_byte(-(speed as i64))),
            right: MotorCommand::RawOutput(to_byte(speed as i64)),
        }
    }

    /// Drives straight for `distance` millimetres.
    ///
    /// Both motors are sent the rotation that rolls a wheel over the
    /// distance, `distance / circumference * 360` degrees; the left motor
    /// runs it at `-speed`, the right motor at `speed`. The least `i32` has
    /// no mirrored speed and cannot be commanded.
    pub fn move_distance(&self, speed: i32, distance: i32) -> (cmd: DriveCommand)
        requires
            self.wf(),
            speed > i32::MIN,
        ensures
            cmd.left.is_position_relative(
                spec_distance_to_degrees(UM_PER_MM * distance, self.circumference_um as int),
                -speed,
            ),
            cmd.right.is_position_relative(
                spec_distance_to_degrees(UM_PER_MM * distance, self.circumference_um as int),
                speed as int,
            ),
            spec_distance_to_degrees(
                UM_PER_MM * distance,
                self.circumference_um as int,
            ).is_quotient(360 * (UM_PER_MM * distance), self.circumference_um as int),
    {
        let travelled: i64 = UM_PER_MM * (distance as i64);
        let degrees = distance_to_degrees(travelled, self.circumference_um);
        DriveCommand {
            left: MotorCommand::PositionRelative { degrees, speed: -speed },
            right: MotorCommand::PositionRelative { degrees, speed },
        }
    }

    /// Turns on the spot at an open-loop output: both motors take `speed`,
    /// reduced to a signed byte. A speed that is a byte already is passed
    /// on as it is; a speed of zero commands zero output.
    pub fn turn_speed(&self, speed: i32) -> (cmd: DriveCommand)
        ensures
            cmd.left.is_raw_output(wrap_byte(speed as int)),
            cmd.right.is_raw_output(wrap_byte(speed as int)),
            -128 <= speed <= 127 ==> cmd.left.is_raw_output(speed as int)
                && cmd.right.is_raw_output(speed as int),
            speed == 0 ==> cmd.left == MotorCommand::RawOutput(0) && cmd.right
                == MotorCommand::RawOutput(0),
    {
        let level: i8 = to_byte(speed as i64);
        DriveCommand { left: MotorCommand::RawOutput(level), right: MotorCommand::RawOutput(level) }
    }

    /// Turns the chassis on the spot by `turn` degrees.
    ///
    /// Both motors are sent the same rotation,
    /// `pi * axle_track * turn / circumference` degrees, at the same
    /// `speed`. A turn of zero degrees is not a turn request.
    pub fn turn_degrees(&self, speed: i32, turn: i32) -> (cmd: DriveCommand)
        requires
            self.wf(),
            turn != 0,
        ensures
            cmd.left.is_position_relative(
                spec_turn_angle_to_degrees(
                    turn as int,
                    self.axle_track_um as int,
                    self.circumference_um as int,
                ),
                speed as int,
            ),
            cmd.right == cmd.left,
            spec_turn_angle_to_degrees(
                turn as int,
                self.axle_track_um as int,
                self.circumference_um as int,
            ).is_quotient(PI_NUM * self.axle_track_um * turn, PI_DEN * self.circumference_um),
    {
        let degrees = turn_angle_to_degrees(turn, self.axle_track_um, self.circumference_um);
        DriveCommand {
            left: MotorCommand::PositionRelative { degrees, speed },
            right: MotorCommand::PositionRelative { degrees, speed },
        }
    }

    /// Brakes both motors.
    ///
    /// A brake command is a kind of its own: it is not an output of zero.
    pub fn stop(&self) -> (cmd: DriveCommand)
        ensures
            cmd.left == MotorCommand::Brake,
            cmd.right == MotorCommand::Brake,
            !cmd.left.is_raw_output(0) && !cmd.right.is_raw_output(0),
    {
        DriveCommand { left: MotorCommand::Brake, right: MotorCommand::Brake }
    }

    /// Mixes one controller snapshot into the two motor outputs.
    ///
    /// The forward demand is the cube of the left stick's vertical axis and
    /// the turn demand half the cube of the right stick's horizontal axis,
    /// each as a fraction of full deflection. The mixed left speed goes to
    /// the left motor reversed, the mixed right speed to the right motor.
    /// Sticks within full deflection never ask for more than full power.
    pub fn arcade_drive(&self, controller: &ControllerInput) -> (cmd: DriveCommand)
        ensures
            cmd == spec_arcade_drive(*controller),
            cmd.left.is_output(
                -mix_left(
                    spec_shape_turn(controller.right.x as int),
                    spec_shape_forward(controller.left.y as int),
                ),
                MIX_SCALE as int,
            ),
            cmd.right.is_output(
                mix_right(
                    spec_shape_turn(controller.right.x as int),
                    spec_shape_forward(controller.left.y as int),
                ),
                MIX_SCALE as int,
            ),
            controller.in_range() ==> (cmd.left matches MotorCommand::Output(level)
                && level.within_unit()) && (cmd.right matches MotorCommand::Output(level)
                && level.within_unit()),
    {
        let y: i32 = shape_forward(controller.left.y);
        let x: i32 = shape_turn(controller.right.x);
        proof {
            lemma_axis_cube_bound(controller.left.y as int);
            lemma_axis_cube_bound(controller.right.x as int);
            if controller.in_range() {
                lemma_in_range_demands(controller.right.x as int, controller.left.y as int);
                lemma_mix_within_limit(x as int, y as int, MIX_SCALE as int);
            }
        }
        let speeds = mix(x, y);
        drive_outputs(speeds)
    }
}

} // verus!
