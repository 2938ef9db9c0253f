use arcade_drive::command::{to_byte, DriveCommand, MotorCommand};
use arcade_drive::controller::{ControllerInput, Joystick};
use arcade_drive::drivebase::{drive_outputs, Drivebase, UM_PER_MM};
use arcade_drive::kinematics::{PI_DEN, PI_NUM};
use arcade_drive::mixing::{MixResult, MIX_SCALE};
use arcade_drive::ratio::Ratio;

fn robot() -> Drivebase {
    Drivebase::new(319_500, 305_000, Ratio { num: 5, den: 1 }).unwrap()
}

fn sticks(left_y: i8, right_x: i8) -> ControllerInput {
    ControllerInput {
        left: Joystick { x: 0, y: left_y },
        right: Joystick { x: right_x, y: 0 },
    }
}

fn level(command: MotorCommand) -> f32 {
    match command {
        MotorCommand::Output(r) => r.num as f32 / r.den as f32,
        other => panic!("not an output: {:?}", other),
    }
}

#[test]
fn new_keeps_the_geometry() {
    let d = robot();
    assert_eq!(d.circumference_um, 319_500);
    assert_eq!(d.axle_track_um, 305_000);
    assert_eq!(d.gear_ratio, Ratio { num: 5, den: 1 });
    assert_eq!(UM_PER_MM, 1000);
}

#[test]
fn new_rejects_lengths_that_are_not_positive() {
    let gear = Ratio { num: 1, den: 1 };
    assert_eq!(Drivebase::new(0, 305_000, gear), None);
    assert_eq!(Drivebase::new(319_500, 0, gear), None);
    assert_eq!(Drivebase::new(-1, 305_000, gear), None);
    assert_eq!(Drivebase::new(319_500, -1, gear), None);
    assert!(Drivebase::new(1, 1, gear).is_some());
}

#[test]
fn to_byte_keeps_the_low_eight_bits() {
    for v in -1000i64..=1000 {
        assert_eq!(to_byte(v), v as i8);
    }
    assert_eq!(to_byte(127), 127);
    assert_eq!(to_byte(128), -128);
    assert_eq!(to_byte(200), -56);
    assert_eq!(to_byte(-200), 56);
    assert_eq!(to_byte(256), 0);
    assert_eq!(to_byte(i64::MAX), -1);
    assert_eq!(to_byte(i64::MIN), 0);
}

#[test]
fn move_speed_mirrors_the_sides() {
    let d = robot();
    assert_eq!(
        d.move_speed(100),
        DriveCommand {
            left: MotorCommand::RawOutput(-100),
            right: MotorCommand::RawOutput(100),
        }
    );
    assert_eq!(
        d.move_speed(-127),
        DriveCommand {
            left: MotorCommand::RawOutput(127),
            right: MotorCommand::RawOutput(-127),
        }
    );
}

#[test]
fn move_speed_reduces_to_a_byte() {
    let d = robot();
    assert_eq!(
        d.move_speed(200),
        DriveCommand {
            left: MotorCommand::RawOutput(56),
            right: MotorCommand::RawOutput(-56),
        }
    );
    assert_eq!(
        d.move_speed(128),
        DriveCommand {
            left: MotorCommand::RawOutput(-128),
            right: MotorCommand::RawOutput(-128),
        }
    );
    assert_eq!(
        d.move_speed(i32::MIN),
        DriveCommand {
            left: MotorCommand::RawOutput(0),
            right: MotorCommand::RawOutput(0),
        }
    );
    for speed in [-70_000i32, -300, -129, -128, -1, 1, 127, 129, 255, 256, 70_000] {
        let cmd = d.move_speed(speed);
        assert_eq!(cmd.left, MotorCommand::RawOutput((-speed) as i8));
        assert_eq!(cmd.right, MotorCommand::RawOutput(speed as i8));
    }
}

#[test]
fn zero_speed_commands_zero_output() {
    let zero = DriveCommand {
        left: MotorCommand::RawOutput(0),
        right: MotorCommand::RawOutput(0),
    };
    assert_eq!(robot().move_speed(0), zero);
    assert_eq!(robot().turn_speed(0), zero);
    // the result does not depend on what was commanded before
    let d = robot();
    let _ = d.move_speed(90);
    let _ = d.turn_speed(-90);
    assert_eq!(d.move_speed(0), zero);
    assert_eq!(d.turn_speed(0), zero);
}

#[test]
fn turn_speed_gives_both_sides_the_same_output() {
    let d = robot();
    assert_eq!(
        d.turn_speed(64),
        DriveCommand {
            left: MotorCommand::RawOutput(64),
            right: MotorCommand::RawOutput(64),
        }
    );
    assert_eq!(
        d.turn_speed(-300),
        DriveCommand {
            left: MotorCommand::RawOutput(-44),
            right: MotorCommand::RawOutput(-44),
        }
    );
}

#[test]
fn stop_brakes_both_motors() {
    let cmd = robot().stop();
    assert_eq!(cmd.left, MotorCommand::Brake);
    assert_eq!(cmd.right, MotorCommand::Brake);
}

#[test]
fn brake_is_not_an_output_of_zero() {
    let cmd = robot().stop();
    assert_ne!(cmd.left, MotorCommand::RawOutput(0));
    assert_ne!(cmd.right, MotorCommand::RawOutput(0));
    assert_ne!(cmd, robot().move_speed(0));
    assert_ne!(cmd, robot().turn_speed(0));
    assert_ne!(cmd.left, MotorCommand::Output(Ratio { num: 0, den: 1 }));
}

#[test]
fn move_distance_targets_the_rotation_on_both_sides() {
    let d = robot();
    let degrees = Ratio { num: 360 * 1000 * 639, den: 319_500 };
    assert_eq!(
        d.move_distance(50, 639),
        DriveCommand {
            left: MotorCommand::PositionRelative { degrees, speed: -50 },
            right: MotorCommand::PositionRelative { degrees, speed: 50 },
        }
    );
    // 639 mm are two circumferences of 319.5 mm
    assert_eq!(degrees.num, 720 * degrees.den);
}

#[test]
fn move_distance_backwards_and_at_the_limits() {
    let d = robot();
    let degrees = Ratio { num: -360_000 * 100, den: 319_500 };
    assert_eq!(
        d.move_distance(-20, -100),
        DriveCommand {
            left: MotorCommand::PositionRelative { degrees, speed: 20 },
            right: MotorCommand::PositionRelative { degrees, speed: -20 },
        }
    );
    let far = d.move_distance(i32::MAX, i32::MIN);
    let degrees = Ratio { num: 360_000 * (i32::MIN as i128), den: 319_500 };
    assert_eq!(
        far,
        DriveCommand {
            left: MotorCommand::PositionRelative { degrees, speed: -i32::MAX },
            right: MotorCommand::PositionRelative { degrees, speed: i32::MAX },
        }
    );
}

#[test]
fn turn_degrees_targets_the_same_rotation_at_the_same_speed() {
    let d = robot();
    let degrees = Ratio { num: PI_NUM * 305_000 * 90, den: PI_DEN * 319_500 };
    let cmd = d.turn_degrees(40, 90);
    assert_eq!(
        cmd,
        DriveCommand {
            left: MotorCommand::PositionRelative { degrees, speed: 40 },
            right: MotorCommand::PositionRelative { degrees, speed: 40 },
        }
    );
    let pi = std::f32::consts::PI as f64;
    let expected = (pi * 305.0 / (360.0 / 90.0)) / 319.5 * 360.0;
    let got = degrees.num as f64 / degrees.den as f64;
    assert!((got - expected).abs() < 1e-9);
}

#[test]
fn turn_degrees_to_the_other_side() {
    let d = robot();
    let degrees = Ratio { num: -PI_NUM * 305_000 * 45, den: PI_DEN * 319_500 };
    assert_eq!(
        d.turn_degrees(i32::MIN, -45),
        DriveCommand {
            left: MotorCommand::PositionRelative { degrees, speed: i32::MIN },
            right: MotorCommand::PositionRelative { degrees, speed: i32::MIN },
        }
    );
}

#[test]
fn drive_outputs_reverse_the_left_side() {
    assert_eq!(
        drive_outputs(MixResult { left: 5, right: -7 }),
        DriveCommand {
            left: MotorCommand::Output(Ratio { num: -5, den: MIX_SCALE as i128 }),
            right: MotorCommand::Output(Ratio { num: -7, den: MIX_SCALE as i128 }),
        }
    );
    assert_eq!(
        drive_outputs(MixResult { left: i64::MIN, right: i64::MAX }),
        DriveCommand {
            left: MotorCommand::Output(Ratio { num: -(i64::MIN as i128), den: MIX_SCALE as i128 }),
            right: MotorCommand::Output(Ratio { num: i64::MAX as i128, den: MIX_SCALE as i128 }),
        }
    );
}

#[test]
fn full_forward_drives_straight() {
    // left.y = 1.0, right.x = 0.0
    let cmd = robot().arcade_drive(&sticks(127, 0));
    assert_eq!(
        cmd,
        DriveCommand {
            left: MotorCommand::Output(Ratio { num: -4_096_766, den: 4_096_766 }),
            right: MotorCommand::Output(Ratio { num: 4_096_766, den: 4_096_766 }),
        }
    );
    assert_eq!(level(cmd.left), -1.0);
    assert_eq!(level(cmd.right), 1.0);
}

#[test]
fn full_turn_pivots() {
    // left.y = 0.0, right.x = 1.0: the turn demand is half of full power
    let cmd = robot().arcade_drive(&sticks(0, 127));
    assert_eq!(
        cmd,
        DriveCommand {
            left: MotorCommand::Output(Ratio { num: -2_048_383, den: 4_096_766 }),
            right: MotorCommand::Output(Ratio { num: -2_048_383, den: 4_096_766 }),
        }
    );
    assert_eq!(level(cmd.left), -0.5);
    assert_eq!(level(cmd.right), -0.5);
}

#[test]
fn centred_sticks_command_no_power() {
    let cmd = robot().arcade_drive(&sticks(0, 0));
    assert_eq!(level(cmd.left), 0.0);
    assert_eq!(level(cmd.right), 0.0);
}

#[test]
fn arcade_drive_in_each_quadrant() {
    let den = MIX_SCALE as i128;
    // y = 2 * 10^3 = 2000, x = 20^3 = 8000
    let cmd = robot().arcade_drive(&sticks(10, 20));
    assert_eq!(cmd.left, MotorCommand::Output(Ratio { num: -8000, den }));
    assert_eq!(cmd.right, MotorCommand::Output(Ratio { num: -6000, den }));
    // y = -2000, x = 8000
    let cmd = robot().arcade_drive(&sticks(-10, 20));
    assert_eq!(cmd.left, MotorCommand::Output(Ratio { num: -6000, den }));
    assert_eq!(cmd.right, MotorCommand::Output(Ratio { num: -8000, den }));
    // y = 2000, x = -8000
    let cmd = robot().arcade_drive(&sticks(10, -20));
    assert_eq!(cmd.left, MotorCommand::Output(Ratio { num: 6000, den }));
    assert_eq!(cmd.right, MotorCommand::Output(Ratio { num: 8000, den }));
    // y = -2000, x = -8000
    let cmd = robot().arcade_drive(&sticks(-10, -20));
    assert_eq!(cmd.left, MotorCommand::Output(Ratio { num: 8000, den }));
    assert_eq!(cmd.right, MotorCommand::Output(Ratio { num: 6000, den }));
}

#[test]
fn arcade_drive_reads_only_the_two_drive_axes() {
    let a = ControllerInput {
        left: Joystick { x: 0, y: 50 },
        right: Joystick { x: -30, y: 0 },
    };
    let b = ControllerInput {
        left: Joystick { x: 99, y: 50 },
        right: Joystick { x: -30, y: -99 },
    };
    assert_eq!(robot().arcade_drive(&a), robot().arcade_drive(&b));
}

#[test]
fn outputs_stay_within_full_power() {
    let d = robot();
    for left_y in -127i8..=127 {
        for right_x in [-127i8, -100, -64, -1, 0, 1, 64, 100, 127] {
            let cmd = d.arcade_drive(&sticks(left_y, right_x));
            for side in [cmd.left, cmd.right] {
                match side {
                    MotorCommand::Output(r) => {
                        assert_eq!(r.den, MIX_SCALE as i128);
                        assert!(-r.den <= r.num && r.num <= r.den);
                    }
                    other => panic!("not an output: {:?}", other),
                }
            }
        }
    }
}

#[test]
fn outputs_agree_with_single_precision_mixing() {
    let d = robot();
    for left_y in [-127i8, -90, -33, 0, 1, 45, 127] {
        for right_x in [-127i8, -70, -2, 0, 15, 88, 127] {
            let y = (left_y as f32 / 127.0).powi(3);
            let x = (right_x as f32 / 127.0).powi(3) / 2.0;
            let (left, right) = if x >= 0.0 {
                if y >= 0.0 {
                    (x.abs().max(y.abs()), y - x)
                } else {
                    (x + y, -x.abs().max(y.abs()))
                }
            } else if y >= 0.0 {
                (x + y, x.abs().max(y.abs()))
            } else {
                (-x.abs().max(y.abs()), x.abs() - y.abs())
            };
            let cmd = d.arcade_drive(&sticks(left_y, right_x));
            assert!((level(cmd.left) - -left).abs() < 1e-6);
            assert!((level(cmd.right) - right).abs() < 1e-6);
        }
    }
}
