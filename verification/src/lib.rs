//! Exact arithmetic for a teleoperated differential-drive chassis.
//!
//! Joystick readings, wheel geometry and motor commands are held as integers
//! and ratios of integers, so every formula of the drive is computed without
//! rounding and proved against its mathematical statement.

pub mod numeric;
pub mod ratio;
pub mod kinematics;
pub mod mixing;
pub mod command;
pub mod controller;
pub mod drivebase;
pub mod teleop;
