//! A snapshot of the operator's controller.

use crate::mixing::AXIS_MAX;
use vstd::prelude::*;

verus! {

/// One two-axis stick. Each axis is a signed count in which `AXIS_MAX`
/// stands for full deflection: right and up are positive.
#[derive(Clone, Copy, Debug, PartialEq, Eq, Structural)]
pub struct Joystick {
    pub x: i8,
    pub y: i8,
}

/// Both sticks as read in one poll.
#[derive(Clone, Copy, Debug, PartialEq, Eq, Structural)]
pub struct ControllerInput {
    pub left: Joystick,
    pub right: Joystick,
}

/// The count lies between full deflection one way and the other.
pub open spec fn axis_in_range(axis: int) -> bool {
    -(AXIS_MAX as int) <= axis <= AXIS_MAX as int
}

impl Joystick {
    /// Both axes are within full deflection.
    pub open spec fn in_range(self) -> bool {
        axis_in_range(self.x as int) && axis_in_range(self.y as int)
    }
}

impl ControllerInput {
    /// All four axes are within full deflection.
    pub open spec fn in_range(self) -> bool {
        self.left.in_range() && self.right.in_range()
    }
}

} // verus!
