//! The Motion and Indicator capabilities.

use vstd::prelude::*;

verus! {

/// A single motor; speeds count units of `FULL_SCALE`.
pub trait Motor {
    /// Drive the motor backwards.
    fn backward(speed: i32);

    /// Drive the motor forwards.
    fn forward(speed: i32);

    /// Reverse the current direction of the motor.
    fn reverse();

    /// Stop the motor.
    fn stop();
}

/// Robot motion; speeds count units of `FULL_SCALE`, from `-FULL_SCALE` to
/// `FULL_SCALE`.
pub trait Robot {
    /// Drive the robot backward by running both motors backward.
    fn backward(&mut self, speed: i32);

    /// Drive the robot forward by running both motors forward.
    fn forward(&mut self, speed: i32);

    /// Turn left: the right motor forward, the left one backward.
    fn left(&mut self, speed: i32);

    /// Turn right: the left motor forward, the right one backward.
    fn right(&mut self, speed: i32);

    /// Reverse the robot's current motor directions.
    fn reverse(&mut self);

    /// Stop the robot.
    fn stop(&mut self);
}

/// An indicator light.
pub trait Led {
    fn led_on(&mut self);

    fn led_off(&mut self);
}

} // verus!
