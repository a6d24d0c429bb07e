//! Device control core for a small robot: a register-protocol driver for the
//! PicoBorg Reverse motor board, a bit-banged driver for a Blinkt LED strip,
//! the Motion / Indicator capabilities over them, and the request dispatcher.
//!
//! The drivers never touch a bus or a pin themselves: they encode what is to
//! be sent (bus transfers, clock-pulse data levels) and decode what comes back,
//! and the caller carries the values to the hardware.

pub mod blinkt;
pub mod level;
pub mod picoborg_rev;
pub mod robot_server;
pub mod robot_traits;
pub mod spare_parts;
