//! Motion pipeline of a handheld motion controller used as a pointing device:
//! inertial frame decoding, orientation estimation, analog stick processing
//! and mixing into integer pointer and scroll deltas.

pub mod angle;
pub mod fixed;
pub mod imu;
pub mod joystick;
pub mod mapping;
pub mod mixer;
pub mod orientation;
pub mod pad;
pub mod session;
pub mod vector;
