//! Explorer robot: the verified core of a tracked robot's firmware.
//!
//! The crate holds what the robot decides and computes. Everything that touches
//! a peripheral, a clock or an executor stays outside and hands plain values in.
//!
//! Quantities are integers throughout: bearings in microdegrees, ranges in
//! millimetres, factors in parts per million.

pub mod coin_d6;
pub mod lidar_cloud;
pub mod ranking;
pub mod system;
pub mod task;
