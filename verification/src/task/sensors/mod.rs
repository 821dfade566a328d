//! Sensors.

pub mod imu;
pub mod imu_task;
pub mod lidar;
pub mod lidar_stub;
pub mod vl53l0x_stub;
