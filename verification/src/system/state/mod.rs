//! Shared state, one module per domain.

use vstd::prelude::*;

pub mod activity;
pub mod perception;

verus! {

/// Whether calibration data is known.
#[derive(Debug, Clone, Copy, PartialEq, Eq, Structural)]
pub enum CalibrationStatus {
    /// The data has not been asked for yet.
    NotLoaded,
    /// The data was loaded or stored.
    Loaded,
    /// Flash has no such data; a calibration run is needed.
    NotAvailable,
}

/// What is known of the calibrations, shared by the tasks.
#[derive(Debug, Clone, Copy, PartialEq, Eq, Structural)]
pub struct CalibrationState {
    /// Motor calibration.
    pub motor_cal_status: CalibrationStatus,
    /// IMU calibration flags.
    pub imu_cal_status: CalibrationStatus,
    /// Magnetometer calibration.
    pub mag_cal_status: CalibrationStatus,
    /// Distance calibration.
    pub distance_cal_status: CalibrationStatus,
    /// Distance factor in force, in parts per million.
    pub distance_factor_ppm: i32,
}

} // verus!
