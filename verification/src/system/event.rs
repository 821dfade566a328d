//! The events tasks raise and the orchestrator routes.
//!
//! The bus carries transitions only. Progress text does not travel on it: producers
//! publish their phase, percent and result through the activity state.

use vstd::prelude::*;

use crate::task::io::flash_storage::{CalibrationDataKind, CalibrationKind};

verus! {

/// Source of an obstacle edge.
#[derive(Debug, Clone, Copy, PartialEq, Eq, Structural)]
pub enum ObstacleSource {
    /// The spinning LiDAR.
    Lidar,
}

/// Direction of a rotary encoder turn.
#[derive(Debug, Clone, Copy, PartialEq, Eq, Structural)]
pub enum RotaryDirection {
    /// One detent clockwise.
    Clockwise,
    /// One detent counter-clockwise.
    CounterClockwise,
}

/// Events that can occur during robot operation.
#[derive(Debug, Clone, Copy, PartialEq, Eq, Structural)]
pub enum Events {
    /// System initialisation was requested.
    Initialize,
    /// Flash answered a request for calibration data; `None` when it has none.
    CalibrationDataLoaded(CalibrationKind, Option<CalibrationDataKind>),
    /// The obstacle flag changed. This is an edge: a handler reads the flag for the
    /// current state.
    ObstacleDetected {
        /// Sensor that changed the flag.
        source: ObstacleSource,
    },
    /// The floor-drop state changed.
    FloorDropDetected {
        /// Whether the floor has dropped away.
        detected: bool,
    },
    /// An avoidance manoeuvre was completed.
    ObstacleAvoidanceAttempted,
    /// The battery was measured.
    BatteryMeasured {
        /// Charge level in percent.
        level: u8,
        /// Voltage in millivolts.
        voltage_mv: u32,
    },
    /// A run-to-completion test finished.
    TestingCompleted,
    /// A calibration procedure finished, well or badly.
    CalibrationCompleted,
    /// A LiDAR scan finished.
    LidarScanCompleted,
    /// A rangefinder reading was published.
    RangefinderReading,
    /// The rotary encoder was turned.
    RotaryTurned(RotaryDirection),
    /// The rotary button was pressed and released.
    RotaryButtonPressed,
    /// The rotary button was held down long enough to count as a hold.
    RotaryButtonHoldStart,
    /// A held rotary button was released.
    RotaryButtonHoldEnd,
}

} // verus!
