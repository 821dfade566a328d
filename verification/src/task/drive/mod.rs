//! Drive commands and their outcomes.
//!
//! Lengths are micrometres, rotations microdegrees, speeds percent.

use vstd::prelude::*;

pub mod calibration;

verus! {

/// Which way to drive.
#[derive(Debug, Clone, Copy, PartialEq, Eq, Structural)]
pub enum DriveDirection {
    Forward,
    Backward,
}

/// Which way an arc bends.
#[derive(Debug, Clone, Copy, PartialEq, Eq, Structural)]
pub enum TurnDirection {
    Left,
    Right,
}

/// Which way to rotate.
#[derive(Debug, Clone, Copy, PartialEq, Eq, Structural)]
pub enum RotationDirection {
    Clockwise,
    CounterClockwise,
}

/// The shape of a measured drive.
#[derive(Debug, Clone, Copy, PartialEq, Eq, Structural)]
pub enum DriveDistanceKind {
    /// A straight line.
    Straight { distance_um: u32 },
    /// An arc of a circle.
    CurveArc { radius_um: u32, arc_length_um: u32, direction: TurnDirection },
}

/// What the drive does.
#[derive(Debug, Clone, Copy, PartialEq, Eq, Structural)]
pub enum DriveAction {
    /// Brake.
    Brake,
    /// Run free.
    Coast,
    /// Do nothing for a while.
    Idle { duration_ms: u64 },
    /// Drive a measured distance.
    DriveDistance { kind: DriveDistanceKind, direction: DriveDirection, speed: u8 },
    /// Rotate in place by a measured angle.
    RotateExact { rotation_udeg: u32, towards: RotationDirection, speed: u8 },
}

/// What interrupts a drive in flight.
#[derive(Debug, Clone, Copy, PartialEq, Eq, Structural)]
pub enum InterruptKind {
    /// The operator asked to stop.
    Stop,
    /// Something is in the way, or the floor is missing.
    EmergencyBrake,
}

/// How a queue of drive actions ended.
#[derive(Debug, Clone, Copy, PartialEq, Eq)]
pub enum CompletionStatus {
    /// Every step reached its target.
    Success,
    /// The queue was cancelled.
    Cancelled,
    /// A step failed, and why.
    Failed(&'static str),
}

} // verus!
