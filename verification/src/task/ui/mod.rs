//! The touch panel's controller.

use vstd::prelude::*;

use crate::system::event::RotaryDirection;

pub mod controller;
pub mod gesture;

verus! {

/// An event for the panel.
#[derive(Debug, Clone, Copy, PartialEq, Eq, Structural)]
pub enum UiEvent {
    /// Show the main menu.
    ShowMainMenu,
    /// A test has finished.
    TestingCompleted,
    /// A calibration has finished; how is in the activity state.
    CalibrationCompleted,
    /// The distance calibration's drive has finished or failed.
    DistanceDriveFinished,
    /// The rotary encoder was turned.
    RotaryTurned(RotaryDirection),
    /// The rotary button was pressed and released.
    RotaryButtonPressed,
    /// The rotary button is held.
    RotaryButtonHoldStart,
    /// The held rotary button was released.
    RotaryButtonHoldEnd,
}

} // verus!
