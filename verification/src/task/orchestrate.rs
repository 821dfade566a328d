//! The event loop's routing.

use vstd::prelude::*;

use crate::system::event::{Events, ObstacleSource};
use crate::task::behavior::input;
use crate::task::io::flash_storage::{CalibrationDataKind, CalibrationKind};
use crate::task::ui::UiEvent;

verus! {

/// Who handles an event.
#[derive(Debug, Clone, Copy, PartialEq, Eq, Structural)]
pub enum Route {
    /// Initialisation begins.
    Initialize,
    /// Initialisation takes calibration data.
    CalibrationData(CalibrationKind, Option<CalibrationDataKind>),
    /// The panel.
    Ui(UiEvent),
    /// The battery behaviour.
    Battery {
        /// Charge level in percent.
        level: u8,
        /// Voltage in millivolts.
        voltage_mv: u32,
    },
    /// The obstacle behaviour.
    Obstacle(ObstacleSource),
    /// The obstacle behaviour, after an avoidance.
    ObstacleAvoided,
    /// The floor-drop behaviour.
    FloorDrop(bool),
    /// Nobody: consumers read the state themselves.
    Nobody,
}

/// Who handles an event.
pub open spec fn route_of(event: Events) -> Route {
    match event {
        Events::Initialize => Route::Initialize,
        Events::CalibrationDataLoaded(kind, data) => Route::CalibrationData(kind, data),
        Events::CalibrationCompleted => Route::Ui(UiEvent::CalibrationCompleted),
        Events::BatteryMeasured { level, voltage_mv } => Route::Battery { level, voltage_mv },
        Events::ObstacleDetected { source } => Route::Obstacle(source),
        Events::ObstacleAvoidanceAttempted => Route::ObstacleAvoided,
        Events::FloorDropDetected { detected } => Route::FloorDrop(detected),
        Events::RotaryTurned(direction) => Route::Ui(UiEvent::RotaryTurned(direction)),
        Events::RotaryButtonPressed => Route::Ui(UiEvent::RotaryButtonPressed),
        Events::RotaryButtonHoldStart => Route::Ui(UiEvent::RotaryButtonHoldStart),
        Events::RotaryButtonHoldEnd => Route::Ui(UiEvent::RotaryButtonHoldEnd),
        Events::TestingCompleted => Route::Ui(UiEvent::TestingCompleted),
        Events::LidarScanCompleted => Route::Nobody,
        Events::RangefinderReading => Route::Nobody,
    }
}

/// Route an event.
pub fn handle_event(event: Events) -> (route: Route)
    ensures
        route == route_of(event),
{
    match event {
        Events::Initialize => Route::Initialize,
        Events::CalibrationDataLoaded(kind, data) => Route::CalibrationData(kind, data),
        Events::CalibrationCompleted => Route::Ui(UiEvent::CalibrationCompleted),
        Events::BatteryMeasured { level, voltage_mv } => Route::Battery { level, voltage_mv },
        Events::ObstacleDetected { source } => Route::Obstacle(source),
        Events::ObstacleAvoidanceAttempted => Route::ObstacleAvoided,
        Events::FloorDropDetected { detected } => Route::FloorDrop(detected),
        Events::RotaryTurned(direction) => Route::Ui(input::handle_rotary_turned(direction)),
        Events::RotaryButtonPressed => Route::Ui(input::handle_rotary_button_pressed()),
        Events::RotaryButtonHoldStart => Route::Ui(input::handle_rotary_button_hold_start()),
        Events::RotaryButtonHoldEnd => Route::Ui(input::handle_rotary_button_hold_end()),
        Events::TestingCompleted => Route::Ui(UiEvent::TestingCompleted),
        Events::LidarScanCompleted => Route::Nobody,
        Events::RangefinderReading => Route::Nobody,
    }
}

/// The event that starts the system.
pub fn startup() -> (event: Events)
    ensures
        event == Events::Initialize,
{
    Events::Initialize
}

/// Every event the panel shows reaches it under its own name, and the events of the
/// sensors keep what they carry.
pub proof fn law_events_reach_their_handler(event: Events)
    ensures
        route_of(event) == Route::Ui(UiEvent::CalibrationCompleted)
            <==> event is CalibrationCompleted,
        route_of(event) == Route::Ui(UiEvent::TestingCompleted) <==> event is TestingCompleted,
        route_of(event) == Route::Ui(UiEvent::RotaryButtonPressed)
            <==> event is RotaryButtonPressed,
        route_of(event) == Route::Ui(UiEvent::RotaryButtonHoldStart)
            <==> event is RotaryButtonHoldStart,
        route_of(event) == Route::Ui(UiEvent::RotaryButtonHoldEnd)
            <==> event is RotaryButtonHoldEnd,
        event matches Events::RotaryTurned(direction) ==> route_of(event) == Route::Ui(
            UiEvent::RotaryTurned(direction),
        ),
        event matches Events::FloorDropDetected { detected } ==> route_of(event)
            == Route::FloorDrop(detected),
        event matches Events::ObstacleDetected { source } ==> route_of(event) == Route::Obstacle(
            source,
        ),
        event is ObstacleAvoidanceAttempted <==> route_of(event) is ObstacleAvoided,
        event matches Events::CalibrationDataLoaded(kind, data) ==> route_of(event)
            == Route::CalibrationData(kind, data),
        event matches Events::BatteryMeasured { level, voltage_mv } ==> route_of(event) == (
        Route::Battery { level, voltage_mv }),
        event is Initialize <==> route_of(event) is Initialize,
        event is LidarScanCompleted || event is RangefinderReading <==> route_of(event) is Nobody,
{
}

} // verus!
