//! Obstacles.

use vstd::prelude::*;

use crate::system::state::perception;
use crate::system::state::perception::PerceptionState;
use crate::task::drive::InterruptKind;

verus! {

/// Take a change of the obstacle flag. The event is an edge, so the flag itself is
/// read. Returns what the indicator shows and the interrupt to send: an obstacle brakes
/// the drive in every mode.
pub fn handle_obstacle_detected(
    perception: &PerceptionState,
) -> (outcome: (bool, Option<InterruptKind>))
    ensures
        outcome.0 == perception.obstacle(),
        outcome.1 == (if perception.obstacle() {
            Some(InterruptKind::EmergencyBrake)
        } else {
            None
        }),
{
    let obstacle = perception::is_obstacle_detected(perception);
    if obstacle {
        (true, Some(InterruptKind::EmergencyBrake))
    } else {
        (false, None)
    }
}

/// An avoidance manoeuvre is done. Returns what the indicator shows.
pub fn handle_obstacle_avoidance_attempted() -> (indicator: bool)
    ensures
        !indicator,
{
    false
}

/// An obstacle brakes the drive and lights the indicator; without one, neither.
pub proof fn law_obstacle_brakes(
    perception: &PerceptionState,
    outcome: (bool, Option<InterruptKind>),
    indicator: bool,
)
    requires
        call_ensures(handle_obstacle_detected, (perception,), outcome),
        call_ensures(handle_obstacle_avoidance_attempted, (), indicator),
    ensures
        outcome.0 <==> perception.obstacle(),
        outcome.1 == Some(InterruptKind::EmergencyBrake) <==> perception.obstacle(),
        outcome.1 is None <==> !perception.obstacle(),
        !indicator,
{
}

} // verus!
