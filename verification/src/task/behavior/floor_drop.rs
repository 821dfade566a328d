//! Floor drops.

use vstd::prelude::*;

use crate::system::state::perception;
use crate::system::state::perception::PerceptionState;
use crate::task::drive::InterruptKind;

verus! {

/// Take a change of the floor: the flag follows it, and a drop brakes the drive.
/// Returns the interrupt to send. The indicator shows the flag.
pub fn handle_floor_drop_detected(
    perception: &mut PerceptionState,
    detected: bool,
) -> (interrupt: Option<InterruptKind>)
    ensures
        final(perception).drop_ahead() == detected,
        final(perception).obstacle() == old(perception).obstacle(),
        final(perception).cloud() == old(perception).cloud(),
        interrupt == (if detected {
            Some(InterruptKind::EmergencyBrake)
        } else {
            None
        }),
{
    perception::set_floor_drop(perception, detected);
    if detected {
        Some(InterruptKind::EmergencyBrake)
    } else {
        None
    }
}

/// A drop brakes the drive and sets the flag; solid floor only clears it. The obstacle flag
/// is not concerned.
pub proof fn law_drop_brakes(
    perception: &mut PerceptionState,
    detected: bool,
    interrupt: Option<InterruptKind>,
)
    requires
        call_ensures(handle_floor_drop_detected, (perception, detected), interrupt),
    ensures
        interrupt == Some(InterruptKind::EmergencyBrake) <==> detected,
        interrupt is None <==> !detected,
        final(perception).drop_ahead() == detected,
        final(perception).obstacle() == old(perception).obstacle(),
{
}

} // verus!
