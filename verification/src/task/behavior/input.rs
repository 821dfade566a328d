//! Input.

use vstd::prelude::*;

use crate::system::event::RotaryDirection;
use crate::task::ui::UiEvent;

verus! {

/// A turn goes to the panel.
pub fn handle_rotary_turned(direction: RotaryDirection) -> (event: UiEvent)
    ensures
        event == UiEvent::RotaryTurned(direction),
{
    UiEvent::RotaryTurned(direction)
}

/// A press goes to the panel.
pub fn handle_rotary_button_pressed() -> (event: UiEvent)
    ensures
        event == UiEvent::RotaryButtonPressed,
{
    UiEvent::RotaryButtonPressed
}

/// The start of a hold goes to the panel.
pub fn handle_rotary_button_hold_start() -> (event: UiEvent)
    ensures
        event == UiEvent::RotaryButtonHoldStart,
{
    UiEvent::RotaryButtonHoldStart
}

/// The end of a hold goes to the panel.
pub fn handle_rotary_button_hold_end() -> (event: UiEvent)
    ensures
        event == UiEvent::RotaryButtonHoldEnd,
{
    UiEvent::RotaryButtonHoldEnd
}

} // verus!
