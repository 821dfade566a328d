//! The rotary encoder: turns and its button.

use vstd::prelude::*;

use crate::system::event::{Events, RotaryDirection};

verus! {

/// How long a press must last to count as a hold, in milliseconds.
pub const HOLD_DURATION_MS: u64 = 700;

/// Window in which further turns are dropped, in milliseconds.
pub const TURN_DEBOUNCE_MS: u64 = 50;

/// Time after which a press must still be there, in milliseconds.
pub const DEBOUNCE_DURATION_MS: u64 = 30;

/// The time that has passed between two times; none if the clock went back.
pub open spec fn elapsed(since_ms: u64, now_ms: u64) -> int {
    if now_ms >= since_ms {
        now_ms - since_ms
    } else {
        0
    }
}

/// Turns, debounced.
#[derive(Debug, Clone, Copy, PartialEq, Eq, Structural)]
pub struct TurnDebounce {
    /// When the last turn was let through, in milliseconds since boot.
    pub last_turn_ms: u64,
}

impl TurnDebounce {
    /// Before the first turn.
    pub fn new() -> (debounce: Self)
        ensures
            debounce.last_turn_ms == 0,
    {
        TurnDebounce { last_turn_ms: 0 }
    }

    /// Take a turn, returning the event to raise, unless the last turn is too recent.
    pub fn on_turn(&mut self, direction: RotaryDirection, now_ms: u64) -> (event: Option<Events>)
        ensures
            if elapsed(old(self).last_turn_ms, now_ms) < TURN_DEBOUNCE_MS {
                event is None && *final(self) == *old(self)
            } else {
                event == Some(Events::RotaryTurned(direction)) && final(self).last_turn_ms == now_ms
            },
    {
        let passed: u64 = if now_ms >= self.last_turn_ms {
            now_ms - self.last_turn_ms
        } else {
            0
        };
        if passed < TURN_DEBOUNCE_MS {
            return None;
        }
        self.last_turn_ms = now_ms;
        Some(Events::RotaryTurned(direction))
    }
}

/// What the button is waiting for.
#[derive(Debug, Clone, Copy, PartialEq, Eq, Structural)]
pub enum ButtonState {
    /// A press.
    Released,
    /// The debounce time to pass.
    Settling,
    /// A release, or the hold time to pass.
    Pressed,
    /// A release.
    Held,
}

/// What happened to the button.
#[derive(Debug, Clone, Copy, PartialEq, Eq, Structural)]
pub enum ButtonInput {
    /// It was pressed.
    Down,
    /// The debounce time has passed, and whether it is still pressed.
    Settled(bool),
    /// The hold time has passed.
    HoldTime,
    /// It was released.
    Up,
}

/// The button's next state and the event to raise. An input that the state does not
/// wait for changes nothing.
pub open spec fn button_next(state: ButtonState, input: ButtonInput) -> (ButtonState, Option<Events>) {
    match (state, input) {
        (ButtonState::Released, ButtonInput::Down) => (ButtonState::Settling, None),
        (ButtonState::Settling, ButtonInput::Settled(true)) => (ButtonState::Pressed, None),
        (ButtonState::Settling, ButtonInput::Settled(false)) => (ButtonState::Released, None),
        (ButtonState::Pressed, ButtonInput::HoldTime) => (
            ButtonState::Held,
            Some(Events::RotaryButtonHoldStart),
        ),
        (ButtonState::Pressed, ButtonInput::Up) => (
            ButtonState::Released,
            Some(Events::RotaryButtonPressed),
        ),
        (ButtonState::Held, ButtonInput::Up) => (
            ButtonState::Released,
            Some(Events::RotaryButtonHoldEnd),
        ),
        _ => (state, None),
    }
}

impl ButtonState {
    /// Take what happened to the button, returning the event to raise.
    pub fn on_input(&mut self, input: ButtonInput) -> (event: Option<Events>)
        ensures
            (*final(self), event) == button_next(*old(self), input),
    {
        match (*self, input) {
            (ButtonState::Released, ButtonInput::Down) => {
                *self = ButtonState::Settling;
                None
            },
            (ButtonState::Settling, ButtonInput::Settled(pressed)) => {
                *self = if pressed {
                    ButtonState::Pressed
                } else {
                    ButtonState::Released
                };
                None
            },
            (ButtonState::Pressed, ButtonInput::HoldTime) => {
                *self = ButtonState::Held;
                Some(Events::RotaryButtonHoldStart)
            },
            (ButtonState::Pressed, ButtonInput::Up) => {
                *self = ButtonState::Released;
                Some(Events::RotaryButtonPressed)
            },
            (ButtonState::Held, ButtonInput::Up) => {
                *self = ButtonState::Released;
                Some(Events::RotaryButtonHoldEnd)
            },
            _ => None,
        }
    }
}

/// A press that lasts is a hold and nothing else; one that does not is a press and
/// nothing else; a glitch is neither.
pub proof fn law_press_or_hold()
    ensures
        ({
            let settling = button_next(ButtonState::Released, ButtonInput::Down).0;
            let glitch = button_next(settling, ButtonInput::Settled(false));
            let pressed = button_next(settling, ButtonInput::Settled(true)).0;
            let short = button_next(pressed, ButtonInput::Up);
            let held = button_next(pressed, ButtonInput::HoldTime);
            let released = button_next(held.0, ButtonInput::Up);
            &&& glitch == (ButtonState::Released, None::<Events>)
            &&& short == (ButtonState::Released, Some(Events::RotaryButtonPressed))
            &&& held.1 == Some(Events::RotaryButtonHoldStart)
            &&& released == (ButtonState::Released, Some(Events::RotaryButtonHoldEnd))
        }),
{
}

/// Two turns that are let through are at least the debounce window apart.
pub proof fn law_turns_are_apart(last_turn_ms: u64, now_ms: u64)
    requires
        elapsed(last_turn_ms, now_ms) >= TURN_DEBOUNCE_MS,
    ensures
        now_ms >= last_turn_ms + TURN_DEBOUNCE_MS,
{
}

/// Every event of the button has one cause: a hold begins when the hold time passes, and
/// a release ends a hold or else is a press. Nothing else raises an event.
pub proof fn law_button_events_have_one_cause(state: ButtonState, input: ButtonInput)
    ensures
        button_next(state, input).1 == Some(Events::RotaryButtonHoldStart) <==> state is Pressed
            && input is HoldTime,
        button_next(state, input).1 == Some(Events::RotaryButtonPressed) <==> state is Pressed
            && input is Up,
        button_next(state, input).1 == Some(Events::RotaryButtonHoldEnd) <==> state is Held
            && input is Up,
        button_next(state, input).1 is None <==> !(input is Up && (state is Pressed
            || state is Held)) && !(input is HoldTime && state is Pressed),
        input is Up && (state is Pressed || state is Held) ==> button_next(
            state,
            input,
        ).0 is Released,
        state is Released && input !is Down ==> button_next(state, input).0 is Released,
{
}

/// A turn within fifty milliseconds of the last one is too recent, and no later one is.
pub proof fn law_debounce_window(last_turn_ms: u64, now_ms: u64)
    ensures
        elapsed(last_turn_ms, now_ms) < TURN_DEBOUNCE_MS <==> now_ms < last_turn_ms + 50,
{
}

/// A turn is let through where the last one is fifty milliseconds back, in the direction it
/// had; a dropped one does not move the window.
pub proof fn law_turns_are_let_through(
    debounce: &mut TurnDebounce,
    direction: RotaryDirection,
    now_ms: u64,
    event: Option<Events>,
)
    requires
        call_ensures(TurnDebounce::on_turn, (debounce, direction, now_ms), event),
    ensures
        event is None <==> now_ms < old(debounce).last_turn_ms + 50,
        event is None ==> *final(debounce) == *old(debounce),
        event is Some ==> event == Some(Events::RotaryTurned(direction)),
        event is Some ==> final(debounce).last_turn_ms == now_ms,
{
}

} // verus!
