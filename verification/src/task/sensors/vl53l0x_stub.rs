//! A stand-in for the downward rangefinder: floor and drop in turn.

use vstd::prelude::*;

use crate::system::event::Events;
use crate::system::state::perception;
use crate::system::state::perception::PerceptionState;

verus! {

/// Distance above which the floor has dropped away, in tenths of a centimetre.
pub const FLOOR_DROP_THRESHOLD: u32 = 400;

/// Reading over solid floor, in tenths of a centimetre.
pub const FLOOR_READING: u32 = 150;

/// Reading over a drop, in tenths of a centimetre.
pub const DROP_READING: u32 = 2_000;

/// Time between two readings, in milliseconds.
pub const SCAN_INTERVAL_MS: u64 = 500;

/// Whether a reading means that the floor has dropped away.
pub open spec fn is_drop(reading: u32) -> bool {
    reading > FLOOR_DROP_THRESHOLD
}

/// The flag and event a reading gives, where the flag last published is known: the
/// event is an edge.
pub fn publish_reading(
    reading: u32,
    last_detected: &mut Option<bool>,
    perception: &mut PerceptionState,
) -> (event: Option<Events>)
    ensures
        *final(last_detected) == Some(is_drop(reading)),
        final(perception).cloud() == old(perception).cloud(),
        final(perception).obstacle() == old(perception).obstacle(),
        if *old(last_detected) == Some(is_drop(reading)) {
            event is None && final(perception).drop_ahead() == old(perception).drop_ahead()
        } else {
            event == Some(Events::FloorDropDetected { detected: is_drop(reading) })
                && final(perception).drop_ahead() == is_drop(reading)
        },
{
    let detected = reading > FLOOR_DROP_THRESHOLD;
    let unchanged = match *last_detected {
        Some(last) => last == detected,
        None => false,
    };
    if unchanged {
        return None;
    }
    perception::set_floor_drop(perception, detected);
    *last_detected = Some(detected);
    Some(Events::FloorDropDetected { detected })
}

/// The stand-in.
#[derive(Debug, Clone, Copy, PartialEq, Eq, Structural)]
pub struct RangefinderStub {
    /// Whether the next reading is over floor.
    pub toggle: bool,
    /// The flag last published.
    pub last_detected: Option<bool>,
}

impl RangefinderStub {
    /// Before the first reading, which is over a drop.
    pub fn new() -> (stub: Self)
        ensures
            stub == (RangefinderStub { toggle: false, last_detected: None }),
    {
        RangefinderStub { toggle: false, last_detected: None }
    }

    /// Take the next reading and publish it, returning the reading and the event to
    /// raise.
    pub fn on_tick(&mut self, perception: &mut PerceptionState) -> (outcome: (u32, Option<Events>))
        ensures
            ({
                let reading = if old(self).toggle {
                    FLOOR_READING
                } else {
                    DROP_READING
                };
                &&& outcome.0 == reading
                &&& final(self).toggle == !old(self).toggle
                &&& final(self).last_detected == Some(is_drop(reading))
                &&& final(perception).cloud() == old(perception).cloud()
                &&& final(perception).obstacle() == old(perception).obstacle()
                &&& if old(self).last_detected == Some(is_drop(reading)) {
                    outcome.1 is None && final(perception).drop_ahead()
                        == old(perception).drop_ahead()
                } else {
                    outcome.1 == Some(Events::FloorDropDetected { detected: is_drop(reading) })
                        && final(perception).drop_ahead() == is_drop(reading)
                }
            }),
    {
        let reading = if self.toggle {
            FLOOR_READING
        } else {
            DROP_READING
        };
        self.toggle = !self.toggle;
        let event = publish_reading(reading, &mut self.last_detected, perception);
        (reading, event)
    }
}

/// The two readings of the stand-in differ in what they mean, so every one of them is
/// an edge.
pub proof fn law_readings_alternate()
    ensures
        !is_drop(FLOOR_READING),
        is_drop(DROP_READING),
{
}

/// The floor has dropped away exactly beyond forty centimetres, and no reading that is
/// farther than a drop is floor again.
pub proof fn law_drop_is_far(reading: u32, farther: u32)
    requires
        reading <= farther,
    ensures
        is_drop(reading) <==> reading > 400,
        is_drop(reading) ==> is_drop(farther),
{
}

/// Readings alternate between fifteen centimetres of floor and a drop of two metres, and
/// the flag that is published follows each.
pub proof fn law_ticks_alternate(
    stub: &mut RangefinderStub,
    perception: &mut PerceptionState,
    outcome: (u32, Option<Events>),
)
    requires
        call_ensures(RangefinderStub::on_tick, (stub, perception), outcome),
    ensures
        outcome.0 == (if old(stub).toggle {
            150int
        } else {
            2_000
        }),
        final(stub).toggle == !old(stub).toggle,
        final(stub).last_detected == Some(!old(stub).toggle),
        outcome.1 matches Some(event) ==> event == (Events::FloorDropDetected {
            detected: !old(stub).toggle,
        }) && final(perception).drop_ahead() == !old(stub).toggle,
        outcome.1 is None <==> old(stub).last_detected == Some(!old(stub).toggle),
        final(perception).obstacle() == old(perception).obstacle(),
{
}

} // verus!
