//! A gesture, from pen down to pen up.
//!
//! The pen line tells when the pen is lifted, but it is not trusted without bound: a
//! line stuck low would hide every running screen's stop. Two bounds end a gesture as a
//! release does: a long enough run of samples without contact while the line stays
//! low, and a deadline for a line and a controller that both report contact for ever.

use vstd::prelude::*;

verus! {

/// Time without contact that ends a gesture, in milliseconds.
pub const NO_CONTACT_LIMIT_MS: u64 = 500;

/// Time that ends any gesture, in milliseconds.
pub const GESTURE_DEADLINE_MS: u64 = 30_000;

/// Time between two samples, in milliseconds.
pub const TICK_MS: u64 = 20;

/// What a sample told.
#[derive(Debug, Clone, Copy, PartialEq, Eq, Structural)]
pub enum TouchReport {
    /// Contact; whether the screen has to be drawn again.
    Contact {
        /// Whether the move changed the screen.
        redraw: bool,
    },
    /// No contact.
    NoContact,
    /// The bus failed: neither contact nor its absence.
    BusError,
}

/// Why a gesture ended.
#[derive(Debug, Clone, Copy, PartialEq, Eq, Structural)]
pub enum GestureEnd {
    /// The pen was lifted.
    PenUp,
    /// No contact for too long with the line stuck low.
    NoContact,
    /// The deadline.
    Deadline,
}

/// What a sample leads to.
#[derive(Debug, Clone, Copy, PartialEq, Eq, Structural)]
pub struct GestureStep {
    /// Whether to draw now.
    pub render: bool,
    /// Whether the gesture has ended, and why.
    pub ended: Option<GestureEnd>,
}

/// A gesture in progress.
#[derive(Debug, Clone, Copy, PartialEq, Eq, Structural)]
pub struct Gesture {
    /// When the pen went down, in milliseconds since boot.
    pub started_ms: u64,
    /// When the screen was last drawn for a move.
    pub last_render_ms: u64,
    /// Smallest time between two such drawings.
    pub drag_render_ms: u64,
    /// Since when there has been no contact.
    pub no_contact_since_ms: Option<u64>,
}

/// The time that has passed between two times; none if the clock went back.
pub open spec fn passed(since_ms: u64, now_ms: u64) -> int {
    if now_ms >= since_ms {
        now_ms - since_ms
    } else {
        0
    }
}

/// Since when there has been no contact, after a sample.
pub open spec fn contact_lost(
    gesture: Gesture,
    report: TouchReport,
    pen_up: bool,
    now_ms: u64,
) -> Option<u64> {
    match report {
        TouchReport::Contact { .. } => None,
        TouchReport::NoContact => if pen_up || gesture.no_contact_since_ms is Some {
            gesture.no_contact_since_ms
        } else {
            Some(now_ms)
        },
        TouchReport::BusError => gesture.no_contact_since_ms,
    }
}

/// Whether a sample is drawn: a changed screen, but not too often.
pub open spec fn drawn(gesture: Gesture, report: TouchReport, now_ms: u64) -> bool {
    report matches TouchReport::Contact { redraw } && redraw && passed(
        gesture.last_render_ms,
        now_ms,
    ) >= gesture.drag_render_ms
}

/// Whether and why a sample ends the gesture. A lifted pen ends it whatever the sample
/// said.
pub open spec fn ended_by(
    gesture: Gesture,
    report: TouchReport,
    pen_up: bool,
    now_ms: u64,
) -> Option<GestureEnd> {
    if pen_up {
        Some(GestureEnd::PenUp)
    } else if report is NoContact && passed(
        contact_lost(gesture, report, pen_up, now_ms)->0,
        now_ms,
    ) >= NO_CONTACT_LIMIT_MS {
        Some(GestureEnd::NoContact)
    } else if passed(gesture.started_ms, now_ms) >= GESTURE_DEADLINE_MS {
        Some(GestureEnd::Deadline)
    } else {
        None
    }
}

/// The time that has passed.
fn time_since(since_ms: u64, now_ms: u64) -> (ms: u64)
    ensures
        ms == passed(since_ms, now_ms),
{
    if now_ms >= since_ms {
        now_ms - since_ms
    } else {
        0
    }
}

impl Gesture {
    /// The pen went down.
    pub fn begin(started_ms: u64, drag_render_ms: u64) -> (gesture: Self)
        ensures
            gesture == (Gesture {
                started_ms,
                last_render_ms: started_ms,
                drag_render_ms,
                no_contact_since_ms: None,
            }),
    {
        Gesture {
            started_ms,
            last_render_ms: started_ms,
            drag_render_ms,
            no_contact_since_ms: None,
        }
    }

    /// Take a sample and the pen line.
    pub fn on_sample(&mut self, report: TouchReport, pen_up: bool, now_ms: u64) -> (step:
        GestureStep)
        ensures
            step.render == drawn(*old(self), report, now_ms),
            step.ended == ended_by(*old(self), report, pen_up, now_ms),
            *final(self) == (Gesture {
                last_render_ms: if step.render {
                    now_ms
                } else {
                    old(self).last_render_ms
                },
                no_contact_since_ms: contact_lost(*old(self), report, pen_up, now_ms),
                ..*old(self)
            }),
    {
        let mut render = false;
        let mut too_long = false;
        match report {
            TouchReport::Contact { redraw } => {
                self.no_contact_since_ms = None;
                if redraw && time_since(self.last_render_ms, now_ms) >= self.drag_render_ms {
                    render = true;
                    self.last_render_ms = now_ms;
                }
            },
            TouchReport::NoContact => {
                if !pen_up {
                    let since_ms = match self.no_contact_since_ms {
                        Some(since_ms) => since_ms,
                        None => now_ms,
                    };
                    self.no_contact_since_ms = Some(since_ms);
                    too_long = time_since(since_ms, now_ms) >= NO_CONTACT_LIMIT_MS;
                }
            },
            TouchReport::BusError => {},
        }
        let ended = if pen_up {
            Some(GestureEnd::PenUp)
        } else if too_long {
            Some(GestureEnd::NoContact)
        } else if time_since(self.started_ms, now_ms) >= GESTURE_DEADLINE_MS {
            Some(GestureEnd::Deadline)
        } else {
            None
        };
        GestureStep { render, ended }
    }
}

/// No gesture lasts for ever: a sample at or after the deadline ends it, whatever the
/// sample and the line say.
pub proof fn law_gesture_is_bounded(
    gesture: Gesture,
    report: TouchReport,
    pen_up: bool,
    now_ms: u64,
)
    requires
        now_ms >= gesture.started_ms + GESTURE_DEADLINE_MS,
    ensures
        ended_by(gesture, report, pen_up, now_ms) is Some,
{
}

/// A bus error neither ends a gesture before its deadline nor counts as a loss of
/// contact.
pub proof fn law_bus_error_is_neutral(gesture: Gesture, now_ms: u64)
    requires
        passed(gesture.started_ms, now_ms) < GESTURE_DEADLINE_MS,
    ensures
        ended_by(gesture, TouchReport::BusError, false, now_ms) is None,
        contact_lost(gesture, TouchReport::BusError, false, now_ms)
            == gesture.no_contact_since_ms,
{
}

/// A real release is never put down to a fault.
pub proof fn law_release_is_a_release(gesture: Gesture, report: TouchReport, now_ms: u64)
    ensures
        ended_by(gesture, report, true, now_ms) == Some(GestureEnd::PenUp),
{
}

/// A gesture ends without contact half a second after contact was lost, and not sooner;
/// without a lifted pen nothing else ends it before thirty seconds are over.
pub proof fn law_gesture_ends_in_time(gesture: Gesture, since_ms: u64, now_ms: u64)
    requires
        gesture.no_contact_since_ms == Some(since_ms),
        gesture.started_ms <= since_ms <= now_ms,
    ensures
        ended_by(gesture, TouchReport::NoContact, false, now_ms) == Some(GestureEnd::NoContact)
            <==> now_ms - since_ms >= 500,
        ended_by(gesture, TouchReport::NoContact, false, now_ms) == Some(GestureEnd::Deadline)
            <==> now_ms - since_ms < 500 && now_ms - gesture.started_ms >= 30_000,
        ended_by(gesture, TouchReport::BusError, false, now_ms) == Some(GestureEnd::Deadline)
            <==> now_ms - gesture.started_ms >= 30_000,
        ended_by(gesture, TouchReport::BusError, false, now_ms) is None <==> now_ms
            - gesture.started_ms < 30_000,
{
}

/// Contact is lost at the first sample without it and regained at the first with it; a
/// lifted pen starts no count.
pub proof fn law_contact_is_lost_and_regained(gesture: Gesture, redraw: bool, now_ms: u64)
    ensures
        contact_lost(gesture, TouchReport::Contact { redraw }, false, now_ms) is None,
        gesture.no_contact_since_ms is None ==> contact_lost(
            gesture,
            TouchReport::NoContact,
            false,
            now_ms,
        ) == Some(now_ms),
        gesture.no_contact_since_ms is Some ==> contact_lost(
            gesture,
            TouchReport::NoContact,
            false,
            now_ms,
        ) == gesture.no_contact_since_ms,
        contact_lost(gesture, TouchReport::NoContact, true, now_ms)
            == gesture.no_contact_since_ms,
{
}

/// Only a move that changed the screen is drawn, and only once the time between two
/// drawings is over.
pub proof fn law_drawings_are_apart(gesture: Gesture, report: TouchReport, now_ms: u64)
    requires
        gesture.last_render_ms <= now_ms,
    ensures
        drawn(gesture, report, now_ms) <==> report == (TouchReport::Contact { redraw: true })
            && now_ms >= gesture.last_render_ms + gesture.drag_render_ms,
{
}

/// Whatever a sample tells, a drawing is remembered, and so is when contact was lost; when
/// the pen went down stays.
pub proof fn law_samples_are_remembered(
    gesture: &mut Gesture,
    report: TouchReport,
    pen_up: bool,
    now_ms: u64,
    step: GestureStep,
)
    requires
        call_ensures(Gesture::on_sample, (gesture, report, pen_up, now_ms), step),
    ensures
        final(gesture).started_ms == old(gesture).started_ms,
        step.render ==> final(gesture).last_render_ms == now_ms,
        !step.render ==> final(gesture).last_render_ms == old(gesture).last_render_ms,
        report is Contact ==> final(gesture).no_contact_since_ms is None,
        pen_up ==> step.ended == Some(GestureEnd::PenUp),
        report !is Contact ==> !step.render,
{
}

} // verus!
