//! Calibration procedures of the drive system.
//!
//! Every procedure can be stopped from the panel: a stop request latches the shared
//! stop, which each procedure asks about at its wait points, and interrupts any drive
//! in flight.

use vstd::prelude::*;

use crate::system::event::Events;
use crate::system::state::activity;
use crate::system::state::activity::{Activity, CalibrationKind, Snapshot};
use crate::task::drive::InterruptKind;
use crate::task::procedure;
use crate::task::procedure::{Completion, Family, Lifecycle, StopLatch};

pub mod distance;
pub mod imu;
pub mod mag;
pub mod motor;

verus! {

/// The calibration family at power-up. It has no slot: a start is never refused.
pub fn calibration_family() -> (family: Family)
    ensures
        family.slot is None,
        !family.latch@,
{
    Family { latch: StopLatch::new(), slot: None }
}

/// The lifecycle of a calibration. The motor and magnetometer calibrations report
/// that they are over, however they ended; the distance calibration goes on at the
/// value screen and reports nothing itself.
pub fn calibration_lifecycle(kind: CalibrationKind) -> (lifecycle: Lifecycle)
    ensures
        lifecycle.recorded == Activity::Calibration(kind),
        lifecycle.completion == (if kind is Distance {
            Completion::Silent
        } else {
            Completion::OnBoth(Events::CalibrationCompleted)
        }),
{
    let completion = match kind {
        CalibrationKind::Distance => Completion::Silent,
        _ => Completion::OnBoth(Events::CalibrationCompleted),
    };
    Lifecycle::new(Activity::Calibration(kind), completion)
}

/// What the running screen shows first of a calibration.
pub open spec fn first_detail(kind: CalibrationKind) -> &'static str {
    match kind {
        CalibrationKind::Motor => "Enabling drivers",
        CalibrationKind::Mag => "Initializing",
        CalibrationKind::Distance => "Driving 150 cm",
    }
}

/// Start a calibration, returning its lifecycle. A stop that was requested before
/// counts for nothing.
///
/// `None` while the family's slot is taken: then nothing changes.
pub fn start(family: &mut Family, state: &mut Snapshot, kind: CalibrationKind) -> (started: Option<
    Lifecycle,
>)
    ensures
        started is Some <==> !old(family).busy(),
        started is None ==> *final(family) == *old(family) && *final(state) == *old(state),
        started matches Some(lifecycle) ==> {
            &&& lifecycle.recorded == Activity::Calibration(kind)
            &&& lifecycle.completion == (if kind is Distance {
                Completion::Silent
            } else {
                Completion::OnBoth(Events::CalibrationCompleted)
            })
            &&& *final(family) == procedure::entered(*old(family))
            &&& *final(state) == activity::begun(
                Activity::Calibration(kind),
                first_detail(kind),
                false,
            )
        },
{
    let lifecycle = calibration_lifecycle(kind);
    let detail = match kind {
        CalibrationKind::Motor => "Enabling drivers",
        CalibrationKind::Mag => "Initializing",
        CalibrationKind::Distance => "Driving 150 cm",
    };
    if lifecycle.start(family, state, detail) {
        Some(lifecycle)
    } else {
        None
    }
}

/// Request that the running calibration stop, returning the interrupt to send to any
/// drive in flight.
pub fn request_stop(family: &mut Family) -> (interrupt: InterruptKind)
    ensures
        final(family).latch@,
        final(family).slot == old(family).slot,
        interrupt == InterruptKind::Stop,
{
    family.latch.request()
}

/// Whether the operator has asked the running calibration to stop.
pub fn is_stop_requested(family: &Family) -> (requested: bool)
    ensures
        requested == family.latch@,
{
    family.latch.is_requested()
}

/// A calibration is recorded under its own name and needs no stop to end; the motor's and
/// the magnetometer's report their end however it came, the distance's goes on without.
pub proof fn law_calibrations_report_their_end(
    family: &mut Family,
    state: &mut Snapshot,
    kind: CalibrationKind,
    started: Option<Lifecycle>,
    lifecycle: Lifecycle,
)
    requires
        call_ensures(start, (family, state, kind), started),
        call_ensures(calibration_lifecycle, (kind,), lifecycle),
    ensures
        started is Some <==> !old(family).busy(),
        started is Some ==> {
            &&& started == Some(lifecycle)
            &&& final(state).activity == Activity::Calibration(kind)
            &&& final(state).stage is Running
            &&& !final(state).interactive
            &&& !final(family).latch@
        },
        started is None ==> *final(state) == *old(state),
        lifecycle.recorded == Activity::Calibration(kind),
        kind is Distance <==> lifecycle.completion is Silent,
        kind is Motor || kind is Mag <==> lifecycle.completion == Completion::OnBoth(
            Events::CalibrationCompleted,
        ),
{
    procedure::law_start_discards_stale_stops(*old(family));
}

/// Each calibration begins with what it does first.
pub proof fn law_calibrations_say_what_comes_first(kind: CalibrationKind)
    ensures
        kind is Motor ==> first_detail(kind) == "Enabling drivers",
        kind is Mag ==> first_detail(kind) == "Initializing",
        kind is Distance ==> first_detail(kind) == "Driving 150 cm",
{
}

} // verus!
