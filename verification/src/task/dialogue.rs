//! How a procedure talks to the robot.
//!
//! A procedure is a dialogue: each turn it names the actions to carry out, in order,
//! and then asks one question. The answer decides the next turn. Waiting, driving and
//! reading sensors happen outside; everything a procedure decides is a function of
//! the answers.

use vstd::prelude::*;

use crate::system::event::Events;
use crate::system::state::activity;
use crate::system::state::activity::{Snapshot, Stage};
use crate::task::drive::calibration::mag::MagSample;
use crate::task::drive::{CompletionStatus, DriveAction};
use crate::task::io::flash_storage::CalibrationDataKind;
use crate::task::motor_driver::{MotorCommand, Track};
use crate::task::procedure;
use crate::task::procedure::{Completion, Family, Lifecycle};
use crate::task::sensors::imu::{DmpFusionMode, MagCalibration, MagVector};

verus! {

/// Commands to the encoder sampler.
#[derive(Debug, Clone, Copy, PartialEq, Eq, Structural)]
pub enum EncoderCommand {
    /// Sample at an interval.
    Start { interval_ms: u64 },
    /// Stop sampling.
    Stop,
    /// Set the counts to zero.
    Reset,
}

/// One thing to do.
#[derive(Debug, Clone, Copy, PartialEq, Eq)]
pub enum Action {
    /// Send a motor command.
    Motor(MotorCommand),
    /// Send an encoder command.
    Encoder(EncoderCommand),
    /// Drop a pending encoder measurement.
    ClearEncoder,
    /// Log a track's latest encoder count, under this phase line.
    LogCount(&'static str, Track),
    /// Drop a pending magnetometer measurement.
    ClearMag,
    /// Send a drive action outside any queue.
    Drive(DriveAction),
    /// Select the IMU fusion mode.
    SetFusion(DmpFusionMode),
    /// Start the IMU readings.
    StartImu,
    /// Stop the IMU readings.
    StopImu,
    /// Let time pass, in milliseconds.
    Delay(u64),
    /// Publish a phase and its percent.
    Phase(&'static str, Option<u8>),
    /// Raise an event.
    Raise(Events),
    /// Store calibration data.
    Save(CalibrationDataKind),
    /// Hand magnetometer calibration data to the IMU task.
    LoadMag(MagCalibration),
    /// Publish success and end the procedure's lifecycle with it.
    Complete(&'static str),
    /// Publish a failure and its reason.
    Fail(&'static str),
    /// Forget the activity and end the procedure's lifecycle.
    Abandon,
    /// Restore the distance factor that was in force before the calibration.
    RestoreDistanceFactor,
    /// Free the family's slot.
    Release,
    /// Disable the LiDAR.
    DisableLidar,
}

/// Carry out an action that only concerns the activity, the family and events,
/// returning the event to raise. Any other action changes nothing here.
pub fn publish(
    action: Action,
    lifecycle: &Lifecycle,
    family: &mut Family,
    state: &mut Snapshot,
) -> (event: Option<Events>)
    ensures
        ({
            let (expected_family, expected_state, expected_event) = published(
                action,
                *lifecycle,
                *old(family),
                *old(state),
            );
            &&& *final(family) == expected_family
            &&& *final(state) == expected_state
            &&& event == expected_event
        }),
{
    match action {
        Action::Phase(detail, percent) => {
            lifecycle.phase(state, detail, percent);
            None
        },
        Action::Raise(event) => Some(event),
        Action::Complete(detail) => lifecycle.complete(family, state, detail),
        Action::Fail(reason) => lifecycle.fail(state, reason),
        Action::Abandon => {
            lifecycle.abandon(family, state);
            None
        },
        Action::Release => {
            lifecycle.release(family);
            None
        },
        _ => None,
    }
}

/// What carrying out an action does to the family and the activity, and the event it
/// raises.
pub open spec fn published(
    action: Action,
    lifecycle: Lifecycle,
    family: Family,
    state: Snapshot,
) -> (Family, Snapshot, Option<Events>) {
    match action {
        Action::Phase(detail, percent) => (
            family,
            activity::moved_on(state, Stage::Running, detail, percent),
            None,
        ),
        Action::Raise(event) => (family, state, Some(event)),
        Action::Complete(detail) => (
            procedure::left(family),
            activity::moved_on(state, Stage::Complete, detail, Some(100)),
            match lifecycle.completion {
                Completion::OnSuccess(event) => Some(event),
                Completion::OnBoth(event) => Some(event),
                Completion::Silent => None,
            },
        ),
        Action::Fail(reason) => (
            family,
            activity::moved_on(state, Stage::Failed, reason, None),
            match lifecycle.completion {
                Completion::OnBoth(event) => Some(event),
                _ => None,
            },
        ),
        Action::Abandon => (procedure::left(family), activity::idle(), None),
        Action::Release => (procedure::left(family), state, None),
        _ => (family, state, None),
    }
}

/// A queue of one or two drive actions; a failed step aborts it.
#[derive(Debug, Clone, Copy, PartialEq, Eq, Structural)]
pub struct DriveQueue {
    /// The first step.
    pub first: DriveAction,
    /// The second step, if there is one.
    pub second: Option<DriveAction>,
}

/// One question.
#[derive(Debug, Clone, Copy, PartialEq, Eq, Structural)]
pub enum Ask {
    /// Has the calibration data been queried?
    Initialized,
    /// Has a stop been requested?
    StopRequested,
    /// Wait this many milliseconds; was the wait cut short by a stop?
    WaitOrStop(u64),
    /// Drive this queue; how did it end?
    Submit(DriveQueue),
    /// Wait at most this many milliseconds for encoder counts; what are they?
    Pulses(u64),
    /// How many whole seconds have passed since the last phase was published?
    PhaseSeconds,
    /// Wait at most this many milliseconds for a magnetometer reading; what is it?
    Mag(u64),
    /// Average this many magnetometer readings; what is the average?
    MagAverage(u16),
    /// Is there an obstacle or a floor drop ahead?
    Hazard,
    /// How many microseconds have passed since boot?
    Micros,
    /// Nothing more: the procedure is over.
    Over,
}

/// Encoder counts of both tracks.
#[derive(Debug, Clone, Copy, PartialEq, Eq, Structural)]
pub struct EncoderMeasurement {
    /// Count of the left track.
    pub left: u16,
    /// Count of the right track.
    pub right: u16,
}

/// An answer.
#[derive(Debug, Clone, Copy, PartialEq, Eq)]
pub enum Answer {
    /// To a yes-or-no question.
    Yes(bool),
    /// The queue was driven, and how that ended.
    Driven(CompletionStatus),
    /// The queue could not be built or submitted, and why.
    Refused(&'static str),
    /// Encoder counts, or none in time.
    Pulses(Option<EncoderMeasurement>),
    /// Whole seconds.
    Seconds(u64),
    /// A magnetometer reading, or none in time.
    Mag(Option<MagSample>),
    /// An average of magnetometer readings.
    Average(MagVector),
    /// Microseconds.
    Micros(u64),
}

/// One turn of a procedure.
#[derive(Debug)]
pub struct Turn {
    /// What to do, in order.
    pub actions: Vec<Action>,
    /// What to ask afterwards.
    pub ask: Ask,
}

impl Turn {
    /// The turn's actions and question.
    pub open spec fn view(&self) -> (Seq<Action>, Ask) {
        (self.actions@, self.ask)
    }

    /// A turn without actions.
    pub fn asking(ask: Ask) -> (turn: Self)
        ensures
            turn@ == (Seq::<Action>::empty(), ask),
    {
        Turn { actions: Vec::new(), ask }
    }

    /// A turn with these actions.
    pub fn new(actions: Vec<Action>, ask: Ask) -> (turn: Self)
        ensures
            turn@ == (actions@, ask),
    {
        Turn { actions, ask }
    }
}

/// What carrying out an action changes: only an end of the procedure frees its slot, only
/// forgetting it makes the robot idle, and only the ends and a raise tell anyone.
pub proof fn law_actions_keep_to_their_part(
    action: Action,
    lifecycle: Lifecycle,
    family: Family,
    state: Snapshot,
)
    ensures
        ({
            let (family_after, state_after, event) = published(action, lifecycle, family, state);
            &&& family_after.latch == family.latch
            &&& action is Complete || action is Abandon || action is Release
                ==> !family_after.busy()
            &&& !(action is Complete || action is Abandon || action is Release) ==> family_after
                == family
            &&& action is Abandon ==> state_after.activity is Idle
            &&& action !is Abandon ==> state_after.activity == state.activity
            &&& !(action is Phase || action is Complete || action is Fail || action is Abandon)
                ==> state_after == state
            &&& state.activity !is Idle ==> {
                &&& action is Complete ==> state_after.stage is Complete && state_after.percent
                    == Some(100u8)
                &&& action is Fail ==> state_after.stage is Failed && state_after.percent is None
                &&& action is Phase ==> state_after.stage is Running
            }
            &&& event is Some && action !is Raise ==> action is Complete || action is Fail
        }),
{
    procedure::law_slots_follow_the_procedure(family);
}

/// A procedure reports as its family wants: success where it reports at all, a failure
/// only where it reports both.
pub proof fn law_ends_are_reported(
    lifecycle: Lifecycle,
    family: Family,
    state: Snapshot,
    detail: &'static str,
    raised: Events,
)
    ensures
        published(Action::Raise(raised), lifecycle, family, state).2 == Some(raised),
        lifecycle.completion is Silent ==> published(
            Action::Complete(detail),
            lifecycle,
            family,
            state,
        ).2 is None && published(Action::Fail(detail), lifecycle, family, state).2 is None,
        lifecycle.completion == Completion::OnSuccess(raised) ==> published(
            Action::Complete(detail),
            lifecycle,
            family,
            state,
        ).2 == Some(raised) && published(Action::Fail(detail), lifecycle, family, state).2 is None,
        lifecycle.completion == Completion::OnBoth(raised) ==> published(
            Action::Complete(detail),
            lifecycle,
            family,
            state,
        ).2 == Some(raised) && published(Action::Fail(detail), lifecycle, family, state).2 == Some(
            raised,
        ),
{
}

} // verus!
