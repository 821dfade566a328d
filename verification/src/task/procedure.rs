//! The lifecycle every procedure runs under.
//!
//! A test or a calibration repeats the same steps around its own body: claim its
//! family's slot, arm its family's stop latch, publish the starting activity,
//! publish each phase, publish the outcome, release the slot and raise the family's
//! completion event. A producer keeps its body and calls a [`Lifecycle`] around it.
//!
//! Each family has its own latch and its own slot, so a stop aimed at a test cannot
//! reach a calibration.

use vstd::prelude::*;

use crate::system::event::Events;
use crate::system::state::activity;
use crate::system::state::activity::{
    Activity, CalibrationKind, DriveModeKind, Snapshot, Stage, StopRequest, TestKind,
};
use crate::task::drive::InterruptKind;

verus! {

/// A procedure the panel's menu can start.
#[derive(Debug, Clone, Copy, PartialEq, Eq, Structural)]
pub enum Procedure {
    BasicMotor,
    Turns,
    StraightDrive,
    ArcDrive,
    Imu6Axis,
    Imu9Axis,
    MotorCalibration,
    MagCalibration,
    DistanceCalibration,
    CoastAndAvoid,
    AttemptStraight,
}

/// The activity a running procedure is recorded as. Attempting a straight line only
/// records its value, so it has none.
pub open spec fn activity_of(procedure: Procedure) -> Option<Activity> {
    match procedure {
        Procedure::BasicMotor => Some(Activity::Test(TestKind::BasicMotor)),
        Procedure::Turns => Some(Activity::Test(TestKind::Turns)),
        Procedure::StraightDrive => Some(Activity::Test(TestKind::StraightDrive)),
        Procedure::ArcDrive => Some(Activity::Test(TestKind::ArcDrive)),
        Procedure::Imu6Axis => Some(Activity::Test(TestKind::Imu6Axis)),
        Procedure::Imu9Axis => Some(Activity::Test(TestKind::Imu9Axis)),
        Procedure::MotorCalibration => Some(Activity::Calibration(CalibrationKind::Motor)),
        Procedure::MagCalibration => Some(Activity::Calibration(CalibrationKind::Mag)),
        Procedure::DistanceCalibration => Some(Activity::Calibration(CalibrationKind::Distance)),
        Procedure::CoastAndAvoid => Some(Activity::DriveMode(DriveModeKind::CoastAndAvoid)),
        Procedure::AttemptStraight => None,
    }
}

/// Whether an activity ends only on an explicit stop.
pub open spec fn ends_on_stop(recorded: Activity) -> bool {
    match recorded {
        Activity::Test(kind) => activity::runs_until_stopped(kind),
        Activity::DriveMode(_) => true,
        _ => false,
    }
}

impl Procedure {
    /// The activity this procedure is recorded as.
    pub fn activity(self) -> (recorded: Option<Activity>)
        ensures
            recorded == activity_of(self),
    {
        match self {
            Procedure::BasicMotor => Some(Activity::Test(TestKind::BasicMotor)),
            Procedure::Turns => Some(Activity::Test(TestKind::Turns)),
            Procedure::StraightDrive => Some(Activity::Test(TestKind::StraightDrive)),
            Procedure::ArcDrive => Some(Activity::Test(TestKind::ArcDrive)),
            Procedure::Imu6Axis => Some(Activity::Test(TestKind::Imu6Axis)),
            Procedure::Imu9Axis => Some(Activity::Test(TestKind::Imu9Axis)),
            Procedure::MotorCalibration => Some(Activity::Calibration(CalibrationKind::Motor)),
            Procedure::MagCalibration => Some(Activity::Calibration(CalibrationKind::Mag)),
            Procedure::DistanceCalibration => Some(
                Activity::Calibration(CalibrationKind::Distance),
            ),
            Procedure::CoastAndAvoid => Some(Activity::DriveMode(DriveModeKind::CoastAndAvoid)),
            Procedure::AttemptStraight => None,
        }
    }
}

/// Whether an activity ends only on an explicit stop.
fn needs_stop(recorded: Activity) -> (interactive: bool)
    ensures
        interactive == ends_on_stop(recorded),
{
    match recorded {
        Activity::Test(kind) => kind.is_interactive(),
        Activity::DriveMode(_) => true,
        _ => false,
    }
}

/// A latched stop request for one family.
#[derive(Debug, Clone, Copy, PartialEq, Eq, Structural)]
pub struct StopLatch {
    stop: StopRequest,
}

impl StopLatch {
    /// Whether a stop has been requested since the latch was armed.
    pub closed spec fn view(&self) -> bool {
        self.stop@
    }

    /// The latch without a request, in ghost code.
    pub closed spec fn armed() -> Self {
        StopLatch { stop: StopRequest::of(false) }
    }

    /// An armed latch holds no request.
    pub proof fn lemma_armed()
        ensures
            !StopLatch::armed()@,
    {
        StopRequest::lemma_of(false);
    }

    /// A latch without a request.
    pub fn new() -> (latch: Self)
        ensures
            !latch@,
    {
        StopLatch { stop: StopRequest::new() }
    }

    /// Discard a request left over from a previous run.
    pub fn arm(&mut self)
        ensures
            *final(self) == StopLatch::armed(),
            !final(self)@,
    {
        self.stop.rearm();
    }

    /// Whether the operator has asked the running procedure to stop.
    pub fn is_requested(&self) -> (requested: bool)
        ensures
            requested == self@,
    {
        self.stop.is_requested()
    }

    /// How a wait ended that either a request or a timer could end.
    pub fn wait_or(&self, woken: bool) -> (stopped: bool)
        ensures
            stopped == (self@ || woken),
    {
        self.stop.wait_or(woken)
    }

    /// Latch a stop request, returning the interrupt to send to any drive in flight.
    pub fn request(&mut self) -> (interrupt: InterruptKind)
        ensures
            final(self)@,
            interrupt == InterruptKind::Stop,
    {
        self.stop.request();
        InterruptKind::Stop
    }
}

impl Default for StopLatch {
    fn default() -> (latch: Self)
        ensures
            !latch@,
    {
        StopLatch::new()
    }
}

/// The completion event a family raises.
#[derive(Debug, Clone, Copy, PartialEq, Eq, Structural)]
pub enum Completion {
    /// Raise the event when the procedure succeeds.
    OnSuccess(Events),
    /// Raise the event when the procedure succeeds or fails.
    OnBoth(Events),
    /// Raise nothing.
    Silent,
}

/// A family's single-active slot.
#[derive(Debug, Clone, Copy, PartialEq, Eq, Structural)]
pub struct Slot {
    taken: bool,
}

impl Slot {
    /// Whether a procedure holds the slot.
    pub closed spec fn view(&self) -> bool {
        self.taken
    }

    /// The slot that is taken or free, in ghost code.
    pub closed spec fn of(taken: bool) -> Self {
        Slot { taken }
    }

    /// A slot is determined by whether it is taken.
    pub broadcast proof fn lemma_of(taken: bool)
        ensures
            (#[trigger] Slot::of(taken))@ == taken,
    {
    }

    /// A free slot.
    pub fn guarded() -> (slot: Self)
        ensures
            slot == Slot::of(false),
            !slot@,
    {
        Slot { taken: false }
    }

    /// Claim the slot, reporting whether it was free.
    pub fn claim(&mut self) -> (was_free: bool)
        ensures
            was_free == !old(self)@,
            *final(self) == Slot::of(true),
    {
        if self.taken {
            return false;
        }
        self.taken = true;
        true
    }

    /// Free the slot.
    pub fn release(&mut self)
        ensures
            *final(self) == Slot::of(false),
    {
        self.taken = false;
    }
}

/// What a family of procedures shares.
#[derive(Debug, Clone, Copy, PartialEq, Eq, Structural)]
pub struct Family {
    /// The family's stop latch.
    pub latch: StopLatch,
    /// The family's slot; a family without one never refuses a start.
    pub slot: Option<Slot>,
}

impl Family {
    /// Whether the family would refuse a start.
    pub open spec fn busy(self) -> bool {
        self.slot matches Some(slot) && slot@
    }
}

/// The family once a start was let in: the slot is taken and the latch armed.
pub open spec fn entered(family: Family) -> Family {
    Family {
        latch: StopLatch::armed(),
        slot: match family.slot {
            Some(_) => Some(Slot::of(true)),
            None => None,
        },
    }
}

/// The family once its procedure has left: the slot is free.
pub open spec fn left(family: Family) -> Family {
    Family {
        slot: match family.slot {
            Some(_) => Some(Slot::of(false)),
            None => None,
        },
        ..family
    }
}

/// The shared lifecycle of one procedure.
#[derive(Debug, Clone, Copy, PartialEq, Eq, Structural)]
pub struct Lifecycle {
    /// The activity the procedure is recorded as.
    pub recorded: Activity,
    /// The family's completion-event policy.
    pub completion: Completion,
}

impl Lifecycle {
    /// The lifecycle of a procedure recorded as `recorded`.
    pub fn new(recorded: Activity, completion: Completion) -> (lifecycle: Self)
        ensures
            lifecycle == (Lifecycle { recorded, completion }),
    {
        Lifecycle { recorded, completion }
    }

    /// Whether the operator has asked this procedure to stop.
    pub fn is_stop_requested(&self, family: &Family) -> (requested: bool)
        ensures
            requested == family.latch@,
    {
        family.latch.is_requested()
    }

    /// How a wait ended that either a request or a timer could end.
    pub fn wait_or_stop(&self, family: &Family, woken: bool) -> (stopped: bool)
        ensures
            stopped == (family.latch@ || woken),
    {
        family.latch.wait_or(woken)
    }

    /// Publish the current phase and percent.
    pub fn phase(&self, state: &mut Snapshot, detail: &'static str, percent: Option<u8>)
        ensures
            *final(state) == activity::moved_on(*old(state), Stage::Running, detail, percent),
    {
        activity::set_running(state, detail, percent);
    }

    /// Claim the family's slot, arm its latch and publish the starting activity,
    /// reporting whether it started.
    ///
    /// A refused start records nothing and leaves the latch alone. The latch is
    /// armed before the activity is published, so a stop that lands once the
    /// procedure is exposed is kept.
    pub fn start(&self, family: &mut Family, state: &mut Snapshot, detail: &'static str) -> (started:
        bool)
        ensures
            started == !old(family).busy(),
            !started ==> *final(family) == *old(family) && *final(state) == *old(state),
            started ==> {
                &&& *final(family) == entered(*old(family))
                &&& *final(state) == activity::begun(
                    self.recorded,
                    detail,
                    ends_on_stop(self.recorded),
                )
            },
    {
        if let Some(slot) = family.slot {
            let mut claimed = slot;
            if !claimed.claim() {
                return false;
            }
            family.slot = Some(claimed);
        }
        family.latch.arm();
        activity::begin(state, self.recorded, detail, needs_stop(self.recorded));
        true
    }

    /// Record success and release the slot, returning the event to raise.
    pub fn complete(&self, family: &mut Family, state: &mut Snapshot, detail: &'static str) -> (event:
        Option<Events>)
        ensures
            *final(state) == activity::moved_on(*old(state), Stage::Complete, detail, Some(100)),
            *final(family) == left(*old(family)),
            event == (match self.completion {
                Completion::OnSuccess(event) => Some(event),
                Completion::OnBoth(event) => Some(event),
                Completion::Silent => None,
            }),
    {
        activity::complete(state, detail);
        self.release(family);
        match self.completion {
            Completion::OnSuccess(event) => Some(event),
            Completion::OnBoth(event) => Some(event),
            Completion::Silent => None,
        }
    }

    /// Record a failure, returning the event to raise. The slot is left to the
    /// caller's stop path.
    pub fn fail(&self, state: &mut Snapshot, reason: &'static str) -> (event: Option<Events>)
        ensures
            *final(state) == activity::moved_on(*old(state), Stage::Failed, reason, None),
            event == (match self.completion {
                Completion::OnBoth(event) => Some(event),
                _ => None,
            }),
    {
        activity::fail(state, reason);
        match self.completion {
            Completion::OnBoth(event) => Some(event),
            _ => None,
        }
    }

    /// Forget the running activity and release the slot. The outcome of a procedure
    /// the operator stopped: it records and raises nothing.
    pub fn abandon(&self, family: &mut Family, state: &mut Snapshot)
        ensures
            *final(state) == activity::idle(),
            *final(family) == left(*old(family)),
    {
        activity::clear(state);
        self.release(family);
    }

    /// Release the family's slot.
    pub fn release(&self, family: &mut Family)
        ensures
            *final(family) == left(*old(family)),
    {
        if let Some(slot) = family.slot {
            let mut freed = slot;
            freed.release();
            family.slot = Some(freed);
        }
    }
}

/// Two procedures of a family with a slot are never live at once: a start that was
/// let in makes the family refuse the next one, and leaving lets it in again with
/// the latch as the first one left it.
pub proof fn law_one_procedure_at_a_time(family: Family)
    requires
        family.slot is Some,
    ensures
        entered(family).busy(),
        !left(entered(family)).busy(),
        left(entered(family)).latch == entered(family).latch,
        entered(left(entered(family))) == entered(family),
{
    Slot::lemma_of(true);
    Slot::lemma_of(false);
}

/// A family without a slot never refuses a start.
pub proof fn law_no_slot_no_refusal(family: Family)
    requires
        family.slot is None,
    ensures
        !family.busy(),
        !entered(family).busy(),
        left(family) == family,
{
}

/// A stale stop request is harmless: whatever the latch held, a procedure that was
/// let in starts without one.
pub proof fn law_start_discards_stale_stops(family: Family)
    ensures
        !entered(family).latch@,
{
    StopLatch::lemma_armed();
}

/// A procedure is recorded under its own name and no other's; only attempting a straight
/// line is not recorded.
pub proof fn law_procedures_keep_their_name(one: Procedure, other: Procedure)
    ensures
        activity_of(one) is None <==> one is AttemptStraight,
        activity_of(one) is Some && activity_of(one) == activity_of(other) ==> one == other,
        activity_of(one) == Some(Activity::Test(TestKind::BasicMotor)) <==> one is BasicMotor,
        activity_of(one) == Some(Activity::Test(TestKind::Turns)) <==> one is Turns,
        activity_of(one) == Some(Activity::Test(TestKind::StraightDrive)) <==> one is StraightDrive,
        activity_of(one) == Some(Activity::Test(TestKind::ArcDrive)) <==> one is ArcDrive,
        activity_of(one) == Some(Activity::Test(TestKind::Imu6Axis)) <==> one is Imu6Axis,
        activity_of(one) == Some(Activity::Test(TestKind::Imu9Axis)) <==> one is Imu9Axis,
        activity_of(one) == Some(Activity::Calibration(CalibrationKind::Motor))
            <==> one is MotorCalibration,
        activity_of(one) == Some(Activity::Calibration(CalibrationKind::Mag))
            <==> one is MagCalibration,
        activity_of(one) == Some(Activity::Calibration(CalibrationKind::Distance))
            <==> one is DistanceCalibration,
        activity_of(one) == Some(Activity::DriveMode(DriveModeKind::CoastAndAvoid))
            <==> one is CoastAndAvoid,
{
}

/// What drives on its own or streams ends only on a stop; a calibration, and a test that
/// drives its legs, end by themselves.
pub proof fn law_who_ends_on_stop(recorded: Activity)
    ensures
        recorded is DriveMode ==> ends_on_stop(recorded),
        recorded is Calibration || recorded is Idle || recorded is Booting ==> !ends_on_stop(
            recorded,
        ),
        recorded matches Activity::Test(kind) ==> (ends_on_stop(recorded) <==> !(kind is Turns
            || kind is StraightDrive || kind is ArcDrive)),
{
}

/// Coming and going touch a slot only where there is one, and leaving keeps the latch.
pub proof fn law_slots_follow_the_procedure(family: Family)
    ensures
        entered(family).slot is Some <==> family.slot is Some,
        left(family).slot is Some <==> family.slot is Some,
        !left(family).busy(),
        family.slot is Some ==> entered(family).busy(),
        left(family).latch == family.latch,
{
    Slot::lemma_of(true);
    Slot::lemma_of(false);
}

/// A start is let in exactly where the slot is free; then the activity is recorded and
/// runs, and any earlier stop is forgotten. One that is refused changes nothing.
pub proof fn law_start_is_let_in_or_refused(
    lifecycle: &Lifecycle,
    family: &mut Family,
    state: &mut Snapshot,
    detail: &'static str,
    started: bool,
)
    requires
        call_ensures(Lifecycle::start, (lifecycle, family, state, detail), started),
    ensures
        started <==> !old(family).busy(),
        !started ==> *final(family) == *old(family) && *final(state) == *old(state),
        started ==> {
            &&& !final(family).latch@
            &&& old(family).slot is Some ==> final(family).busy()
            &&& final(state).activity == lifecycle.recorded
            &&& final(state).stage is Running
            &&& final(state).detail == detail
            &&& final(state).percent is None
        },
{
    law_start_discards_stale_stops(*old(family));
    law_slots_follow_the_procedure(*old(family));
}

/// Success and a stop free the slot and a failure leaves it; success is complete at a
/// hundred percent, a failure keeps its reason, a stop leaves nothing recorded.
pub proof fn law_ends_free_the_slot(
    lifecycle: &Lifecycle,
    done_family: &mut Family,
    done: &mut Snapshot,
    done_event: Option<Events>,
    failed: &mut Snapshot,
    failed_event: Option<Events>,
    gone_family: &mut Family,
    gone: &mut Snapshot,
    detail: &'static str,
)
    requires
        old(done).activity !is Idle,
        old(failed).activity !is Idle,
        call_ensures(Lifecycle::complete, (lifecycle, done_family, done, detail), done_event),
        call_ensures(Lifecycle::fail, (lifecycle, failed, detail), failed_event),
        call_ensures(Lifecycle::abandon, (lifecycle, gone_family, gone), ()),
    ensures
        !final(done_family).busy(),
        final(done).stage is Complete && final(done).percent == Some(100u8) && final(done).detail
            == detail,
        final(failed).stage is Failed && final(failed).detail == detail,
        final(failed).percent is None,
        !final(gone_family).busy(),
        final(gone).activity is Idle,
        done_event is None <==> lifecycle.completion is Silent,
        failed_event is Some <==> lifecycle.completion is OnBoth,
        lifecycle.completion matches Completion::OnSuccess(event) ==> done_event == Some(event),
        lifecycle.completion matches Completion::OnBoth(event) ==> done_event == Some(event)
            && failed_event == Some(event),
{
    law_slots_follow_the_procedure(*old(done_family));
    law_slots_follow_the_procedure(*old(gone_family));
}

} // verus!
