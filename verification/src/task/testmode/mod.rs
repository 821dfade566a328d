//! Test modes: on-demand checks of motors, drive and IMU, one at a time.

use vstd::prelude::*;

use crate::system::event::Events;
use crate::system::state::activity;
use crate::system::state::activity::{Activity, Snapshot, TestKind};
use crate::task::drive::{CompletionStatus, InterruptKind};
use crate::task::procedure;
use crate::task::procedure::{Completion, Family, Lifecycle, Procedure, Slot, StopLatch};

pub mod basic_motor;
pub mod drive_test;
pub mod imu_stream;

verus! {

/// Commands to the test controller, one per test to spawn.
#[derive(Debug, Clone, Copy, PartialEq, Eq, Structural)]
pub enum TestCommand {
    /// The turns test.
    Turns,
    /// The straight-drive test.
    StraightDrive,
    /// The arc-drive test.
    ArcDrive,
    /// The nine-axis IMU test.
    Imu,
    /// The six-axis IMU test.
    Imu6,
    /// The basic motor test.
    BasicMotor,
}

/// The test a procedure is, if it is one.
pub open spec fn test_of(procedure: Procedure) -> Option<(TestKind, TestCommand)> {
    match procedure {
        Procedure::BasicMotor => Some((TestKind::BasicMotor, TestCommand::BasicMotor)),
        Procedure::Turns => Some((TestKind::Turns, TestCommand::Turns)),
        Procedure::StraightDrive => Some((TestKind::StraightDrive, TestCommand::StraightDrive)),
        Procedure::ArcDrive => Some((TestKind::ArcDrive, TestCommand::ArcDrive)),
        Procedure::Imu6Axis => Some((TestKind::Imu6Axis, TestCommand::Imu6)),
        Procedure::Imu9Axis => Some((TestKind::Imu9Axis, TestCommand::Imu)),
        _ => None,
    }
}

/// The lifecycle of a test. The tests that run to completion raise an event when
/// they succeed; the interactive ones raise nothing.
pub open spec fn lifecycle_of(kind: TestKind) -> Lifecycle {
    Lifecycle {
        recorded: Activity::Test(kind),
        completion: if activity::runs_until_stopped(kind) {
            Completion::Silent
        } else {
            Completion::OnSuccess(Events::TestingCompleted)
        },
    }
}

/// The test family at power-up: one free slot.
pub fn test_family() -> (family: Family)
    ensures
        !family.busy(),
        family.slot is Some,
        !family.latch@,
{
    Family { latch: StopLatch::new(), slot: Some(Slot::guarded()) }
}

/// The lifecycle of a test.
pub fn test_lifecycle(kind: TestKind) -> (lifecycle: Lifecycle)
    ensures
        lifecycle == lifecycle_of(kind),
{
    let completion = match kind {
        TestKind::Turns | TestKind::StraightDrive | TestKind::ArcDrive => Completion::OnSuccess(
            testing_completed(),
        ),
        _ => Completion::Silent,
    };
    Lifecycle::new(Activity::Test(kind), completion)
}

/// The completion event of the tests that run to completion.
fn testing_completed() -> (event: Events)
    ensures
        event == Events::TestingCompleted,
{
    Events::TestingCompleted
}

/// Start the test a procedure is, returning the command that spawns it.
///
/// `None` for a procedure that is no test, and while another test is live: then
/// nothing changes.
pub fn start(family: &mut Family, state: &mut Snapshot, procedure: Procedure) -> (spawn: Option<
    TestCommand,
>)
    ensures
        spawn is Some <==> test_of(procedure) is Some && !old(family).busy(),
        spawn is None ==> *final(family) == *old(family) && *final(state) == *old(state),
        spawn matches Some(command) ==> {
            let (kind, expected) = test_of(procedure)->0;
            &&& command == expected
            &&& *final(family) == procedure::entered(*old(family))
            &&& *final(state) == activity::begun(
                Activity::Test(kind),
                "Starting",
                activity::runs_until_stopped(kind),
            )
        },
{
    let (kind, command) = match procedure {
        Procedure::BasicMotor => (TestKind::BasicMotor, TestCommand::BasicMotor),
        Procedure::Turns => (TestKind::Turns, TestCommand::Turns),
        Procedure::StraightDrive => (TestKind::StraightDrive, TestCommand::StraightDrive),
        Procedure::ArcDrive => (TestKind::ArcDrive, TestCommand::ArcDrive),
        Procedure::Imu6Axis => (TestKind::Imu6Axis, TestCommand::Imu6),
        Procedure::Imu9Axis => (TestKind::Imu9Axis, TestCommand::Imu),
        _ => {
            return None;
        },
    };
    if test_lifecycle(kind).start(family, state, "Starting") {
        Some(command)
    } else {
        None
    }
}

/// Request that the running test stop, returning the interrupt to send to any drive
/// in flight.
pub fn stop(family: &mut Family) -> (interrupt: InterruptKind)
    ensures
        final(family).latch@,
        final(family).slot == old(family).slot,
        interrupt == InterruptKind::Stop,
{
    family.latch.request()
}

/// Claim the test family's slot, reporting whether it was free.
pub fn claim_testmode(slot: &mut Slot) -> (was_free: bool)
    ensures
        was_free == !old(slot)@,
        *final(slot) == Slot::of(true),
{
    slot.claim()
}

/// Free the test family's slot.
pub fn release_testmode(slot: &mut Slot)
    ensures
        *final(slot) == Slot::of(false),
{
    slot.release();
}

/// Claim the test family's slot for the room scan, reporting whether it was free.
///
/// The room scan is no test, but it holds the same slot, so a test cannot start while
/// its radar is open and its radar cannot open while a test runs.
pub fn claim_room_scan(slot: &mut Slot) -> (was_free: bool)
    ensures
        was_free == !old(slot)@,
        *final(slot) == Slot::of(true),
{
    claim_testmode(slot)
}

/// Free the slot the room scan claimed.
pub fn release_room_scan(slot: &mut Slot)
    ensures
        *final(slot) == Slot::of(false),
{
    release_testmode(slot);
}

/// A short label for a drive completion status.
pub fn status_label(status: &CompletionStatus) -> (label: &'static str)
    ensures
        label@ == (match *status {
            CompletionStatus::Success => "Success"@,
            CompletionStatus::Cancelled => "Cancelled"@,
            CompletionStatus::Failed(_) => "Failed"@,
        }),
{
    match status {
        CompletionStatus::Success => "Success",
        CompletionStatus::Cancelled => "Cancelled",
        CompletionStatus::Failed(_) => "Failed",
    }
}

/// A procedure is a test exactly where it is recorded as one, and then as the same one.
pub proof fn law_tests_are_recorded_as_such(procedure: Procedure)
    ensures
        test_of(procedure) is Some <==> procedure::activity_of(procedure) matches Some(
            Activity::Test(_),
        ),
        test_of(procedure) matches Some((kind, _)) ==> procedure::activity_of(procedure) == Some(
            Activity::Test(kind),
        ),
{
}

/// A test is spawned by the command of its own name.
pub proof fn law_tests_have_their_command(procedure: Procedure)
    requires
        test_of(procedure) is Some,
    ensures
        ({
            let (kind, command) = test_of(procedure)->0;
            &&& kind is BasicMotor <==> command is BasicMotor
            &&& kind is Turns <==> command is Turns
            &&& kind is StraightDrive <==> command is StraightDrive
            &&& kind is ArcDrive <==> command is ArcDrive
            &&& kind is Imu6Axis <==> command is Imu6
            &&& kind is Imu9Axis <==> command is Imu
            &&& procedure is BasicMotor <==> command is BasicMotor
            &&& procedure is Turns <==> command is Turns
            &&& procedure is StraightDrive <==> command is StraightDrive
            &&& procedure is ArcDrive <==> command is ArcDrive
            &&& procedure is Imu6Axis <==> command is Imu6
            &&& procedure is Imu9Axis <==> command is Imu
        }),
{
}

/// The tests that drive end by themselves and say so; the others stream until they are
/// stopped and say nothing.
pub proof fn law_driving_tests_report(kind: TestKind)
    ensures
        lifecycle_of(kind).recorded == Activity::Test(kind),
        kind is Turns || kind is StraightDrive || kind is ArcDrive
            <==> lifecycle_of(kind).completion == Completion::OnSuccess(Events::TestingCompleted),
        kind is BasicMotor || kind is Imu6Axis || kind is Imu9Axis
            <==> lifecycle_of(kind).completion is Silent,
        procedure::ends_on_stop(Activity::Test(kind)) <==> lifecycle_of(kind).completion is Silent,
{
}

} // verus!
