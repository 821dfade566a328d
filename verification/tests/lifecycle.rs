//! Activities, perception and the lifecycle of procedures.

use explorer_robot::lidar_cloud::Cloud;
use explorer_robot::system::event::Events;
use explorer_robot::system::state::activity;
use explorer_robot::system::state::activity::{
    Activity, CalibrationKind, DriveModeKind, Snapshot, Stage, StopRequest, TestKind,
};
use explorer_robot::system::state::perception;
use explorer_robot::system::state::perception::{ChangeDetected, PerceptionState};
use explorer_robot::task::drive::{CompletionStatus, InterruptKind};
use explorer_robot::task::procedure::{Completion, Family, Lifecycle, Procedure, Slot, StopLatch};
use explorer_robot::task::testmode;
use explorer_robot::task::testmode::TestCommand;

#[test]
fn an_idle_state_is_not_resurrected() {
    let mut state = Snapshot::new();
    activity::set_running(&mut state, "late", Some(5));
    activity::complete(&mut state, "late");
    activity::fail(&mut state, "late");
    assert_eq!(state.activity, Activity::Idle);
    assert_eq!(state.detail, "");
}

#[test]
fn an_activity_moves_along_and_is_cleared() {
    let mut state = Snapshot::new();
    let turns = Activity::Test(TestKind::Turns);
    assert!(activity::begin_if_idle(&mut state, turns, "go", false));
    assert!(!activity::begin_if_idle(&mut state, Activity::Booting, "no", false));
    activity::set_running(&mut state, "phase", Some(25));
    assert_eq!((state.stage, state.detail, state.percent), (Stage::Running, "phase", Some(25)));
    assert!(!activity::set_running_for(&mut state, Activity::Booting, "no", None));
    assert!(activity::set_running_for(&mut state, turns, "yes", None));
    activity::complete(&mut state, "done");
    assert_eq!((state.stage, state.percent), (Stage::Complete, Some(100)));
    assert!(!activity::clear_for(&mut state, Activity::Booting));
    assert!(activity::clear_for(&mut state, turns));
    assert_eq!(activity::snapshot(&state).activity, Activity::Idle);
}

#[test]
fn titles_name_the_activity() {
    assert_eq!(Snapshot::new().title(), "Running");
    assert_eq!(Activity::Booting.title(), "Boot");
    assert_eq!(Activity::Test(TestKind::Imu9Axis).title(), "IMU Test (9-axis)");
    assert_eq!(Activity::Calibration(CalibrationKind::Distance).title(), "Distance");
    assert_eq!(Activity::DriveMode(DriveModeKind::CoastAndAvoid).title(), "Coast & Avoid");
    assert!(TestKind::BasicMotor.is_interactive());
    assert!(!TestKind::Turns.is_interactive());
}

#[test]
fn a_finished_calibration_is_no_longer_under_way() {
    let mut state = Snapshot::new();
    activity::begin(&mut state, Activity::Calibration(CalibrationKind::Mag), "go", false);
    assert!(activity::is_calibrating(&state));
    activity::fail(&mut state, "why");
    assert!(!activity::is_calibrating(&state));
}

#[test]
fn percent_counts_what_is_done() {
    assert_eq!(activity::percent_done(0, 4), 0);
    assert_eq!(activity::percent_done(1, 7), 14);
    assert_eq!(activity::percent_done(4, 4), 100);
    assert_eq!(activity::percent_done(3, 0), 100);
    assert_eq!(activity::percent_done(usize::MAX, 1), 100);
}

#[test]
fn a_stop_request_stays_until_rearmed() {
    let mut latch = StopRequest::new();
    assert!(!latch.wait_or(false));
    assert!(latch.wait_or(true));
    latch.request();
    assert!(latch.is_requested());
    assert!(latch.wait());
    assert!(latch.wait_or(false));
    latch.rearm();
    assert!(!latch.is_requested());
}

#[test]
fn perception_reports_changes() {
    let mut state = PerceptionState::new();
    assert_eq!(perception::set_lidar_obstacle(&mut state, true), ChangeDetected::ChangedToDetected);
    assert_eq!(perception::set_lidar_obstacle(&mut state, true), ChangeDetected::NoChange);
    perception::set_floor_drop(&mut state, true);
    perception::update_lidar_points(&mut state, Cloud::default());
    assert!(perception::with_lidar(&state).is_some());
    assert_eq!(perception::clear_lidar_state(&mut state), ChangeDetected::ChangedToCleared);
    assert!(perception::get_lidar_snapshot(&state).is_none());
    assert!(!perception::is_obstacle_detected(&state));
    assert!(perception::is_floor_drop_detected(&state));
}

#[test]
fn one_test_at_a_time() {
    let mut family = testmode::test_family();
    let mut state = Snapshot::new();
    assert_eq!(
        testmode::start(&mut family, &mut state, Procedure::StraightDrive),
        Some(TestCommand::StraightDrive)
    );
    assert_eq!(state.detail, "Starting");
    assert_eq!(testmode::start(&mut family, &mut state, Procedure::Turns), None);
    assert_eq!(state.activity, Activity::Test(TestKind::StraightDrive));
    assert_eq!(testmode::start(&mut family, &mut state, Procedure::MotorCalibration), None);

    let lifecycle = testmode::test_lifecycle(TestKind::StraightDrive);
    assert_eq!(
        lifecycle.complete(&mut family, &mut state, "Straight drive complete"),
        Some(Events::TestingCompleted)
    );
    assert_eq!(
        testmode::start(&mut family, &mut state, Procedure::Imu9Axis),
        Some(TestCommand::Imu)
    );
    assert!(state.interactive);
}

#[test]
fn a_stale_stop_is_forgotten_by_the_next_start() {
    let mut family = testmode::test_family();
    let mut state = Snapshot::new();
    assert_eq!(testmode::stop(&mut family), InterruptKind::Stop);
    assert!(family.latch.is_requested());
    assert!(testmode::start(&mut family, &mut state, Procedure::Imu6Axis).is_some());
    assert!(!family.latch.is_requested());
}

#[test]
fn failures_and_abandonments_end_a_lifecycle() {
    let mut family = Family { latch: StopLatch::new(), slot: Some(Slot::guarded()) };
    let mut state = Snapshot::new();
    let both = Lifecycle::new(
        Activity::Calibration(CalibrationKind::Motor),
        Completion::OnBoth(Events::CalibrationCompleted),
    );
    assert!(both.start(&mut family, &mut state, "go"));
    both.phase(&mut state, "half", Some(50));
    assert!(!both.is_stop_requested(&family));
    assert!(both.wait_or_stop(&family, true));
    assert_eq!(both.fail(&mut state, "why"), Some(Events::CalibrationCompleted));
    assert_eq!((state.stage, state.detail), (Stage::Failed, "why"));
    both.abandon(&mut family, &mut state);
    assert_eq!(state.activity, Activity::Idle);
    assert!(both.start(&mut family, &mut state, "again"));
    both.release(&mut family);
    let silent = Lifecycle::new(Activity::Booting, Completion::Silent);
    assert_eq!(silent.complete(&mut family, &mut state, "x"), None);
}

#[test]
fn the_room_scan_shares_the_tests_slot() {
    let mut slot = Slot::guarded();
    assert!(testmode::claim_room_scan(&mut slot));
    assert!(!testmode::claim_testmode(&mut slot));
    testmode::release_room_scan(&mut slot);
    assert!(testmode::claim_testmode(&mut slot));
    testmode::release_testmode(&mut slot);
    assert!(testmode::claim_room_scan(&mut slot));
}

#[test]
fn labels_name_the_completion() {
    assert_eq!(testmode::status_label(&CompletionStatus::Success), "Success");
    assert_eq!(testmode::status_label(&CompletionStatus::Cancelled), "Cancelled");
    assert_eq!(testmode::status_label(&CompletionStatus::Failed("x")), "Failed");
    assert_eq!(Procedure::CoastAndAvoid.activity(), Some(Activity::DriveMode(DriveModeKind::CoastAndAvoid)));
    assert_eq!(Procedure::AttemptStraight.activity(), None);
}
