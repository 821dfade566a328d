//! The autonomous modes.

use explorer_robot::lidar_cloud::{Cloud, SLOTS};
use explorer_robot::system::event::Events;
use explorer_robot::task::autonomous_mode::attempt_straight_line;
use explorer_robot::task::autonomous_mode::attempt_straight_line::{
    extract_progress_um, idle_display, AttemptRun, AttemptStep, DriveReport,
};
use explorer_robot::task::autonomous_mode::coast_obstacle_avoid::{
    random_turn_angle, stop, AfterRequest, CoastControl, CoastRun, CoastStart, LidarRequest,
    StartError,
};
use explorer_robot::task::dialogue::{Action, Answer, Ask};
use explorer_robot::task::drive::{DriveAction, DriveDirection, DriveDistanceKind, RotationDirection};
use explorer_robot::task::motor_driver::MotorCommand;
use explorer_robot::task::sensors::lidar::LidarStatus;

fn control() -> CoastControl {
    CoastControl { active: false, stop_requested: true }
}

#[test]
fn a_start_waits_for_the_sensor() {
    let mut flags = control();
    let (mut start, step) = CoastStart::begin(&mut flags, LidarStatus::Off);
    assert!(!flags.stop_requested);
    assert_eq!(step.lidar, LidarRequest::Enable);
    let step = start.poll(&mut flags, LidarStatus::Warming);
    assert_eq!(step.after, AfterRequest::PollLater);
    let step = start.poll(&mut flags, LidarStatus::Streaming);
    assert_eq!(step.after, AfterRequest::RequestSlot);
    assert!(flags.active);
    assert_eq!(start.on_slot(&mut flags, true).after, AfterRequest::Started);
    assert!(flags.active);
}

#[test]
fn every_refusal_says_why() {
    let mut flags = control();
    let (mut start, _) = CoastStart::begin(&mut flags, LidarStatus::Off);
    let step = start.poll(&mut flags, LidarStatus::Failed);
    assert_eq!(step.lidar, LidarRequest::Disable);
    assert_eq!(step.after, AfterRequest::Refused(StartError::LidarUnavailable));

    let (mut start, _) = CoastStart::begin(&mut flags, LidarStatus::Off);
    stop(&mut flags);
    let step = start.poll(&mut flags, LidarStatus::Streaming);
    assert_eq!(step.after, AfterRequest::Refused(StartError::Cancelled));
    assert!(!flags.active);

    let (mut start, _) = CoastStart::begin(&mut flags, LidarStatus::Streaming);
    start.poll(&mut flags, LidarStatus::Streaming);
    let step = start.on_slot(&mut flags, false);
    assert_eq!(step.lidar, LidarRequest::Disable);
    assert_eq!(step.after, AfterRequest::Refused(StartError::Busy));
    assert!(!flags.active);

    assert_eq!(StartError::Busy.label(), "LiDAR busy");
    assert_eq!(StartError::LidarUnavailable.label(), "LiDAR unavailable");
    assert_eq!(StartError::Cancelled.label(), "Stopped");
}

#[test]
fn a_failed_sensor_is_reset_before_a_start() {
    let mut flags = control();
    let (mut start, step) = CoastStart::begin(&mut flags, LidarStatus::Failed);
    assert_eq!(step.lidar, LidarRequest::Disable);
    assert_eq!(start.poll(&mut flags, LidarStatus::Failed).after, AfterRequest::PollLater);
    assert_eq!(start.poll(&mut flags, LidarStatus::Off).lidar, LidarRequest::Enable);
}

#[test]
fn random_turns_lie_in_their_range() {
    for seed in 0..500 {
        let degrees = random_turn_angle(seed * 7_919);
        assert!((45..=180).contains(&degrees));
    }
    let distinct: std::collections::BTreeSet<u8> =
        (0..500).map(|seed| random_turn_angle(seed * 7_919)).collect();
    assert!(distinct.len() > 20);
}

#[test]
fn a_hazard_is_backed_away_from_and_turned_from() {
    let (mut run, turn) = CoastRun::begin();
    assert_eq!(turn.actions[0], Action::Motor(MotorCommand::BrakeAll));
    let turn = run.answer(Answer::Yes(false));
    assert_eq!(
        turn.actions,
        vec![Action::Motor(MotorCommand::SetTracks { left_speed: 80, right_speed: 80 })]
    );
    assert_eq!(run.answer(Answer::Yes(false)).ask, Ask::Hazard);
    assert_eq!(run.answer(Answer::Yes(false)).actions, vec![Action::Delay(100)]);
    assert_eq!(run.answer(Answer::Yes(false)).ask, Ask::Hazard);
    let turn = run.answer(Answer::Yes(true));
    assert_eq!(turn.actions, vec![Action::Motor(MotorCommand::BrakeAll), Action::Delay(200)]);
    let turn = run.answer(Answer::Yes(false));
    assert_eq!(
        turn.actions,
        vec![
            Action::Motor(MotorCommand::SetTracks { left_speed: -60, right_speed: -60 }),
            Action::Delay(600),
        ]
    );
    run.answer(Answer::Yes(false));
    let turn = run.answer(Answer::Yes(false));
    assert_eq!(
        turn.actions,
        vec![
            Action::Motor(MotorCommand::SetTracks { left_speed: 60, right_speed: -60 }),
            Action::Delay(250),
        ]
    );
    let turn = run.answer(Answer::Yes(false));
    assert_eq!(turn.actions[2], Action::Raise(Events::ObstacleAvoidanceAttempted));
    assert_eq!(turn.ask, Ask::Micros);
    assert_eq!(run.answer(Answer::Micros(12_345)).ask, Ask::StopRequested);
    assert!(!run.clockwise);
    run.reroll(90);
    assert_eq!(run.turn_degrees, 90);
    assert!(run.clockwise);
}

#[test]
fn a_stop_ends_the_mode_with_everything_off() {
    let (mut run, _) = CoastRun::begin();
    let turn = run.answer(Answer::Yes(true));
    assert_eq!(
        turn.actions,
        vec![
            Action::Motor(MotorCommand::BrakeAll),
            Action::Delay(200),
            Action::Motor(MotorCommand::SetAllDriversEnable { enabled: false }),
            Action::DisableLidar,
            Action::Release,
        ]
    );
    assert_eq!(turn.ask, Ask::Over);
}

/// Open ahead, with a wall behind.
fn open_room() -> Cloud {
    let mut slots = [Some(3_000); SLOTS];
    for slot in slots.iter_mut().take(271).skip(90) {
        *slot = Some(200);
    }
    Cloud::from_slots(slots, 0)
}

#[test]
fn a_straight_line_is_attempted_leg_by_leg() {
    let mut run = AttemptRun::begin(100);
    assert_eq!(run.display.state_label, "Starting...");
    let mut legs = 0;
    loop {
        match run.on_check(true) {
            AttemptStep::Analyze => {
                assert_eq!(run.display.state_label, "Analyzing...");
                run.on_cloud(Some(&open_room()));
            }
            AttemptStep::Drive(queue) => {
                legs += 1;
                assert_eq!(run.display.state_label, "Driving...");
                let leg = if let DriveAction::DriveDistance {
                    kind: DriveDistanceKind::Straight { distance_um },
                    ..
                } = queue.second.unwrap_or(queue.first)
                {
                    distance_um
                } else {
                    panic!("not a drive");
                };
                run.on_drive(
                    DriveReport::Driven {
                        progress_um: i128::from(leg),
                        offset_um: 0,
                    },
                    true,
                );
            }
            AttemptStep::Finish(label) => {
                assert_eq!(label, "Target reached");
                break;
            }
            AttemptStep::CheckActive => {}
        }
    }
    assert_eq!(legs, 3);
    assert_eq!(run.display.progress_um, 1_000_000);
    assert_eq!(run.remaining(), 0);
}

#[test]
fn a_leg_ends_where_the_target_is() {
    let mut run = AttemptRun::begin(100);
    run.on_check(true);
    run.on_cloud(Some(&open_room()));
    run.on_check(true);
    // The first leg ended between two millimetres.
    run.on_drive(DriveReport::Driven { progress_um: 999_766, offset_um: 0 }, true);
    assert_eq!(run.remaining(), 234);
    run.on_check(true);
    run.on_cloud(Some(&open_room()));
    match run.on_check(true) {
        AttemptStep::Drive(queue) => assert!(matches!(
            queue.second.unwrap_or(queue.first),
            DriveAction::DriveDistance {
                kind: DriveDistanceKind::Straight { distance_um: 234 },
                ..
            }
        )),
        other => panic!("not a drive: {other:?}"),
    }
    // Driven far back, the way is longer; past the target there is none left.
    let mut back = AttemptRun::begin(1);
    back.display.progress_um = i128::MIN;
    assert_eq!(back.remaining(), i128::MAX);
    back.display.progress_um = 10_001;
    assert_eq!(back.remaining(), -1);
}

#[test]
fn a_gap_aside_is_faced_first() {
    let mut slots = [Some(100); SLOTS];
    for slot in slots.iter_mut().take(41) {
        *slot = Some(1_000);
    }
    let mut run = AttemptRun::begin(300);
    run.on_check(true);
    run.on_cloud(Some(&Cloud::from_slots(slots, 0)));
    let AttemptStep::Drive(queue) = run.on_check(true) else { panic!("no drive") };
    assert_eq!(
        queue.first,
        DriveAction::RotateExact {
            rotation_udeg: 20_500_000,
            towards: RotationDirection::CounterClockwise,
            speed: 60,
        }
    );
    assert_eq!(
        queue.second,
        Some(DriveAction::DriveDistance {
            kind: DriveDistanceKind::Straight { distance_um: 400_000 },
            direction: DriveDirection::Forward,
            speed: 70,
        })
    );
    // Facing it counter-clockwise takes the turn off the heading.
    assert_eq!(run.heading_after(), -20_500_000);
    run.on_drive(DriveReport::Driven { progress_um: 1, offset_um: 3 }, true);
    assert_eq!(run.display.heading_udeg, -20_500_000);
    assert_eq!(run.heading_after(), -20_500_000);
}

#[test]
fn an_attempt_ends_for_each_of_its_reasons() {
    let mut run = AttemptRun::begin(100);
    assert_eq!(run.on_check(false), AttemptStep::Finish("Aborted"));

    let mut run = AttemptRun::begin(100);
    run.on_check(true);
    run.on_cloud(None);
    assert_eq!(run.on_check(true), AttemptStep::Finish("Blocked - finished"));

    for (report, label) in [
        (DriveReport::QueueBusy, "Error: queue busy"),
        (DriveReport::QueueFull, "Error: queue full"),
    ] {
        let mut run = AttemptRun::begin(100);
        run.on_cloud(Some(&open_room()));
        run.on_check(true);
        assert_eq!(run.on_drive(report, true), AttemptStep::Finish(label));
        assert_eq!(run.display.state_label, label);
    }

    let mut run = AttemptRun::begin(100);
    let leg = DriveReport::Driven { progress_um: 5, offset_um: 2 };
    assert_eq!(run.on_drive(leg, false), AttemptStep::Finish("Aborted"));
    assert_eq!(run.display.progress_um, 5);
    assert_eq!(run.display.heading_udeg, 0);
    assert_eq!(run.display.offset_um, 2);
}

#[test]
fn revolutions_become_progress() {
    // Two and a half revolutions of twenty centimetres.
    assert_eq!(extract_progress_um(2_000_000, 3_000_000, 200_000, 1_000_000), 500_000);
    // A factor of one and a quarter is taken out again.
    assert_eq!(extract_progress_um(2_500_000, 2_500_000, 200_000, 1_250_000), 400_000);
    // A factor that is not positive is left out.
    assert_eq!(extract_progress_um(2_500_000, 2_500_000, 200_000, 0), 500_000);
    assert_eq!(extract_progress_um(-1_000_000, -1_000_000, 200_000, 1_000_000), -200_000);
}

#[test]
fn targets_have_their_range() {
    assert_eq!(attempt_straight_line::target_min_cm(), 100);
    assert_eq!(attempt_straight_line::target_max_cm(), 1000);
    assert_eq!(attempt_straight_line::target_step_cm(), 10);
    assert_eq!(attempt_straight_line::target_preset_cm(), 300);
    assert_eq!(idle_display().state_label, "Idle");
}
