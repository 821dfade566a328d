//! The tests the panel can start, turn by turn.

use explorer_robot::system::event::Events;
use explorer_robot::system::state::activity::{Activity, Snapshot, Stage, TestKind};
use explorer_robot::task::dialogue::{
    publish, Action, Answer, Ask, EncoderCommand, EncoderMeasurement, Turn,
};
use explorer_robot::task::drive::{
    CompletionStatus, DriveAction, DriveDirection, DriveDistanceKind, RotationDirection,
    TurnDirection,
};
use explorer_robot::task::motor_driver::{MotorCommand, Track};
use explorer_robot::task::sensors::imu::{DmpFusionMode, MagVector};
use explorer_robot::task::testmode;
use explorer_robot::task::testmode::basic_motor::{leg, leg_count, BasicMotorRun};
use explorer_robot::task::testmode::drive_test::{
    build_arc_queue, build_leg, build_settle, build_turn_queue, DriveTest, DriveTestRun,
};
use explorer_robot::task::testmode::imu_stream::{is_usable_field, ImuStreamRun, Present};

fn done() -> Answer {
    Answer::Driven(CompletionStatus::Success)
}

/// Answer a driving test until it is over, collecting its phases and its last turn.
fn drive_through(test: DriveTest) -> (Vec<(&'static str, Option<u8>)>, Turn) {
    let mut run = DriveTestRun::new(test);
    let mut turn = run.answer(Answer::Yes(true));
    let mut phases = Vec::new();
    loop {
        for action in &turn.actions {
            if let Action::Phase(detail, percent) = action {
                phases.push((*detail, *percent));
            }
        }
        turn = match turn.ask {
            Ask::Submit(_) => run.answer(done()),
            Ask::Over => return (phases, turn),
            _ => run.answer(Answer::Yes(false)),
        };
    }
}

#[test]
fn the_straight_test_drives_both_ways() {
    let (phases, last) = drive_through(DriveTest::Straight);
    assert_eq!(phases, vec![("Forward 150 cm", Some(0)), ("Backward 150 cm", Some(50))]);
    assert_eq!(
        last.actions,
        vec![Action::Drive(DriveAction::Coast), Action::Complete("Straight drive complete")]
    );
}

#[test]
fn the_turns_test_turns_at_four_speeds() {
    let (phases, last) = drive_through(DriveTest::Turns);
    assert_eq!(
        phases,
        vec![
            ("90 deg at 40", Some(0)),
            ("90 deg at 60", Some(25)),
            ("90 deg at 80", Some(50)),
            ("90 deg at 100", Some(75)),
        ]
    );
    assert_eq!(last.actions, vec![Action::Complete("Turns complete")]);
}

#[test]
fn the_arc_test_drives_one_circle() {
    let (phases, last) = drive_through(DriveTest::Arc);
    assert_eq!(phases, vec![("360 deg, r=100 cm", Some(0))]);
    assert_eq!(last.actions, vec![Action::Complete("Arc drive complete")]);
}

#[test]
fn an_uninitialised_robot_asks_for_initialisation_first() {
    let mut run = DriveTestRun::new(DriveTest::Arc);
    let turn = run.answer(Answer::Yes(false));
    assert_eq!(
        turn.actions,
        vec![Action::Raise(Events::Initialize), Action::SetFusion(DmpFusionMode::Axis6)]
    );
    assert_eq!(turn.ask, Ask::WaitOrStop(10_000));
}

#[test]
fn a_stop_in_the_countdown_releases_the_slot() {
    let mut run = DriveTestRun::new(DriveTest::Straight);
    let turn = run.answer(Answer::Yes(true));
    assert_eq!(turn.ask, Ask::WaitOrStop(5_000));
    let turn = run.answer(Answer::Yes(true));
    assert_eq!(turn.actions, vec![Action::Release]);
    assert_eq!(turn.ask, Ask::Over);
}

#[test]
fn a_refused_queue_fails_the_test() {
    let mut run = DriveTestRun::new(DriveTest::Turns);
    run.answer(Answer::Yes(true));
    run.answer(Answer::Yes(false));
    run.answer(Answer::Yes(false));
    let turn = run.answer(Answer::Refused("Queue busy"));
    assert_eq!(turn.actions, vec![Action::Fail("Queue busy"), Action::Release]);
}

#[test]
fn queues_hold_what_the_tests_drive() {
    assert_eq!(
        build_leg(DriveDirection::Backward).first,
        DriveAction::DriveDistance {
            kind: DriveDistanceKind::Straight { distance_um: 1_500_000 },
            direction: DriveDirection::Backward,
            speed: 70,
        }
    );
    assert_eq!(build_settle().second, Some(DriveAction::Idle { duration_ms: 500 }));
    assert_eq!(
        build_turn_queue(40).first,
        DriveAction::RotateExact {
            rotation_udeg: 90_000_000,
            towards: RotationDirection::Clockwise,
            speed: 40,
        }
    );
    assert_eq!(
        build_arc_queue().first,
        DriveAction::DriveDistance {
            kind: DriveDistanceKind::CurveArc {
                radius_um: 1_000_000,
                arc_length_um: 6_283_185,
                direction: TurnDirection::Left,
            },
            direction: DriveDirection::Forward,
            speed: 60,
        }
    );
}

#[test]
fn the_basic_motor_test_cycles_until_stopped() {
    let (mut run, turn) = BasicMotorRun::begin();
    assert_eq!(turn.actions.len(), 9);
    assert_eq!(turn.actions[7], Action::Encoder(EncoderCommand::Start { interval_ms: 50 }));
    let mut phases = Vec::new();
    let mut logged = Vec::new();
    let mut ask = turn.ask;
    for _ in 0..6 {
        assert_eq!(ask, Ask::StopRequested);
        let turn = run.answer(Answer::Yes(false));
        phases.push(turn.actions[0]);
        ask = turn.ask;
        let mut samples = 0;
        while ask == Ask::WaitOrStop(100) {
            samples += 1;
            let turn = run.answer(Answer::Yes(false));
            logged.push(turn.actions[0]);
            ask = turn.ask;
        }
        assert_eq!(samples, 20);
    }
    assert_eq!(logged.len(), 120);
    assert_eq!(logged[0], Action::LogCount("Left forward", Track::Left));
    assert_eq!(logged[19], Action::LogCount("Left forward", Track::Left));
    assert_eq!(logged[20], Action::LogCount("Left reverse", Track::Left));
    assert_eq!(logged[79], Action::LogCount("Right reverse", Track::Right));
    assert_eq!(logged[80], Action::LogCount("Left forward", Track::Left));
    assert_eq!(phases[0], Action::Phase("Left forward", Some(0)));
    assert_eq!(phases[3], Action::Phase("Right reverse", Some(75)));
    assert_eq!(phases[4], Action::Phase("Left forward", Some(0)));
    let turn = run.answer(Answer::Yes(true));
    assert_eq!(
        turn.actions,
        vec![
            Action::Motor(MotorCommand::CoastAll),
            Action::Encoder(EncoderCommand::Stop),
            Action::Motor(MotorCommand::SetAllDriversEnable { enabled: false }),
            Action::Release,
        ]
    );
}

#[test]
fn a_stop_inside_a_leg_coasts_first() {
    let (mut run, _) = BasicMotorRun::begin();
    run.answer(Answer::Yes(false));
    let turn = run.answer(Answer::Yes(true));
    assert_eq!(turn.actions, vec![Action::Motor(MotorCommand::CoastAll), Action::Delay(200)]);
    assert_eq!(turn.ask, Ask::StopRequested);
    assert_eq!(run.answer(Answer::Yes(true)).ask, Ask::Over);
}

#[test]
fn only_one_track_runs_in_a_leg() {
    assert_eq!((leg(0).left, leg(0).right), (50, 0));
    assert_eq!((leg(1).left, leg(1).right), (-50, 0));
    assert_eq!((leg(2).left, leg(2).right), (0, 50));
    assert_eq!((leg(3).left, leg(3).right), (0, -50));
    let counts = Some(EncoderMeasurement { left: 3, right: 9 });
    assert_eq!(leg_count(Track::Left, counts), 3);
    assert_eq!(leg_count(Track::Right, counts), 9);
    assert_eq!(leg_count(Track::Right, None), 0);
}

#[test]
fn imu_samples_are_reported_once_a_second() {
    let (mut run, turn) = ImuStreamRun::begin(DmpFusionMode::Axis6);
    assert_eq!(turn.actions[3], Action::Phase("6-axis streaming", None));
    let nothing = Present { orientation: false, gyro: false, mag: true };
    let mut reports = Vec::new();
    for tick in 1..=100u32 {
        let sample = run.sample(nothing);
        assert_eq!(sample.missing, tick);
        if sample.report {
            reports.push(tick);
        }
    }
    assert_eq!(reports, vec![50, 100]);
    assert_eq!(run.sample(Present { gyro: true, ..nothing }).missing, 0);
    assert_eq!(run.end().actions, vec![Action::StopImu, Action::Release]);
}

#[test]
fn the_magnetometer_counts_only_where_it_is_fused() {
    let (mut run, turn) = ImuStreamRun::begin(DmpFusionMode::Axis9);
    assert_eq!(turn.actions[3], Action::Phase("9-axis streaming", None));
    let mag = Present { orientation: false, gyro: false, mag: true };
    assert_eq!(run.sample(mag).missing, 0);
    assert_eq!(run.sample(Present { mag: false, ..mag }).missing, 1);
}

#[test]
fn a_field_is_usable_between_its_bounds() {
    assert!(!is_usable_field(MagVector { x: 20_000, y: 0, z: 0 }));
    assert!(is_usable_field(MagVector { x: 20_000, y: 1, z: 0 }));
    assert!(!is_usable_field(MagVector { x: 0, y: 0, z: -200_000 }));
    assert!(is_usable_field(MagVector { x: 0, y: 0, z: -199_999 }));
}

#[test]
fn actions_are_published_through_the_lifecycle() {
    let mut family = testmode::test_family();
    let mut state = Snapshot::new();
    let lifecycle = testmode::test_lifecycle(TestKind::Turns);
    assert!(lifecycle.start(&mut family, &mut state, "Starting"));
    assert_eq!(publish(Action::Phase("one", Some(3)), &lifecycle, &mut family, &mut state), None);
    assert_eq!((state.detail, state.percent), ("one", Some(3)));
    assert_eq!(
        publish(Action::Raise(Events::Initialize), &lifecycle, &mut family, &mut state),
        Some(Events::Initialize)
    );
    assert_eq!(publish(Action::Delay(5), &lifecycle, &mut family, &mut state), None);
    assert_eq!(publish(Action::Fail("why"), &lifecycle, &mut family, &mut state), None);
    assert_eq!(state.stage, Stage::Failed);
    assert_eq!(publish(Action::Release, &lifecycle, &mut family, &mut state), None);
    assert!(lifecycle.start(&mut family, &mut state, "again"));
    assert_eq!(
        publish(Action::Complete("done"), &lifecycle, &mut family, &mut state),
        Some(Events::TestingCompleted)
    );
    assert_eq!(publish(Action::Abandon, &lifecycle, &mut family, &mut state), None);
    assert_eq!(state.activity, Activity::Idle);
}
