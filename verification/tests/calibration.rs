//! The calibrations.

use explorer_robot::system::event::Events;
use explorer_robot::system::state::activity::{Activity, CalibrationKind, Snapshot, Stage};
use explorer_robot::system::state::{CalibrationState, CalibrationStatus};
use explorer_robot::task::dialogue::{Action, Answer, Ask, EncoderMeasurement, Turn};
use explorer_robot::task::drive::calibration::distance::{
    build_drive_queue, factor, DistanceCalibration, DriveOutcome, DriveStepRun,
};
use explorer_robot::task::drive::calibration::imu::{
    MagCalibrationPhase, MagCalibrationRun, Rotation,
};
use explorer_robot::task::drive::calibration::mag::{
    accept, fit, interference_step, square_of, subtract_mag, HeadingSwing, InterferenceData,
    MagCoverage, MagSample,
};
use explorer_robot::task::drive::calibration::motor::{balance, MotorCalibrationRun, TrackFactors};
use explorer_robot::task::drive::calibration::{
    calibration_family, calibration_lifecycle, is_stop_requested, request_stop, start,
};
use explorer_robot::task::drive::{
    CompletionStatus, DriveAction, DriveDirection, DriveDistanceKind, InterruptKind,
};
use explorer_robot::task::io::flash_storage::{CalibrationDataKind, ImuCalibrationFlags};
use explorer_robot::task::motor_driver::{MotorCalibration, MotorCommand};
use explorer_robot::task::procedure::Completion;
use explorer_robot::task::sensors::imu::{DmpFusionMode, MagScale, MagVector};

fn state(factor_ppm: i32) -> CalibrationState {
    CalibrationState {
        motor_cal_status: CalibrationStatus::Loaded,
        imu_cal_status: CalibrationStatus::Loaded,
        mag_cal_status: CalibrationStatus::Loaded,
        distance_cal_status: CalibrationStatus::NotAvailable,
        distance_factor_ppm: factor_ppm,
    }
}

#[test]
fn the_family_stops_as_one() {
    let mut family = calibration_family();
    assert!(!is_stop_requested(&family));
    assert_eq!(request_stop(&mut family), InterruptKind::Stop);
    assert!(is_stop_requested(&family));
    let motor = calibration_lifecycle(CalibrationKind::Motor);
    assert_eq!(motor.recorded, Activity::Calibration(CalibrationKind::Motor));
    assert_eq!(motor.completion, Completion::OnBoth(Events::CalibrationCompleted));
    assert_eq!(calibration_lifecycle(CalibrationKind::Distance).completion, Completion::Silent);
}

#[test]
fn a_calibration_starts_with_its_first_detail() {
    let mut family = calibration_family();
    let mut activity = Snapshot::new();
    for (kind, detail) in [
        (CalibrationKind::Motor, "Enabling drivers"),
        (CalibrationKind::Mag, "Initializing"),
        (CalibrationKind::Distance, "Driving 150 cm"),
    ] {
        request_stop(&mut family);
        let lifecycle = start(&mut family, &mut activity, kind).unwrap();
        assert_eq!(lifecycle.recorded, Activity::Calibration(kind));
        assert!(!is_stop_requested(&family));
        assert_eq!(activity.activity, Activity::Calibration(kind));
        assert_eq!(activity.stage, Stage::Running);
        assert_eq!(activity.detail, detail);
    }
}

#[test]
fn a_measured_distance_gives_its_factor() {
    assert_eq!(factor(150), 1_000_000);
    assert_eq!(factor(100), 1_500_000);
    assert_eq!(factor(160), 937_500);
    assert_eq!(factor(0), 10_000_000);
    assert_eq!(factor(-3), 100_000);
    assert_eq!(factor(1), 10_000_000);
    assert_eq!(factor(100_000), 100_000);
}

#[test]
fn an_aborted_distance_calibration_restores_the_factor() {
    let mut calibration = DistanceCalibration::new();
    let mut known = state(1_200_000);
    calibration.begin(&mut known);
    assert_eq!(known.distance_factor_ppm, 1_000_000);
    calibration.abort(&mut known);
    assert_eq!(known.distance_factor_ppm, 1_200_000);
    known.distance_factor_ppm = 7;
    calibration.abort(&mut known);
    assert_eq!(known.distance_factor_ppm, 7);
}

#[test]
fn a_committed_distance_calibration_stays() {
    let mut calibration = DistanceCalibration::new();
    let mut known = state(1_000_000);
    calibration.begin(&mut known);
    assert_eq!(known.distance_cal_status, CalibrationStatus::NotAvailable);
    assert_eq!(calibration.commit(&mut known, 120), 1_250_000);
    assert_eq!(known.distance_cal_status, CalibrationStatus::Loaded);
    calibration.abort(&mut known);
    assert_eq!(known.distance_factor_ppm, 1_250_000);
}

fn drive_step() -> (DriveStepRun, Turn) {
    let (mut run, turn) = DriveStepRun::begin();
    assert_eq!(turn.actions, vec![Action::Phase("Get ready", Some(0))]);
    assert_eq!(run.answer(Answer::Yes(false)).actions, vec![Action::Phase("Get ready", Some(33))]);
    assert_eq!(run.answer(Answer::Yes(false)).actions, vec![Action::Phase("Get ready", Some(66))]);
    let turn = run.answer(Answer::Yes(false));
    assert_eq!(turn.actions, vec![Action::Phase("Driving 150 cm", None)]);
    (run, turn)
}

#[test]
fn the_distance_drive_ends_at_the_value_screen() {
    let (mut run, turn) = drive_step();
    assert_eq!(turn.ask, Ask::Submit(build_drive_queue()));
    assert_eq!(
        build_drive_queue().first,
        DriveAction::DriveDistance {
            kind: DriveDistanceKind::Straight { distance_um: 1_500_000 },
            direction: DriveDirection::Forward,
            speed: 70,
        }
    );
    let turn = run.answer(Answer::Driven(CompletionStatus::Success));
    assert_eq!(turn.actions, vec![Action::Drive(DriveAction::Brake)]);
    assert_eq!(run.outcome(), None);
    let turn = run.answer(Answer::Yes(false));
    assert_eq!(turn.actions, vec![Action::Phase("Enter measured distance", None)]);
    assert_eq!(run.outcome(), Some(DriveOutcome::Complete));
}

#[test]
fn a_stopped_or_failed_distance_drive_says_so() {
    let (mut run, _) = drive_step();
    let turn = run.answer(Answer::Driven(CompletionStatus::Cancelled));
    assert_eq!(turn.actions, vec![Action::RestoreDistanceFactor, Action::Abandon]);
    assert_eq!(run.outcome(), Some(DriveOutcome::Stopped));

    let (mut run, _) = drive_step();
    let turn = run.answer(Answer::Driven(CompletionStatus::Failed("stuck")));
    assert_eq!(turn.actions, vec![Action::Fail("stuck")]);
    assert_eq!(run.outcome(), Some(DriveOutcome::Failed));

    let (mut run, _) = drive_step();
    assert_eq!(run.answer(Answer::Refused("busy")).actions, vec![Action::Fail("busy")]);
}

/// Run the motor calibration with these counts.
fn calibrate_motors(left: u16, right: u16) -> Turn {
    let (mut run, turn) = MotorCalibrationRun::begin();
    assert_eq!(turn.actions.len(), 12);
    for _ in 0..2 {
        assert_eq!(run.answer(Answer::Yes(false)).ask, Ask::WaitOrStop(1_000));
        assert_eq!(run.answer(Answer::Yes(false)).ask, Ask::Pulses(500));
        let counts = Answer::Pulses(Some(EncoderMeasurement { left, right }));
        assert_eq!(run.answer(counts).ask, Ask::WaitOrStop(500));
        let turn = run.answer(Answer::Yes(false));
        if turn.ask == Ask::Over {
            return turn;
        }
    }
    panic!("the calibration did not end");
}

#[test]
fn counted_tracks_are_balanced_and_stored() {
    let turn = calibrate_motors(100, 80);
    assert_eq!(
        turn.actions[1],
        Action::Motor(MotorCommand::UpdateAllCalibration {
            left_factor_ppm: 1_000_000,
            right_factor_ppm: 1_250_000,
        })
    );
    let stored = MotorCalibration { left_factor_ppm: 1_000_000, right_factor_ppm: 1_250_000 };
    assert_eq!(turn.actions[3], Action::Save(CalibrationDataKind::Motor(stored)));
    assert_eq!(turn.actions[6], Action::Complete("Calibration saved"));
    assert_eq!(
        balance(180, 200),
        Some(TrackFactors { left_ppm: 1_111_111, right_ppm: 1_000_000 })
    );
    assert_eq!(balance(7, 7), Some(TrackFactors { left_ppm: 1_000_000, right_ppm: 1_000_000 }));
    // A silent track keeps its factor.
    assert_eq!(balance(0, 5), Some(TrackFactors { left_ppm: 1_000_000, right_ppm: 1_000_000 }));
}

#[test]
fn factors_beyond_the_range_are_cut() {
    // One and a half is the most.
    let most = MotorCalibration { left_factor_ppm: 1_500_000, right_factor_ppm: 1_000_000 };
    let turn = calibrate_motors(100, 150);
    assert_eq!(turn.actions[3], Action::Save(CalibrationDataKind::Motor(most)));
    let turn = calibrate_motors(100, 151);
    assert_eq!(
        turn.actions[1],
        Action::Motor(MotorCommand::UpdateAllCalibration {
            left_factor_ppm: 1_510_000,
            right_factor_ppm: 1_000_000,
        })
    );
    assert_eq!(turn.actions[3], Action::Save(CalibrationDataKind::Motor(most)));
    assert_eq!(turn.actions[6], Action::Complete("Calibration saved"));
    let turn = calibrate_motors(50, 100);
    assert_eq!(turn.actions[3], Action::Save(CalibrationDataKind::Motor(most)));
    assert_eq!(turn.actions[6], Action::Complete("Calibration saved"));
    assert_eq!(calibrate_motors(0, 9).actions[6], Action::Complete("Calibration saved"));
    assert_eq!(
        balance(1, 65_535),
        Some(TrackFactors { left_ppm: 65_535_000_000, right_ppm: 1_000_000 })
    );
}

#[test]
fn silent_tracks_fail_the_calibration() {
    let turn = calibrate_motors(0, 0);
    assert_eq!(turn.actions[4], Action::Fail("Zero encoder — check wiring"));
    assert_eq!(balance(0, 0), None);
}

#[test]
fn a_stopped_motor_calibration_turns_the_motors_off() {
    let (mut run, _) = MotorCalibrationRun::begin();
    run.answer(Answer::Yes(false));
    let turn = run.answer(Answer::Yes(true));
    assert_eq!(turn.actions[0], Action::Motor(MotorCommand::CoastAll));
    assert_eq!(turn.actions[3], Action::Motor(MotorCommand::SetAllDriversEnable { enabled: false }));
    assert_eq!(turn.actions[4], Action::Abandon);
}

fn field(x: i32, y: i32, z: i32) -> MagVector {
    MagVector { x, y, z }
}

#[test]
fn coverage_spans_its_readings() {
    let mut coverage = MagCoverage::new();
    assert_eq!(coverage.axes_ok(), 0);
    coverage.update(field(-10_000, 5, 40_000));
    coverage.update(field(20_000, 10, -2));
    assert_eq!(coverage.ranges(), (30_000, 5, 40_002));
    assert_eq!(coverage.axes_ok(), 2);
    assert_eq!(coverage.samples, 2);
}

#[test]
fn a_heading_is_followed_across_the_half_turn() {
    let mut swing = HeadingSwing::new();
    for (i, degrees) in [170, 179, -179, -160].iter().enumerate() {
        swing.follow(degrees * 1_000_000, i as u32);
    }
    assert_eq!(swing.max - swing.min, 30_000_000);
    assert!(swing.reaches(30_000_000, 4));
    assert!(!swing.reaches(30_000_001, 4));
    swing.follow(170_000_000, 4);
    assert_eq!(swing.min, 170_000_000);
}

#[test]
fn a_covered_field_gives_bias_and_scale() {
    let mut coverage = MagCoverage::new();
    coverage.update(field(-30_000, -20_000, -50_000));
    coverage.update(field(50_000, 20_000, 70_000));
    let (bias, scale) = fit(&coverage);
    assert_eq!(bias, field(10_000, 0, 10_000));
    assert_eq!(scale, MagScale { x: 1_000_000, y: 2_000_000, z: 666_666 });
}

#[test]
fn a_corrected_field_is_held_to_its_bounds() {
    let unit = MagScale { x: 1_000_000, y: 1_000_000, z: 1_000_000 };
    let none = field(0, 0, 0);
    let square = square_of(field(33_000, 44_000, 0), field(3_000, 4_000, 0), none, unit);
    assert_eq!(square, 50_000 * 50_000);
    let baseline = square_of(field(0, 0, 50_000), none, none, unit);
    assert!(accept(square, baseline));
    assert!(!accept(19_999 * 19_999, 19_999 * 19_999));
    assert!(!accept(200_001 * 200_001, 200_001 * 200_001));
    assert!(accept(70_000 * 70_000, baseline));
    assert!(!accept(70_001 * 70_001, baseline));
    assert!(accept(30_000 * 30_000, baseline));
    assert!(!accept(29_999 * 29_999, baseline));
    assert_eq!(subtract_mag(field(1, 2, 3), field(3, 2, 1)), field(-2, 0, 2));
}

#[test]
fn interference_is_kept_per_step() {
    let mut data = InterferenceData::new();
    for index in 0..6 {
        data.set(index, field(index as i32, 0, 0));
    }
    for index in 0..6 {
        assert_eq!(data.vector_for(index), field(index as i32, 0, 0));
    }
    assert_eq!(data.at_50.left, field(2, 0, 0));
    assert_eq!(data.at_100.right, field(5, 0, 0));
    assert_eq!(interference_step(3).label, "Left 100%");
}

#[test]
fn phases_have_names_and_places() {
    assert_eq!(MagCalibrationPhase::ManualYaw.label(), "P1 YAW");
    assert_eq!(MagCalibrationPhase::Save.label(), "P8 SAVE");
    assert_eq!(MagCalibrationPhase::MotorVerify.progress(), Some((7, 7)));
    assert_eq!(MagCalibrationPhase::MotorVerify.percent(), Some(85));
    assert_eq!(MagCalibrationPhase::Save.percent(), None);
    assert_eq!(MagCalibrationPhase::ManualRoll.prompt(), "Tilt left and right");
    assert_eq!(MagCalibrationPhase::SettleDelay.prompt(), "Move slowly, follow the prompt");
}

/// A reading that swings on every axis and turns all the way.
fn swinging(i: usize) -> MagSample {
    let sign = if i % 2 == 0 { 1 } else { -1 };
    MagSample {
        field: field(sign * 30_000, sign * 30_000, sign * 30_000),
        heading_udeg: ((i % 100) as i32) * 1_000_000,
    }
}

/// Run the magnetometer calibration with motors that add nothing and a field of the
/// given strength, until it is over.
fn calibrate_mag(average: MagVector) -> (Vec<Action>, Turn) {
    let (mut run, first) = MagCalibrationRun::begin(ImuCalibrationFlags::default());
    assert_eq!(first.ask, Ask::WaitOrStop(3_000));
    let mut turn = run.answer(Answer::Yes(false));
    let mut actions = Vec::new();
    let mut readings = 0;
    loop {
        actions.extend(turn.actions.iter().copied());
        turn = match turn.ask {
            Ask::StopRequested | Ask::WaitOrStop(_) => run.answer(Answer::Yes(false)),
            Ask::PhaseSeconds => run.answer(Answer::Seconds(1)),
            Ask::Mag(200) => {
                readings += 1;
                run.answer(Answer::Mag(Some(swinging(readings))))
            }
            Ask::MagAverage(250) => run.answer(Answer::Average(average)),
            Ask::Over => {
                assert_eq!(readings, 3 * 166);
                return (actions, turn);
            }
            _ => panic!("an unexpected question"),
        };
    }
}

#[test]
fn a_full_magnetometer_calibration_is_stored() {
    let (actions, _) = calibrate_mag(field(50_000, 0, 0));
    assert!(actions.contains(&Action::Phase("Keep flat, spin on table", Some(0))));
    assert!(actions.contains(&Action::Phase("Tilt nose up and down", Some(14))));
    assert!(actions.contains(&Action::Phase("Right 100%", Some(83))));
    assert!(actions.contains(&Action::Save(CalibrationDataKind::ImuFlags(
        ImuCalibrationFlags { mag: true }
    ))));
    assert_eq!(actions[actions.len() - 2], Action::SetFusion(DmpFusionMode::Axis6));
    assert_eq!(actions[actions.len() - 1], Action::StopImu);
    assert!(actions.contains(&Action::Complete("Calibration saved")));
}

#[test]
fn a_weak_field_fails_the_verification() {
    let (actions, _) = calibrate_mag(field(10_000, 0, 0));
    assert!(actions.contains(&Action::Fail("Motor verify failed")));
    assert!(!actions.contains(&Action::Complete("Calibration saved")));
}

#[test]
fn a_rotation_that_takes_too_long_is_incomplete() {
    let (mut run, _) = MagCalibrationRun::begin(ImuCalibrationFlags::default());
    run.answer(Answer::Yes(false));
    run.answer(Answer::Yes(false));
    let turn = run.answer(Answer::Seconds(30));
    assert_eq!(turn.actions[0], Action::Fail("Yaw incomplete"));
    assert_eq!(turn.ask, Ask::Over);
}

#[test]
fn a_silent_sensor_fails_the_rotation() {
    let (mut run, _) = MagCalibrationRun::begin(ImuCalibrationFlags::default());
    let mut turn = run.answer(Answer::Yes(false));
    let mut waits = 0;
    while turn.ask != Ask::Over {
        turn = match turn.ask {
            Ask::PhaseSeconds => run.answer(Answer::Seconds(0)),
            Ask::Mag(_) => {
                waits += 1;
                run.answer(Answer::Mag(None))
            }
            _ => run.answer(Answer::Yes(false)),
        };
    }
    assert_eq!(waits, 25);
    assert_eq!(turn.actions[0], Action::Fail("Yaw incomplete"));
}

#[test]
fn a_stop_during_the_rotation_abandons_the_calibration() {
    let (mut run, _) = MagCalibrationRun::begin(ImuCalibrationFlags::default());
    run.answer(Answer::Yes(false));
    let turn = run.answer(Answer::Yes(true));
    assert_eq!(
        turn.actions,
        vec![Action::Abandon, Action::SetFusion(DmpFusionMode::Axis6), Action::StopImu]
    );
}

#[test]
fn a_rotation_needs_its_readings_and_its_spans() {
    let mut rotation = Rotation::new();
    for i in 0..165 {
        rotation.take(1, Some(swinging(i)));
        assert!(!rotation.is_done(1));
    }
    rotation.take(1, Some(swinging(165)));
    assert!(rotation.is_done(1));
    assert!(rotation.is_done(2));
    assert!(!rotation.is_done(0));
}
