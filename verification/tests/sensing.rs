//! The sensors.

use explorer_robot::coin_d6::types::{Point, RangeMm, Scan};
use explorer_robot::system::event::{Events, ObstacleSource};
use explorer_robot::system::state::perception;
use explorer_robot::system::state::perception::PerceptionState;
use explorer_robot::task::sensors::imu::{
    calibrate, CalibratedMag, Counts, DmpFusionMode, MagCalibration, MagScale, MagVector,
    Orientation, TrackInterference,
};
use explorer_robot::task::sensors::imu_task::{
    after_failed_init, build_dmp_config, effective_mode, load_mag_calibration, set_dmp_fusion_mode,
    start_imu_readings, stop_imu_readings, DmpPacket, ImuCommand, ImuControl, ImuStep, ImuTask,
    InitStep, Phase as ImuPhase,
};
use explorer_robot::task::sensors::lidar::{
    disable, enable, set_status, status, LidarCommand, LidarStatus, LidarStep, LidarTask,
};
use explorer_robot::task::sensors::lidar_stub::{
    cloud_has_obstacle, generate_default_cloud, start_lidar_scanning, stop_lidar, LidarStub,
};
use explorer_robot::task::sensors::vl53l0x_stub::{publish_reading, RangefinderStub};

fn field(x: i32, y: i32, z: i32) -> MagVector {
    MagVector { x, y, z }
}

fn calibration() -> MagCalibration {
    MagCalibration {
        bias: field(1_000, -2_000, 0),
        scale: MagScale { x: 1_000_000, y: 2_000_000, z: 500_000 },
        interference_50: TrackInterference {
            both: field(100, 200, 300),
            left: field(1_000, 0, 0),
            right: field(0, 1_000, 0),
        },
        interference_100: TrackInterference {
            both: field(300, 600, 900),
            left: field(3_000, 0, 0),
            right: field(0, 3_000, 0),
        },
    }
}

#[test]
fn the_neutral_calibration_changes_nothing() {
    let raw = field(12_345, -6, 7);
    let neutral = calibrate(raw, Some(MagCalibration::default()), 0, 0);
    assert_eq!(neutral, CalibratedMag { x: 12_345, y: -6, z: 7 });
    assert_eq!(calibrate(raw, None, 100, -100), neutral);
}

#[test]
fn standing_still_only_iron_is_corrected() {
    let mag = calibrate(field(5_000, 1_000, 100), Some(calibration()), 0, 0);
    assert_eq!(mag, CalibratedMag { x: 4_000, y: 6_000, z: 50 });
}

#[test]
fn equal_tracks_meet_the_measured_interference() {
    let half = calibrate(field(5_000, 1_000, 1_300), Some(calibration()), 50, -50);
    assert_eq!(half, CalibratedMag { x: 3_900, y: 5_600, z: 500 });
    let full = calibrate(field(5_000, 1_000, 1_900), Some(calibration()), 100, 100);
    assert_eq!(full, CalibratedMag { x: 3_700, y: 4_800, z: 500 });
    // A quarter of the way up, halfway to the measurement at half speed.
    let quarter = calibrate(field(5_000, 1_000, 1_150), Some(calibration()), 25, 25);
    assert_eq!(quarter, CalibratedMag { x: 3_950, y: 5_800, z: 500 });
}

#[test]
fn unequal_tracks_contribute_by_their_share() {
    let left = calibrate(field(5_000, 1_000, 0), Some(calibration()), 100, 0);
    assert_eq!(left, CalibratedMag { x: 1_000, y: 6_000, z: 0 });
    // Three quarters from the left at three quarters speed, one quarter from the right.
    let mixed = calibrate(field(5_000, 1_000, 0), Some(calibration()), 75, 25);
    assert_eq!(mixed, CalibratedMag { x: 2_500, y: 5_750, z: 0 });
}

#[test]
fn the_sensor_sits_across_the_robot() {
    let orientation = Orientation::from_sensor(1, 2, 3);
    assert_eq!(orientation.roll_udeg, 2);
    assert_eq!(orientation.pitch_udeg, 1);
    assert_eq!(orientation.yaw_udeg, 3);
}

fn packet() -> DmpPacket {
    DmpPacket {
        orientation_9axis: None,
        orientation_6axis: None,
        raw_accel: None,
        raw_gyro: None,
        calibrated_gyro: None,
        raw_mag: None,
    }
}

#[test]
fn the_control_signal_keeps_the_latest_command() {
    let mut control = ImuControl::new();
    assert_eq!(control.take(), None);
    start_imu_readings(&mut control);
    set_dmp_fusion_mode(&mut control, DmpFusionMode::Axis9);
    assert_eq!(control.take(), Some(ImuCommand::SetFusionMode(DmpFusionMode::Axis9)));
    load_mag_calibration(&mut control, calibration());
    assert_eq!(control.take(), Some(ImuCommand::LoadCalibration(calibration())));
    stop_imu_readings(&mut control);
    assert_eq!(control.take(), Some(ImuCommand::Stop));
    assert_eq!(control.take(), None);
}

#[test]
fn the_imu_task_starts_switches_and_stops() {
    let mut task = ImuTask::new(true);
    let six = build_dmp_config(DmpFusionMode::Axis6);
    let nine = build_dmp_config(DmpFusionMode::Axis9);
    assert!(!six.raw_mag);
    assert!(nine.raw_mag);
    assert_eq!(six.sample_rate_hz, 100);
    assert_eq!(task.on_command(ImuCommand::Start), ImuStep::Configure(six));
    assert_eq!(task.on_configured(true), ImuStep::WaitOrPoll);
    let seen = DmpPacket {
        orientation_6axis: Some(Orientation::from_sensor(1, 2, 3)),
        raw_mag: Some((1, 2, -3)),
        raw_accel: Some(Counts { x: 1, y: 2, z: 8192 }),
        ..packet()
    };
    let (measurement, mag) = task.on_packet(&seen, 0, 0, 77);
    assert_eq!(measurement.unwrap().timestamp_ms, 77);
    assert_eq!(mag, Some(field(150, 300, -450)));
    assert!(task.ready);
    assert_eq!(task.readings.raw_mag, Some(field(150, 300, -450)));
    // Nothing in a packet leaves the readings as they were.
    let before = task.readings;
    task.on_packet(&packet(), 0, 0, 78);
    assert_eq!(task.readings, before);

    assert_eq!(
        task.on_command(ImuCommand::SetFusionMode(DmpFusionMode::Axis9)),
        ImuStep::Reconfigure(nine)
    );
    assert_eq!(task.on_configured(true), ImuStep::WaitOrPoll);
    assert_eq!(task.fusion_mode, DmpFusionMode::Axis9);
    assert_eq!(
        task.on_command(ImuCommand::SetFusionMode(DmpFusionMode::Axis9)),
        ImuStep::WaitOrPoll
    );
    task.on_command(ImuCommand::SetFusionMode(DmpFusionMode::Axis6));
    task.on_configured(true);
    assert_eq!(task.readings.raw_mag, None);
    assert_eq!(task.on_command(ImuCommand::Stop), ImuStep::Disable);
    assert!(!task.ready);
    assert_eq!(task.phase, ImuPhase::Standby);
}

#[test]
fn a_switch_in_standby_leaves_no_stale_field() {
    let mut task = ImuTask::new(true);
    task.on_command(ImuCommand::SetFusionMode(DmpFusionMode::Axis9));
    task.on_command(ImuCommand::Start);
    task.on_configured(true);
    task.on_packet(&DmpPacket { raw_mag: Some((1, 2, 3)), ..packet() }, 0, 0, 5);
    task.on_command(ImuCommand::Stop);
    task.on_command(ImuCommand::SetFusionMode(DmpFusionMode::Axis9));
    assert!(task.readings.raw_mag.is_some());
    task.on_command(ImuCommand::SetFusionMode(DmpFusionMode::Axis6));
    assert_eq!(task.readings.raw_mag, None);
    assert_eq!(task.readings.calibrated_mag, None);
}

#[test]
fn the_nine_axis_orientation_comes_first() {
    let mut task = ImuTask::new(true);
    task.on_command(ImuCommand::Start);
    task.on_configured(true);
    let both = DmpPacket {
        orientation_9axis: Some(Orientation::from_sensor(0, 0, 9)),
        orientation_6axis: Some(Orientation::from_sensor(0, 0, 6)),
        ..packet()
    };
    let (measurement, _) = task.on_packet(&both, 0, 0, 1);
    assert_eq!(measurement.unwrap().orientation.yaw_udeg, 9);
}

#[test]
fn a_failed_switch_is_undone() {
    let mut task = ImuTask::new(true);
    task.on_command(ImuCommand::Start);
    task.on_configured(true);
    let before = task;
    task.on_command(ImuCommand::SetFusionMode(DmpFusionMode::Axis9));
    assert_eq!(
        task.on_configured(false),
        ImuStep::Configure(build_dmp_config(DmpFusionMode::Axis6))
    );
    assert_eq!(task.on_configured(true), ImuStep::WaitOrPoll);
    assert_eq!(task, before);
}

#[test]
fn without_a_magnetometer_there_is_no_nine_axis_fusion() {
    assert_eq!(effective_mode(DmpFusionMode::Axis9, false), DmpFusionMode::Axis6);
    assert_eq!(effective_mode(DmpFusionMode::Axis9, true), DmpFusionMode::Axis9);
    let mut task = ImuTask::new(false);
    task.on_command(ImuCommand::SetFusionMode(DmpFusionMode::Axis9));
    assert_eq!(task.fusion_mode, DmpFusionMode::Axis6);
}

#[test]
fn ten_failed_reads_end_the_imu_task() {
    let mut task = ImuTask::new(true);
    task.on_command(ImuCommand::Start);
    task.on_configured(true);
    for _ in 0..9 {
        assert_eq!(task.on_failed_read(), ImuStep::ResetFifo);
    }
    task.on_packet(&packet(), 0, 0, 0);
    for _ in 0..9 {
        assert_eq!(task.on_failed_read(), ImuStep::ResetFifo);
    }
    assert_eq!(task.on_failed_read(), ImuStep::Terminate);
    assert_eq!(after_failed_init(59), InitStep::Retry(50));
    assert_eq!(after_failed_init(60), InitStep::GiveUp);
}

fn revolution(mm: u16) -> Scan<400> {
    let mut scan = Scan::new();
    scan.len = 1;
    scan.points[0] =
        Point { angle_udeg: 180_000_000, distance_mm: RangeMm::new(mm), intensity: 1 };
    scan
}

fn edge() -> Option<Events> {
    Some(Events::ObstacleDetected { source: ObstacleSource::Lidar })
}

#[test]
fn the_lidar_streams_edges() {
    let mut task = LidarTask::new();
    let mut seen = PerceptionState::new();
    assert_eq!(task.on_command(disable(), &mut seen), (LidarStep::WaitCommand, None));
    assert_eq!(task.on_command(enable(), &mut seen), (LidarStep::Attempt, None));
    assert_eq!(task.status, LidarStatus::Warming);
    assert_eq!(task.on_attempt(true, &mut seen), (LidarStep::Stream, None));
    assert_eq!(task.on_revolution(&revolution(2_000), &mut seen), None);
    assert_eq!(task.on_revolution(&revolution(200), &mut seen), edge());
    assert!(perception::is_obstacle_detected(&seen));
    assert_eq!(task.on_revolution(&revolution(210), &mut seen), None);
    assert_eq!(task.sequence, 3);
    // A duplicate enable is inert.
    assert_eq!(task.on_command(LidarCommand::Enable, &mut seen), (LidarStep::Stream, None));
    assert_eq!(task.on_command(LidarCommand::Disable, &mut seen), (LidarStep::StopAndPowerOff, edge()));
    assert_eq!(task.status, LidarStatus::Off);
    assert!(!perception::is_obstacle_detected(&seen));
    assert!(perception::with_lidar(&seen).is_none());
}

#[test]
fn a_silent_lidar_is_restarted_and_then_given_up() {
    let mut task = LidarTask::new();
    let mut seen = PerceptionState::new();
    task.on_command(LidarCommand::Enable, &mut seen);
    task.on_attempt(true, &mut seen);
    task.on_revolution(&revolution(200), &mut seen);
    assert_eq!(task.on_silence(), LidarStep::CycleAndAttempt);
    assert_eq!(task.on_attempt(false, &mut seen), (LidarStep::CycleAndAttempt, None));
    assert_eq!(task.on_attempt(false, &mut seen), (LidarStep::CycleAndAttempt, None));
    assert_eq!(task.on_attempt(false, &mut seen), (LidarStep::CycleAndFail, edge()));
    assert_eq!(task.status, LidarStatus::Failed);
    assert_eq!(task.on_command(LidarCommand::Enable, &mut seen), (LidarStep::WaitCommand, None));
    assert_eq!(task.status, LidarStatus::Failed);
    task.on_command(LidarCommand::Disable, &mut seen);
    assert_eq!(task.on_command(LidarCommand::Enable, &mut seen), (LidarStep::Attempt, None));
}

#[test]
fn a_status_is_read_back() {
    for state in [LidarStatus::Off, LidarStatus::Warming, LidarStatus::Streaming, LidarStatus::Failed] {
        assert_eq!(status(set_status(state)), state);
    }
    assert_eq!(status(200), LidarStatus::Off);
}

#[test]
fn the_stand_in_room_never_blocks() {
    let cloud = generate_default_cloud(4);
    assert_eq!(cloud.distance_cm(0), Some(2_000));
    assert_eq!(cloud.distance_cm(90), Some(500));
    assert_eq!(cloud.distance_cm(270), Some(500));
    assert!(!cloud_has_obstacle(&cloud));

    let mut stub = LidarStub::new();
    let mut seen = PerceptionState::new();
    assert_eq!(stub.on_command(start_lidar_scanning(), &mut seen), None);
    assert!(stub.scanning);
    assert_eq!(stub.on_scan(&mut seen), edge());
    assert_eq!(stub.on_scan(&mut seen), None);
    assert_eq!(stub.sequence, 2);
    assert!(!perception::is_obstacle_detected(&seen));
    stub.on_command(stop_lidar(), &mut seen);
    assert!(!stub.scanning);
    assert_eq!(stub.last_obstacle, None);
}

#[test]
fn the_stand_in_floor_drops_every_other_time() {
    let mut stub = RangefinderStub::new();
    let mut seen = PerceptionState::new();
    let (reading, event) = stub.on_tick(&mut seen);
    assert_eq!((reading, event), (2_000, Some(Events::FloorDropDetected { detected: true })));
    assert!(perception::is_floor_drop_detected(&seen));
    let (reading, event) = stub.on_tick(&mut seen);
    assert_eq!((reading, event), (150, Some(Events::FloorDropDetected { detected: false })));
    let mut last = None;
    assert!(publish_reading(400, &mut last, &mut seen).is_some());
    assert_eq!(last, Some(false));
    assert_eq!(publish_reading(10, &mut last, &mut seen), None);
    assert!(publish_reading(401, &mut last, &mut seen).is_some());
}
