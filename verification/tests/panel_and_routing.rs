//! The panel, the controls and the routing of events.

use explorer_robot::system::event::{Events, ObstacleSource, RotaryDirection};
use explorer_robot::system::state::activity::{Activity, DriveModeKind, Snapshot, Stage, TestKind};
use explorer_robot::system::state::perception;
use explorer_robot::system::state::perception::PerceptionState;
use explorer_robot::system::state::{CalibrationState, CalibrationStatus};
use explorer_robot::task::autonomous_mode::coast_obstacle_avoid::{CoastControl, StartError};
use explorer_robot::task::behavior::floor_drop::handle_floor_drop_detected;
use explorer_robot::task::behavior::obstacle::{
    handle_obstacle_avoidance_attempted, handle_obstacle_detected,
};
use explorer_robot::task::control::rotary_encoder::{ButtonInput, ButtonState, TurnDebounce};
use explorer_robot::task::drive::calibration::calibration_family;
use explorer_robot::task::drive::calibration::distance::{DistanceCalibration, DriveOutcome};
use explorer_robot::task::drive::InterruptKind;
use explorer_robot::task::initialization::{
    handle_calibration_data_loaded, handle_calibration_status, handle_initialize, is_initialized,
    InitAction,
};
use explorer_robot::task::io::display::{show_line, DisplayAction};
use explorer_robot::task::io::flash_storage::{
    CalibrationDataKind, CalibrationKind, ImuCalibrationFlags,
};
use explorer_robot::task::io::panel::{BringUp, BringUpStep, Filters, TouchSample};
use explorer_robot::task::motor_driver::MotorCalibration;
use explorer_robot::task::orchestrate::{handle_event, startup, Route};
use explorer_robot::task::procedure::Procedure;
use explorer_robot::task::sensors::lidar::LidarStatus;
use explorer_robot::task::testmode::{test_family, TestCommand};
use explorer_robot::task::ui::controller;
use explorer_robot::task::ui::controller::{
    handle_activation, Body, Heading, Hit, Item, Landing, LeaseStep, RoomScanLease,
    RoomScanRequest, Screen, SensorState, Shared, UiAction, UiCalibrationStatus, ValueFlow,
};
use explorer_robot::task::ui::gesture::{Gesture, GestureEnd, TouchReport};
use explorer_robot::task::ui::UiEvent;

fn unknown() -> CalibrationState {
    CalibrationState {
        motor_cal_status: CalibrationStatus::NotLoaded,
        imu_cal_status: CalibrationStatus::NotLoaded,
        mag_cal_status: CalibrationStatus::NotLoaded,
        distance_cal_status: CalibrationStatus::NotLoaded,
        distance_factor_ppm: 1_100_000,
    }
}

fn shared() -> Shared {
    Shared {
        activity: Snapshot::new(),
        tests: test_family(),
        calibrations: calibration_family(),
        coast: CoastControl { active: true, stop_requested: false },
        distance: DistanceCalibration::new(),
        calibration: unknown(),
        requested_target_cm: 0,
    }
}

#[test]
fn turns_are_debounced() {
    let mut debounce = TurnDebounce::new();
    let turned = Some(Events::RotaryTurned(RotaryDirection::Clockwise));
    assert_eq!(debounce.on_turn(RotaryDirection::Clockwise, 49), None);
    assert_eq!(debounce.on_turn(RotaryDirection::Clockwise, 50), turned);
    assert_eq!(debounce.on_turn(RotaryDirection::Clockwise, 99), None);
    assert_eq!(
        debounce.on_turn(RotaryDirection::CounterClockwise, 100),
        Some(Events::RotaryTurned(RotaryDirection::CounterClockwise))
    );
    // A clock that goes back lets nothing through.
    assert_eq!(debounce.on_turn(RotaryDirection::Clockwise, 10), None);
}

#[test]
fn a_button_is_pressed_held_or_glitched() {
    let mut button = ButtonState::Released;
    assert_eq!(button.on_input(ButtonInput::Down), None);
    assert_eq!(button.on_input(ButtonInput::Settled(false)), None);
    assert_eq!(button, ButtonState::Released);
    button.on_input(ButtonInput::Down);
    button.on_input(ButtonInput::Settled(true));
    assert_eq!(button.on_input(ButtonInput::Up), Some(Events::RotaryButtonPressed));
    button.on_input(ButtonInput::Down);
    button.on_input(ButtonInput::Settled(true));
    assert_eq!(button.on_input(ButtonInput::HoldTime), Some(Events::RotaryButtonHoldStart));
    assert_eq!(button.on_input(ButtonInput::Up), Some(Events::RotaryButtonHoldEnd));
    assert_eq!(button.on_input(ButtonInput::Up), None);
}

fn sample(x: u16, y: u16) -> TouchSample {
    TouchSample { x, y, z1: 1, z2: 2 }
}

#[test]
fn touch_samples_are_smoothed() {
    let mut filters = Filters::new();
    assert_eq!(filters.point(sample(100, 7)), sample(100, 7));
    assert_eq!(filters.point(sample(201, 7)).x, 150);
    assert_eq!(filters.point(sample(4_000, 7)).x, 201);
    assert_eq!(filters.point(sample(202, 7)).x, 201);
    assert_eq!(filters.point(sample(203, 7)).x, 202);
    // The oldest sample has left the window.
    assert_eq!(filters.point(sample(204, 7)).x, 203);
    filters.clear();
    assert_eq!(filters.point(sample(9, 9)), sample(9, 9));
}

#[test]
fn the_display_is_tried_five_times() {
    let mut bring_up = BringUp::new();
    assert_eq!(bring_up.begin(), BringUpStep::ResetAndInit);
    for _ in 0..4 {
        assert_eq!(bring_up.on_init(false), BringUpStep::WaitAndInit);
    }
    assert_eq!(bring_up.on_init(false), BringUpStep::WaitAndGiveUp);
    assert_eq!(bring_up.begin(), BringUpStep::Init);
    assert_eq!(bring_up.on_init(true), BringUpStep::Online);
}

fn shown(action: &DisplayAction) -> (String, u8) {
    match action {
        DisplayAction::ShowText(text, line) => (text.as_str().to_string(), *line),
        _ => panic!("not a text"),
    }
}

#[test]
fn a_line_is_cut_where_it_no_longer_fits() {
    assert_eq!(shown(&show_line(3, "short")), ("short".to_string(), 3));
    let long = "abcdefghijklmnopqrstuvwxyz0123";
    assert_eq!(shown(&show_line(0, long)).0, "abcdefghijklmnopqrst");
    assert_eq!(shown(&show_line(0, "abcdefghijklmnopqrstu")).0, "abcdefghijklmnopqrst");
    // The two bytes of the last letter no longer fit behind nineteen.
    let accented = "abcdefghijklmnopqrsé";
    assert_eq!(shown(&show_line(0, accented)).0, "abcdefghijklmnopqrs");
    let short_accented = "abcdefghijklmnopqré";
    assert_eq!(shown(&show_line(0, short_accented)).0, short_accented);
}

#[test]
fn status_lines_keep_their_places() {
    let text = |s: &str| Some(heapless::String::<26>::try_from(s).unwrap());
    let actions = handle_calibration_status(text("head"), None, text("two"), None);
    let lines: Vec<(String, u8)> = actions.iter().map(shown).collect();
    assert_eq!(lines, vec![("head".to_string(), 0), ("two".to_string(), 2)]);
}

#[test]
fn initialisation_asks_for_everything() {
    assert_eq!(
        handle_initialize(),
        vec![
            InitAction::ClearDisplay,
            InitAction::ShowText("Initializing...", 0),
            InitAction::Fetch(CalibrationKind::Motor),
            InitAction::Fetch(CalibrationKind::ImuFlags),
            InitAction::Fetch(CalibrationKind::Distance),
        ]
    );
    assert_eq!(startup(), Events::Initialize);
}

#[test]
fn initialisation_ends_with_the_last_answer() {
    let mut state = unknown();
    let motor = MotorCalibration::new(900_000, 1_000_000);
    let actions = handle_calibration_data_loaded(
        &mut state,
        CalibrationKind::Motor,
        Some(CalibrationDataKind::Motor(motor)),
        false,
    );
    assert_eq!(
        actions,
        vec![InitAction::LoadMotor(motor), InitAction::ShowText("Calibration loaded", 1)]
    );
    let flags = CalibrationDataKind::ImuFlags(ImuCalibrationFlags { mag: true });
    let actions =
        handle_calibration_data_loaded(&mut state, CalibrationKind::ImuFlags, Some(flags), false);
    assert_eq!(actions, vec![]);
    assert_eq!(state.mag_cal_status, CalibrationStatus::Loaded);
    assert!(!is_initialized(&state));
    let actions = handle_calibration_data_loaded(
        &mut state,
        CalibrationKind::Distance,
        Some(CalibrationDataKind::Distance(1_200_000)),
        false,
    );
    assert_eq!(actions, vec![InitAction::ShowMainMenu]);
    assert_eq!(state.distance_factor_ppm, 1_200_000);
    assert!(is_initialized(&state));
}

#[test]
fn missing_calibrations_are_reported() {
    let mut state = unknown();
    let actions = handle_calibration_data_loaded(&mut state, CalibrationKind::Motor, None, false);
    assert_eq!(actions, vec![InitAction::ShowText("Need motor calib", 1)]);
    assert_eq!(state.motor_cal_status, CalibrationStatus::NotAvailable);
    handle_calibration_data_loaded(&mut state, CalibrationKind::Distance, None, false);
    assert_eq!(state.distance_factor_ppm, 1_100_000);
    // A calibration under way keeps its screen.
    let actions = handle_calibration_data_loaded(&mut state, CalibrationKind::ImuFlags, None, true);
    assert_eq!(actions, vec![]);
    assert!(is_initialized(&state));
    let actions = handle_calibration_data_loaded(&mut state, CalibrationKind::ImuFlags, None, false);
    assert_eq!(actions, vec![InitAction::ShowMainMenu; 3]);
}

#[test]
fn events_find_their_handlers() {
    assert_eq!(handle_event(Events::Initialize), Route::Initialize);
    assert_eq!(handle_event(Events::TestingCompleted), Route::Ui(UiEvent::TestingCompleted));
    assert_eq!(handle_event(Events::CalibrationCompleted), Route::Ui(UiEvent::CalibrationCompleted));
    assert_eq!(
        handle_event(Events::ObstacleDetected { source: ObstacleSource::Lidar }),
        Route::Obstacle(ObstacleSource::Lidar)
    );
    assert_eq!(handle_event(Events::FloorDropDetected { detected: true }), Route::FloorDrop(true));
    assert_eq!(
        handle_event(Events::RotaryTurned(RotaryDirection::Clockwise)),
        Route::Ui(UiEvent::RotaryTurned(RotaryDirection::Clockwise))
    );
    assert_eq!(
        handle_event(Events::BatteryMeasured { level: 5, voltage_mv: 7_000 }),
        Route::Battery { level: 5, voltage_mv: 7_000 }
    );
    assert_eq!(handle_event(Events::LidarScanCompleted), Route::Nobody);
}

#[test]
fn hazards_brake_the_drive() {
    let mut seen = PerceptionState::new();
    assert_eq!(handle_obstacle_detected(&seen), (false, None));
    perception::set_lidar_obstacle(&mut seen, true);
    assert_eq!(handle_obstacle_detected(&seen), (true, Some(InterruptKind::EmergencyBrake)));
    assert!(!handle_obstacle_avoidance_attempted());
    assert_eq!(handle_floor_drop_detected(&mut seen, true), Some(InterruptKind::EmergencyBrake));
    assert!(perception::is_floor_drop_detected(&seen));
    assert_eq!(handle_floor_drop_detected(&mut seen, false), None);
}

#[test]
fn a_gesture_ends_with_the_pen() {
    let mut gesture = Gesture::begin(1_000, 50);
    let step = gesture.on_sample(TouchReport::Contact { redraw: true }, false, 1_020);
    assert!(!step.render);
    let step = gesture.on_sample(TouchReport::Contact { redraw: true }, false, 1_050);
    assert!(step.render);
    assert_eq!(gesture.last_render_ms, 1_050);
    let step = gesture.on_sample(TouchReport::NoContact, true, 1_060);
    assert_eq!(step.ended, Some(GestureEnd::PenUp));
}

#[test]
fn a_stuck_line_cannot_pin_the_panel() {
    let mut gesture = Gesture::begin(0, 50);
    assert_eq!(gesture.on_sample(TouchReport::NoContact, false, 100).ended, None);
    assert_eq!(gesture.on_sample(TouchReport::BusError, false, 590).ended, None);
    assert_eq!(gesture.on_sample(TouchReport::NoContact, false, 599).ended, None);
    assert_eq!(
        gesture.on_sample(TouchReport::NoContact, false, 600).ended,
        Some(GestureEnd::NoContact)
    );
    let mut gesture = Gesture::begin(0, 50);
    let contact = TouchReport::Contact { redraw: false };
    assert_eq!(gesture.on_sample(contact, false, 29_999).ended, None);
    assert_eq!(gesture.on_sample(contact, false, 30_000).ended, Some(GestureEnd::Deadline));
}

#[test]
fn a_test_is_started_from_its_entry() {
    let mut world = shared();
    let hit = Some(Hit::MenuItem(Item::Procedure(Procedure::Turns)));
    let actions = handle_activation(&mut world, Screen::Menu, 0, hit, LidarStatus::Off);
    assert_eq!(actions[0], UiAction::SpawnTest(TestCommand::Turns));
    let UiAction::ShowStatus(view) = actions[1] else { panic!("no running screen") };
    assert_eq!(view.heading, Heading::Procedure(Procedure::Turns));
    assert_eq!(view.body, Body::Text("Starting"));
    // A second one is refused, and the panel stays where it is.
    let again = Some(Hit::MenuItem(Item::Procedure(Procedure::ArcDrive)));
    let actions = handle_activation(&mut world, Screen::Menu, 0, again, LidarStatus::Off);
    assert_eq!(actions, vec![]);
    assert_eq!(world.activity.activity, Activity::Test(TestKind::Turns));
}

#[test]
fn the_radar_and_the_tests_exclude_each_other() {
    let mut world = shared();
    let radar = Some(Hit::MenuItem(Item::RoomScan));
    assert_eq!(
        handle_activation(&mut world, Screen::Menu, 0, radar, LidarStatus::Off),
        vec![UiAction::RoomScan(RoomScanRequest::Acquire)]
    );
    assert_eq!(
        handle_activation(&mut world, Screen::Menu, 0, radar, LidarStatus::Off),
        vec![UiAction::Back]
    );
    assert_eq!(
        handle_activation(&mut world, Screen::RoomScan, 0, Some(Hit::Back), LidarStatus::Off),
        vec![UiAction::RoomScan(RoomScanRequest::Release)]
    );
    assert_eq!(
        handle_activation(&mut world, Screen::Menu, 0, radar, LidarStatus::Off),
        vec![UiAction::RoomScan(RoomScanRequest::Acquire)]
    );
}

#[test]
fn calibrations_are_started_from_their_entries() {
    let mut world = shared();
    let entry = |procedure| Some(Hit::MenuItem(Item::Procedure(procedure)));
    let motor = entry(Procedure::MotorCalibration);
    let actions = handle_activation(&mut world, Screen::Menu, 0, motor, LidarStatus::Off);
    assert_eq!(actions[0], UiAction::RunMotorCalibration);
    let mag = entry(Procedure::MagCalibration);
    let actions = handle_activation(&mut world, Screen::Menu, 0, mag, LidarStatus::Off);
    assert_eq!(actions[0], UiAction::RunMagCalibration);
    let distance = entry(Procedure::DistanceCalibration);
    let actions = handle_activation(&mut world, Screen::Menu, 0, distance, LidarStatus::Off);
    assert_eq!(actions[1], UiAction::RequestDistanceDrive);
    assert_eq!(world.calibration.distance_factor_ppm, 1_000_000);

    let value = Screen::ValueEntry(ValueFlow::DistanceCalibration);
    handle_activation(&mut world, value, 0, Some(Hit::Cancel), LidarStatus::Off);
    assert_eq!(world.calibration.distance_factor_ppm, 1_100_000);
    handle_activation(&mut world, Screen::Menu, 0, distance, LidarStatus::Off);
    handle_activation(&mut world, value, 120, Some(Hit::Save), LidarStatus::Off);
    assert_eq!(world.calibration.distance_factor_ppm, 1_250_000);
}

#[test]
fn a_drive_mode_shows_its_sensor() {
    let mut world = shared();
    let hit = Some(Hit::MenuItem(Item::Procedure(Procedure::CoastAndAvoid)));
    let actions = handle_activation(&mut world, Screen::Menu, 0, hit, LidarStatus::Warming);
    let UiAction::ShowStatus(view) = actions[0] else { panic!("no running screen") };
    assert_eq!(view.body, Body::Sensor(SensorState::Warming));
    assert_eq!(actions[1], UiAction::RequestCoast);

    controller::on_coast_start(&mut world.activity, Err(StartError::LidarUnavailable));
    let view = controller::status_view(&world.activity, LidarStatus::Failed);
    assert_eq!(view.body, Body::Text("LiDAR unavailable"));
    assert!(view.finished);
    // A start that was stopped leaves an idle state alone.
    let mut idle = Snapshot::new();
    controller::on_coast_start(&mut idle, Err(StartError::Cancelled));
    assert_eq!(idle.activity, Activity::Idle);
}

#[test]
fn stop_reaches_everything() {
    let mut world = shared();
    let actions =
        handle_activation(&mut world, Screen::Status, 0, Some(Hit::Stop), LidarStatus::Off);
    assert_eq!(actions, vec![UiAction::Interrupt(InterruptKind::Stop); 2]);
    assert!(world.tests.latch.is_requested());
    assert!(world.calibrations.latch.is_requested());
    assert_eq!(world.coast, CoastControl { active: false, stop_requested: true });
}

#[test]
fn targets_are_recorded() {
    let mut world = shared();
    let value = Screen::ValueEntry(ValueFlow::AttemptStraight);
    handle_activation(&mut world, value, 450, Some(Hit::Save), LidarStatus::Off);
    assert_eq!(world.requested_target_cm, 450);
    handle_activation(&mut world, value, -1, Some(Hit::Save), LidarStatus::Off);
    assert_eq!(world.requested_target_cm, 300);
    let other = Some(Hit::Other);
    assert_eq!(handle_activation(&mut world, value, 9, other, LidarStatus::Off), vec![]);
    assert_eq!(world.requested_target_cm, 300);
}

#[test]
fn finished_procedures_land_where_they_started() {
    let mut world = shared();
    let hit = Some(Hit::MenuItem(Item::Procedure(Procedure::StraightDrive)));
    handle_activation(&mut world, Screen::Menu, 0, hit, LidarStatus::Off);
    assert_eq!(
        controller::handle_event(&mut world, UiEvent::TestingCompleted, LidarStatus::Off),
        vec![
            UiAction::ResetModel,
            UiAction::ShowScreen(Landing::MenuOf(Procedure::StraightDrive)),
        ]
    );
    assert_eq!(world.activity.activity, Activity::Idle);
    assert_eq!(
        controller::handle_event(&mut world, UiEvent::CalibrationCompleted, LidarStatus::Off),
        vec![]
    );
    assert_eq!(
        controller::handle_event(&mut world, UiEvent::ShowMainMenu, LidarStatus::Off),
        vec![UiAction::ResetModel]
    );
}

#[test]
fn a_failed_calibration_is_held_on_screen() {
    let mut world = shared();
    world.activity = Snapshot {
        activity: Procedure::MagCalibration.activity().unwrap(),
        stage: Stage::Failed,
        detail: "Yaw incomplete",
        percent: None,
        interactive: false,
    };
    let event = UiEvent::CalibrationCompleted;
    let actions = controller::handle_event(&mut world, event, LidarStatus::Off);
    let UiAction::SetStatus(view) = actions[0] else { panic!("not held") };
    assert_eq!(view.body, Body::Text("Yaw incomplete"));
    world.activity.stage = Stage::Complete;
    let actions = controller::handle_event(&mut world, event, LidarStatus::Off);
    assert_eq!(actions[1], UiAction::ShowScreen(Landing::MenuOf(Procedure::MagCalibration)));
}

#[test]
fn the_distance_drive_leads_to_its_value_screen() {
    let mut world = shared();
    let event = UiEvent::DistanceDriveFinished;
    assert_eq!(controller::handle_event(&mut world, event, LidarStatus::Off), vec![]);
    world.activity.activity = Procedure::DistanceCalibration.activity().unwrap();
    assert_eq!(
        controller::handle_event(&mut world, event, LidarStatus::Off),
        vec![UiAction::ShowValueEntry(ValueFlow::DistanceCalibration)]
    );
    assert_eq!(controller::distance_drive_event(DriveOutcome::Stopped), None);
    assert_eq!(controller::distance_drive_event(DriveOutcome::Failed), Some(event));
}

#[test]
fn the_radar_holds_its_lease() {
    let mut lease = RoomScanLease { held: false };
    assert_eq!(lease.on_request(RoomScanRequest::Release), LeaseStep::Nothing);
    assert_eq!(lease.on_request(RoomScanRequest::Acquire), LeaseStep::Acquire);
    lease.on_acquired(false);
    assert_eq!(lease.on_request(RoomScanRequest::Release), LeaseStep::Nothing);
    lease.on_request(RoomScanRequest::Acquire);
    lease.on_acquired(true);
    assert_eq!(lease.on_request(RoomScanRequest::Acquire), LeaseStep::Nothing);
    assert_eq!(lease.on_request(RoomScanRequest::Release), LeaseStep::Release);
    assert!(!lease.held);
}

#[test]
fn screens_show_what_is_known() {
    let mut state = unknown();
    state.motor_cal_status = CalibrationStatus::Loaded;
    state.distance_cal_status = CalibrationStatus::NotAvailable;
    let info = controller::read_system_info(80, 7_400, &state);
    assert_eq!(info.battery_level, 80);
    assert_eq!(info.motor_calibration, UiCalibrationStatus::Loaded);
    assert_eq!(info.mag_calibration, UiCalibrationStatus::Unknown);
    assert_eq!(info.distance_calibration, UiCalibrationStatus::Missing);
    assert_eq!(controller::drive_mode_label(Procedure::CoastAndAvoid), Some("Coast & Avoid"));
    assert_eq!(controller::drive_mode_label(Procedure::AttemptStraight), Some("Attempt Straight"));
    let mut snapshot = Snapshot::new();
    assert_eq!(controller::refresh_running_screen(true, &snapshot, LidarStatus::Off), None);
    snapshot.activity = Activity::DriveMode(DriveModeKind::CoastAndAvoid);
    assert!(controller::refresh_running_screen(true, &snapshot, LidarStatus::Off).is_some());
    assert_eq!(controller::refresh_running_screen(false, &snapshot, LidarStatus::Off), None);
}
