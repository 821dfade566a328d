//! What the panel does about taps and events.
//!
//! The menu model decides what was tapped; this module starts, stops and records
//! things, and says what the panel shows.

use vstd::prelude::*;

use crate::system::state::activity;
use crate::system::state::activity::{
    Activity, CalibrationKind, DriveModeKind, Snapshot, Stage, TestKind,
};
use crate::system::state::{CalibrationState, CalibrationStatus};
use crate::task::autonomous_mode::attempt_straight_line;
use crate::task::autonomous_mode::coast_obstacle_avoid;
use crate::task::autonomous_mode::coast_obstacle_avoid::{CoastControl, StartError};
use crate::task::drive::calibration;
use crate::task::drive::calibration::distance;
use crate::task::drive::calibration::distance::{DistanceCalibration, DriveOutcome};
use crate::task::drive::InterruptKind;
use crate::task::procedure;
use crate::task::procedure::{Family, Procedure, Slot};
use crate::task::sensors::lidar::LidarStatus;
use crate::task::testmode;
use crate::task::testmode::TestCommand;
use crate::task::ui::UiEvent;

verus! {

/// What a value screen is for.
#[derive(Debug, Clone, Copy, PartialEq, Eq, Structural)]
pub enum ValueFlow {
    /// The measured distance of the distance calibration.
    DistanceCalibration,
    /// The target of attempting a straight line.
    AttemptStraight,
}

/// The screen a tap began on, as far as it matters here.
#[derive(Debug, Clone, Copy, PartialEq, Eq, Structural)]
pub enum Screen {
    /// A menu.
    Menu,
    /// The running screen.
    Status,
    /// A value screen.
    ValueEntry(ValueFlow),
    /// The system information.
    SystemInfo,
    /// The radar.
    RoomScan,
}

/// An entry of a menu.
#[derive(Debug, Clone, Copy, PartialEq, Eq, Structural)]
pub enum Item {
    /// A submenu, which the model opens itself.
    Submenu,
    /// The system information, which the model opens itself.
    SystemInfo,
    /// The radar.
    RoomScan,
    /// A procedure.
    Procedure(Procedure),
}

/// What was tapped.
#[derive(Debug, Clone, Copy, PartialEq, Eq, Structural)]
pub enum Hit {
    /// A menu entry.
    MenuItem(Item),
    /// Back.
    Back,
    /// Save.
    Save,
    /// Cancel.
    Cancel,
    /// Stop.
    Stop,
    /// Anything else.
    Other,
}

/// Where the panel goes when something is over.
#[derive(Debug, Clone, Copy, PartialEq, Eq, Structural)]
pub enum Landing {
    /// The main menu.
    MainMenu,
    /// The menu whose entry started the procedure.
    MenuOf(Procedure),
}

/// The sensor's state, as the panel names it.
#[derive(Debug, Clone, Copy, PartialEq, Eq, Structural)]
pub enum SensorState {
    Off,
    Warming,
    Streaming,
    Failed,
}

/// The heading of a running screen.
#[derive(Debug, Clone, Copy, PartialEq, Eq)]
pub enum Heading {
    /// A title; leaving goes to the main menu.
    Title(&'static str),
    /// The procedure's own title; leaving goes to its menu.
    Procedure(Procedure),
}

/// The body line of a running screen.
#[derive(Debug, Clone, Copy, PartialEq, Eq)]
pub enum Body {
    /// A text.
    Text(&'static str),
    /// The sensor's state.
    Sensor(SensorState),
}

/// What a running screen shows.
#[derive(Debug, Clone, Copy, PartialEq, Eq)]
pub struct StatusView {
    /// The heading.
    pub heading: Heading,
    /// The body line.
    pub body: Body,
    /// The percent bar, if there is one.
    pub percent: Option<u8>,
    /// Whether the procedure is over, so that the screen offers to leave.
    pub finished: bool,
}

/// What the radar's sensor task is asked for.
#[derive(Debug, Clone, Copy, PartialEq, Eq, Structural)]
pub enum RoomScanRequest {
    /// The sensor.
    Acquire,
    /// Its release.
    Release,
}

/// One thing the panel does.
#[derive(Debug, Clone, Copy, PartialEq, Eq)]
pub enum UiAction {
    /// Start over at the main menu.
    ResetModel,
    /// Go to a screen.
    ShowScreen(Landing),
    /// Open the running screen.
    ShowStatus(StatusView),
    /// Change the running screen.
    SetStatus(StatusView),
    /// Open a value screen.
    ShowValueEntry(ValueFlow),
    /// Go back.
    Back,
    /// Spawn a test.
    SpawnTest(TestCommand),
    /// Run the motor calibration.
    RunMotorCalibration,
    /// Run the magnetometer calibration.
    RunMagCalibration,
    /// Run the distance calibration's drive.
    RequestDistanceDrive,
    /// Start coast and avoid.
    RequestCoast,
    /// Ask the radar's sensor task.
    RoomScan(RoomScanRequest),
    /// Interrupt a drive in flight.
    Interrupt(InterruptKind),
}

/// What the panel shares with the procedures.
#[derive(Debug)]
pub struct Shared {
    /// The activity.
    pub activity: Snapshot,
    /// The tests.
    pub tests: Family,
    /// The calibrations.
    pub calibrations: Family,
    /// Coast and avoid.
    pub coast: CoastControl,
    /// The distance calibration.
    pub distance: DistanceCalibration,
    /// What is known of the calibrations.
    pub calibration: CalibrationState,
    /// The target recorded for attempting a straight line, in centimetres.
    pub requested_target_cm: u16,
}

/// The procedure an activity is, if it is one.
pub open spec fn procedure_of(recorded: Activity) -> Option<Procedure> {
    match recorded {
        Activity::Idle => None,
        Activity::Booting => None,
        Activity::Test(TestKind::BasicMotor) => Some(Procedure::BasicMotor),
        Activity::Test(TestKind::Turns) => Some(Procedure::Turns),
        Activity::Test(TestKind::StraightDrive) => Some(Procedure::StraightDrive),
        Activity::Test(TestKind::ArcDrive) => Some(Procedure::ArcDrive),
        Activity::Test(TestKind::Imu6Axis) => Some(Procedure::Imu6Axis),
        Activity::Test(TestKind::Imu9Axis) => Some(Procedure::Imu9Axis),
        Activity::Calibration(CalibrationKind::Motor) => Some(Procedure::MotorCalibration),
        Activity::Calibration(CalibrationKind::Mag) => Some(Procedure::MagCalibration),
        Activity::Calibration(CalibrationKind::Distance) => Some(Procedure::DistanceCalibration),
        Activity::DriveMode(DriveModeKind::CoastAndAvoid) => Some(Procedure::CoastAndAvoid),
    }
}

/// The procedure an activity is.
pub fn running_procedure(recorded: Activity) -> (running: Option<Procedure>)
    ensures
        running == procedure_of(recorded),
{
    match recorded {
        Activity::Idle | Activity::Booting => None,
        Activity::Test(kind) => Some(
            match kind {
                TestKind::BasicMotor => Procedure::BasicMotor,
                TestKind::Turns => Procedure::Turns,
                TestKind::StraightDrive => Procedure::StraightDrive,
                TestKind::ArcDrive => Procedure::ArcDrive,
                TestKind::Imu6Axis => Procedure::Imu6Axis,
                TestKind::Imu9Axis => Procedure::Imu9Axis,
            },
        ),
        Activity::Calibration(kind) => Some(
            match kind {
                CalibrationKind::Motor => Procedure::MotorCalibration,
                CalibrationKind::Mag => Procedure::MagCalibration,
                CalibrationKind::Distance => Procedure::DistanceCalibration,
            },
        ),
        Activity::DriveMode(DriveModeKind::CoastAndAvoid) => Some(Procedure::CoastAndAvoid),
    }
}

/// A recorded procedure is told from its activity.
pub proof fn law_activity_names_its_procedure(started: Procedure)
    ensures
        procedure::activity_of(started) matches Some(recorded) ==> procedure_of(recorded) == Some(
            started,
        ),
{
}

/// The panel's name for the sensor's status.
pub open spec fn sensor_state(status: LidarStatus) -> SensorState {
    match status {
        LidarStatus::Off => SensorState::Off,
        LidarStatus::Warming => SensorState::Warming,
        LidarStatus::Streaming => SensorState::Streaming,
        LidarStatus::Failed => SensorState::Failed,
    }
}

/// Name the sensor's status.
pub fn map_sensor_state(status: LidarStatus) -> (state: SensorState)
    ensures
        state == sensor_state(status),
{
    match status {
        LidarStatus::Off => SensorState::Off,
        LidarStatus::Warming => SensorState::Warming,
        LidarStatus::Streaming => SensorState::Streaming,
        LidarStatus::Failed => SensorState::Failed,
    }
}

/// The body line of a snapshot: a drive mode shows the sensor, unless it failed.
pub open spec fn body_of(snapshot: Snapshot, status: LidarStatus) -> Body {
    if snapshot.activity is DriveMode && snapshot.stage !is Failed {
        Body::Sensor(sensor_state(status))
    } else {
        Body::Text(snapshot.detail)
    }
}

/// Make the body line of a snapshot.
pub fn status_body(snapshot: &Snapshot, status: LidarStatus) -> (body: Body)
    ensures
        body == body_of(*snapshot, status),
{
    let failed = matches!(snapshot.stage, Stage::Failed);
    match snapshot.activity {
        Activity::DriveMode(_) if !failed => Body::Sensor(map_sensor_state(status)),
        _ => Body::Text(snapshot.detail),
    }
}

/// Whether a view is what a snapshot shows.
pub open spec fn shows(view: StatusView, snapshot: Snapshot, status: LidarStatus) -> bool {
    &&& match procedure_of(snapshot.activity) {
        Some(running) => view.heading == Heading::Procedure(running),
        None => view.heading matches Heading::Title(title) && title@ == activity::activity_title(
            snapshot.activity,
        ),
    }
    &&& view.body == body_of(snapshot, status)
    &&& view.percent == snapshot.percent
    &&& view.finished == (snapshot.stage is Complete || snapshot.stage is Failed)
}

/// Make the running screen of a snapshot.
pub fn status_view(snapshot: &Snapshot, status: LidarStatus) -> (view: StatusView)
    ensures
        shows(view, *snapshot, status),
{
    let heading = match running_procedure(snapshot.activity) {
        Some(running) => Heading::Procedure(running),
        None => Heading::Title(snapshot.title()),
    };
    StatusView {
        heading,
        body: status_body(snapshot, status),
        percent: snapshot.percent,
        finished: matches!(snapshot.stage, Stage::Complete | Stage::Failed),
    }
}

/// The running screen of a procedure that is about to start.
pub open spec fn starting(started: Procedure) -> StatusView {
    StatusView {
        heading: Heading::Procedure(started),
        body: Body::Text("Starting"),
        percent: None,
        finished: false,
    }
}

/// Make the running screen of a procedure that is about to start.
fn starting_view(started: Procedure) -> (view: StatusView)
    ensures
        view == starting(started),
{
    StatusView {
        heading: Heading::Procedure(started),
        body: Body::Text("Starting"),
        percent: None,
        finished: false,
    }
}

/// The panel's names for what is known of a calibration.
#[derive(Debug, Clone, Copy, PartialEq, Eq, Structural)]
pub enum UiCalibrationStatus {
    /// It is there.
    Loaded,
    /// It has not been asked for.
    Unknown,
    /// Flash has none.
    Missing,
}

/// The panel's name for a calibration's status. What was never asked for is unknown,
/// not missing.
pub open spec fn shown_status(status: CalibrationStatus) -> UiCalibrationStatus {
    match status {
        CalibrationStatus::Loaded => UiCalibrationStatus::Loaded,
        CalibrationStatus::NotLoaded => UiCalibrationStatus::Unknown,
        CalibrationStatus::NotAvailable => UiCalibrationStatus::Missing,
    }
}

/// Name a calibration's status.
pub fn map_calibration_status(status: CalibrationStatus) -> (shown: UiCalibrationStatus)
    ensures
        shown == shown_status(status),
{
    match status {
        CalibrationStatus::Loaded => UiCalibrationStatus::Loaded,
        CalibrationStatus::NotLoaded => UiCalibrationStatus::Unknown,
        CalibrationStatus::NotAvailable => UiCalibrationStatus::Missing,
    }
}

/// What the system information shows.
#[derive(Debug, Clone, Copy, PartialEq, Eq, Structural)]
pub struct SystemInfo {
    /// Charge level in percent.
    pub battery_level: u8,
    /// Voltage in millivolts.
    pub battery_mv: u32,
    /// The motor calibration.
    pub motor_calibration: UiCalibrationStatus,
    /// The magnetometer calibration.
    pub mag_calibration: UiCalibrationStatus,
    /// The distance calibration.
    pub distance_calibration: UiCalibrationStatus,
}

/// Make the system information.
pub fn read_system_info(battery_level: u8, battery_mv: u32, state: &CalibrationState) -> (info:
    SystemInfo)
    ensures
        info == (SystemInfo {
            battery_level,
            battery_mv,
            motor_calibration: shown_status(state.motor_cal_status),
            mag_calibration: shown_status(state.mag_cal_status),
            distance_calibration: shown_status(state.distance_cal_status),
        }),
{
    SystemInfo {
        battery_level,
        battery_mv,
        motor_calibration: map_calibration_status(state.motor_cal_status),
        mag_calibration: map_calibration_status(state.mag_cal_status),
        distance_calibration: map_calibration_status(state.distance_cal_status),
    }
}

/// The label of a drive mode.
pub fn drive_mode_label(mode: Procedure) -> (label: Option<&'static str>)
    ensures
        match mode {
            Procedure::CoastAndAvoid => label matches Some(text) && text@ == "Coast & Avoid"@,
            Procedure::AttemptStraight => label matches Some(text) && text@ == "Attempt Straight"@,
            _ => label is None,
        },
{
    match mode {
        Procedure::CoastAndAvoid => Some("Coast & Avoid"),
        Procedure::AttemptStraight => Some("Attempt Straight"),
        _ => None,
    }
}

/// Where the panel goes when the recorded activity is over.
pub open spec fn landing_of(recorded: Activity) -> Landing {
    match procedure_of(recorded) {
        Some(running) => Landing::MenuOf(running),
        None => Landing::MainMenu,
    }
}

/// Everything shared but the activity is left alone.
pub open spec fn same_but_activity(before: Shared, after: Shared) -> bool {
    &&& after.tests == before.tests
    &&& after.calibrations == before.calibrations
    &&& after.coast == before.coast
    &&& after.distance == before.distance
    &&& after.calibration == before.calibration
    &&& after.requested_target_cm == before.requested_target_cm
}

/// Where the panel goes when the recorded activity is over.
fn landing(recorded: Activity) -> (landing: Landing)
    ensures
        landing == landing_of(recorded),
{
    match running_procedure(recorded) {
        Some(running) => Landing::MenuOf(running),
        None => Landing::MainMenu,
    }
}

/// Leave a finished procedure for where it was started.
fn leave(shared: &mut Shared) -> (actions: Vec<UiAction>)
    ensures
        actions@ == seq![
            UiAction::ResetModel,
            UiAction::ShowScreen(landing_of(old(shared).activity.activity)),
        ],
        final(shared).activity == activity::idle(),
        same_but_activity(*old(shared), *final(shared)),
{
    let landing = landing(shared.activity.activity);
    activity::clear(&mut shared.activity);
    vec![UiAction::ResetModel, UiAction::ShowScreen(landing)]
}

/// React to a finished calibration: leave a completed one, hold a failed one's reason
/// on the screen.
pub fn hold_or_leave_calibration(shared: &mut Shared, status: LidarStatus) -> (actions: Vec<
    UiAction,
>)
    ensures
        same_but_activity(*old(shared), *final(shared)),
        if old(shared).activity.activity !is Calibration {
            actions@.len() == 0 && final(shared).activity == old(shared).activity
        } else if old(shared).activity.stage is Failed {
            actions@.len() == 1 && final(shared).activity == old(shared).activity && (
            actions@[0] matches UiAction::SetStatus(view) && shows(
                view,
                old(shared).activity,
                status,
            ))
        } else {
            final(shared).activity == activity::idle() && actions@ == seq![
                UiAction::ResetModel,
                UiAction::ShowScreen(landing_of(old(shared).activity.activity)),
            ]
        },
{
    if !shared.activity.activity.is_calibration() {
        return Vec::new();
    }
    if matches!(shared.activity.stage, Stage::Failed) {
        let view = status_view(&shared.activity, status);
        return vec![UiAction::SetStatus(view)];
    }
    leave(shared)
}

/// Open the value screen once the distance calibration's drive is done, or hold its
/// failure on the screen. A stopped one has left already.
pub fn enter_distance_entry(snapshot: &Snapshot, status: LidarStatus) -> (actions: Vec<UiAction>)
    ensures
        if snapshot.activity is Idle {
            actions@.len() == 0
        } else if snapshot.stage is Failed {
            actions@.len() == 1 && (actions@[0] matches UiAction::SetStatus(view) && shows(
                view,
                *snapshot,
                status,
            ))
        } else {
            actions@ == seq![UiAction::ShowValueEntry(ValueFlow::DistanceCalibration)]
        },
{
    if snapshot.activity == Activity::Idle {
        return Vec::new();
    }
    if matches!(snapshot.stage, Stage::Failed) {
        let view = status_view(snapshot, status);
        return vec![UiAction::SetStatus(view)];
    }
    vec![UiAction::ShowValueEntry(ValueFlow::DistanceCalibration)]
}

/// Take an event.
pub fn handle_event(shared: &mut Shared, event: UiEvent, status: LidarStatus) -> (actions: Vec<
    UiAction,
>)
    ensures
        same_but_activity(*old(shared), *final(shared)),
        match event {
            UiEvent::ShowMainMenu => final(shared).activity == old(shared).activity && actions@
                == seq![UiAction::ResetModel],
            UiEvent::TestingCompleted => final(shared).activity == activity::idle() && actions@
                == seq![
                UiAction::ResetModel,
                UiAction::ShowScreen(landing_of(old(shared).activity.activity)),
            ],
            UiEvent::CalibrationCompleted => if old(shared).activity.activity !is Calibration {
                actions@.len() == 0 && final(shared).activity == old(shared).activity
            } else if old(shared).activity.stage is Failed {
                actions@.len() == 1 && final(shared).activity == old(shared).activity && (
                actions@[0] matches UiAction::SetStatus(view) && shows(
                    view,
                    old(shared).activity,
                    status,
                ))
            } else {
                final(shared).activity == activity::idle() && actions@ == seq![
                    UiAction::ResetModel,
                    UiAction::ShowScreen(landing_of(old(shared).activity.activity)),
                ]
            },
            UiEvent::DistanceDriveFinished => final(shared).activity == old(shared).activity && (
            if old(shared).activity.activity is Idle {
                actions@.len() == 0
            } else if old(shared).activity.stage is Failed {
                actions@.len() == 1 && (actions@[0] matches UiAction::SetStatus(view) && shows(
                    view,
                    old(shared).activity,
                    status,
                ))
            } else {
                actions@ == seq![UiAction::ShowValueEntry(ValueFlow::DistanceCalibration)]
            }),
            _ => actions@.len() == 0 && final(shared).activity == old(shared).activity,
        },
{
    match event {
        UiEvent::ShowMainMenu => vec![UiAction::ResetModel],
        UiEvent::TestingCompleted => leave(shared),
        UiEvent::CalibrationCompleted => hold_or_leave_calibration(shared, status),
        UiEvent::DistanceDriveFinished => enter_distance_entry(&shared.activity, status),
        _ => Vec::new(),
    }
}

/// Start a test and show its running screen. A refused one leaves the panel where it is.
pub fn start_test(shared: &mut Shared, started: Procedure, status: LidarStatus) -> (actions: Vec<
    UiAction,
>)
    ensures
        final(shared).calibrations == old(shared).calibrations,
        final(shared).coast == old(shared).coast,
        final(shared).distance == old(shared).distance,
        final(shared).calibration == old(shared).calibration,
        final(shared).requested_target_cm == old(shared).requested_target_cm,
        if testmode::test_of(started) is Some && !old(shared).tests.busy() {
            let (kind, command) = testmode::test_of(started)->0;
            &&& actions@.len() == 2
            &&& actions@[0] == UiAction::SpawnTest(command)
            &&& actions@[1] matches UiAction::ShowStatus(view) && shows(
                view,
                final(shared).activity,
                status,
            )
            &&& final(shared).tests == procedure::entered(old(shared).tests)
            &&& final(shared).activity == activity::begun(
                Activity::Test(kind),
                "Starting",
                activity::runs_until_stopped(kind),
            )
        } else {
            &&& actions@.len() == 0
            &&& final(shared).tests == old(shared).tests
            &&& final(shared).activity == old(shared).activity
        },
{
    match testmode::start(&mut shared.tests, &mut shared.activity, started) {
        Some(command) => {
            let view = status_view(&shared.activity, status);
            vec![UiAction::SpawnTest(command), UiAction::ShowStatus(view)]
        },
        None => Vec::new(),
    }
}

/// Open the radar: it holds the tests' slot, and goes back where a test holds it.
pub fn enter_room_scan(slot: &mut Slot) -> (action: UiAction)
    ensures
        *final(slot) == Slot::of(true),
        action == (if old(slot)@ {
            UiAction::Back
        } else {
            UiAction::RoomScan(RoomScanRequest::Acquire)
        }),
{
    if testmode::claim_room_scan(slot) {
        UiAction::RoomScan(RoomScanRequest::Acquire)
    } else {
        UiAction::Back
    }
}

/// Leave the radar: the slot is free, and the sensor is released.
pub fn leave_room_scan(slot: &mut Slot) -> (action: UiAction)
    ensures
        *final(slot) == Slot::of(false),
        action == UiAction::RoomScan(RoomScanRequest::Release),
{
    testmode::release_room_scan(slot);
    UiAction::RoomScan(RoomScanRequest::Release)
}

/// Start a calibration. Any other procedure starts nothing.
pub fn start_calibration(shared: &mut Shared, started: Procedure) -> (actions: Vec<UiAction>)
    ensures
        final(shared).activity == old(shared).activity,
        final(shared).tests == old(shared).tests,
        final(shared).calibrations == old(shared).calibrations,
        final(shared).coast == old(shared).coast,
        final(shared).requested_target_cm == old(shared).requested_target_cm,
        started !is DistanceCalibration ==> final(shared).distance == old(shared).distance
            && final(shared).calibration == old(shared).calibration,
        match started {
            Procedure::MotorCalibration => actions@ == seq![
                UiAction::RunMotorCalibration,
                UiAction::ShowStatus(starting(started)),
            ],
            Procedure::MagCalibration => actions@ == seq![
                UiAction::RunMagCalibration,
                UiAction::ShowStatus(starting(started)),
            ],
            Procedure::DistanceCalibration => {
                let before = old(shared).calibration;
                &&& actions@ == seq![
                    UiAction::ShowStatus(starting(started)),
                    UiAction::RequestDistanceDrive,
                ]
                &&& final(shared).distance@ == Some(before.distance_factor_ppm)
                &&& final(shared).calibration == (if before.distance_factor_ppm == 1_000_000 {
                    before
                } else {
                    distance::with_factor(before, 1_000_000)
                })
            },
            _ => actions@.len() == 0,
        },
{
    match started {
        Procedure::MotorCalibration => {
            vec![UiAction::RunMotorCalibration, UiAction::ShowStatus(starting_view(started))]
        },
        Procedure::MagCalibration => {
            vec![UiAction::RunMagCalibration, UiAction::ShowStatus(starting_view(started))]
        },
        Procedure::DistanceCalibration => {
            shared.distance.begin(&mut shared.calibration);
            vec![UiAction::ShowStatus(starting_view(started)), UiAction::RequestDistanceDrive]
        },
        _ => Vec::new(),
    }
}

/// Start coast and avoid: the running screen appears at once, the sensor is waited for
/// elsewhere.
pub fn start_coast_and_avoid(shared: &mut Shared, status: LidarStatus) -> (actions: Vec<UiAction>)
    ensures
        same_but_activity(*old(shared), *final(shared)),
        final(shared).activity == activity::begun(
            Activity::DriveMode(DriveModeKind::CoastAndAvoid),
            "Acquiring LiDAR",
            true,
        ),
        actions@.len() == 2,
        actions@[0] matches UiAction::ShowStatus(view) && shows(
            view,
            final(shared).activity,
            status,
        ),
        actions@[1] == UiAction::RequestCoast,
{
    activity::begin(
        &mut shared.activity,
        Activity::DriveMode(DriveModeKind::CoastAndAvoid),
        "Acquiring LiDAR",
        true,
    );
    let view = status_view(&shared.activity, status);
    vec![UiAction::ShowStatus(view), UiAction::RequestCoast]
}

/// The target a value stands for: the preset where it is none.
pub open spec fn target_for(value_cm: i32) -> u16 {
    if 0 <= value_cm <= u16::MAX {
        value_cm as u16
    } else {
        attempt_straight_line::TARGET_PRESET_CM
    }
}

/// The target a value stands for.
pub fn target_from(value_cm: i32) -> (target_cm: u16)
    ensures
        target_cm == target_for(value_cm),
{
    if 0 <= value_cm && value_cm <= u16::MAX as i32 {
        value_cm as u16
    } else {
        attempt_straight_line::target_preset_cm()
    }
}

/// Stop whatever runs, and forget it. Every latch is set: one that its procedure does
/// not hold is cleared when that procedure starts next.
pub fn stop_running(shared: &mut Shared) -> (actions: Vec<UiAction>)
    ensures
        actions@ == seq![
            UiAction::Interrupt(InterruptKind::Stop),
            UiAction::Interrupt(InterruptKind::Stop),
        ],
        final(shared).tests.latch@,
        final(shared).tests.slot == old(shared).tests.slot,
        final(shared).calibrations.latch@,
        final(shared).calibrations.slot == old(shared).calibrations.slot,
        final(shared).coast == (CoastControl { active: false, stop_requested: true }),
        final(shared).activity == activity::idle(),
        final(shared).distance == old(shared).distance,
        final(shared).calibration == old(shared).calibration,
        final(shared).requested_target_cm == old(shared).requested_target_cm,
{
    let first = testmode::stop(&mut shared.tests);
    let second = calibration::request_stop(&mut shared.calibrations);
    coast_obstacle_avoid::stop(&mut shared.coast);
    activity::clear(&mut shared.activity);
    vec![UiAction::Interrupt(first), UiAction::Interrupt(second)]
}

/// What a tap leads to, as far as it does not depend on what is shared.
#[derive(Debug, Clone, Copy, PartialEq, Eq, Structural)]
pub enum Reaction {
    /// Open the radar.
    EnterRoomScan,
    /// Leave the radar.
    LeaveRoomScan,
    /// Start a test.
    StartTest(Procedure),
    /// Start a calibration.
    StartCalibration(Procedure),
    /// Start coast and avoid.
    StartCoast,
    /// Take the measured distance.
    SaveDistance,
    /// Drop the distance calibration.
    CancelDistance,
    /// Record the target of attempting a straight line.
    RecordTarget,
    /// Forget the finished activity.
    Dismiss,
    /// Stop what runs.
    Stop,
    /// Nothing.
    Nothing,
}

/// What a menu entry leads to.
pub open spec fn item_reaction(item: Item) -> Reaction {
    match item {
        Item::RoomScan => Reaction::EnterRoomScan,
        Item::Submenu => Reaction::Nothing,
        Item::SystemInfo => Reaction::Nothing,
        Item::Procedure(started) => match started {
            Procedure::MotorCalibration => Reaction::StartCalibration(started),
            Procedure::MagCalibration => Reaction::StartCalibration(started),
            Procedure::DistanceCalibration => Reaction::StartCalibration(started),
            Procedure::CoastAndAvoid => Reaction::StartCoast,
            Procedure::AttemptStraight => Reaction::Nothing,
            _ => Reaction::StartTest(started),
        },
    }
}

/// What a tap on a screen leads to. A menu entry means the same on every screen.
pub open spec fn reaction_to(screen: Screen, hit: Option<Hit>) -> Reaction {
    match (screen, hit) {
        (_, Some(Hit::MenuItem(item))) => item_reaction(item),
        (Screen::RoomScan, Some(Hit::Back)) => Reaction::LeaveRoomScan,
        (Screen::ValueEntry(ValueFlow::DistanceCalibration), Some(Hit::Save)) => {
            Reaction::SaveDistance
        },
        (Screen::ValueEntry(ValueFlow::DistanceCalibration), Some(Hit::Cancel)) => {
            Reaction::CancelDistance
        },
        (Screen::ValueEntry(ValueFlow::AttemptStraight), Some(Hit::Save)) => {
            Reaction::RecordTarget
        },
        (Screen::Status, Some(Hit::Back)) => Reaction::Dismiss,
        (Screen::Status, Some(Hit::Stop)) => Reaction::Stop,
        _ => Reaction::Nothing,
    }
}

/// Decide what a menu entry leads to.
pub fn handle_menu_item(item: Item) -> (reaction: Reaction)
    ensures
        reaction == item_reaction(item),
{
    match item {
        Item::RoomScan => Reaction::EnterRoomScan,
        Item::Submenu | Item::SystemInfo => Reaction::Nothing,
        Item::Procedure(started) => match started {
            Procedure::BasicMotor
            | Procedure::Turns
            | Procedure::StraightDrive
            | Procedure::ArcDrive
            | Procedure::Imu6Axis
            | Procedure::Imu9Axis => Reaction::StartTest(started),
            Procedure::MotorCalibration
            | Procedure::MagCalibration
            | Procedure::DistanceCalibration => Reaction::StartCalibration(started),
            Procedure::CoastAndAvoid => Reaction::StartCoast,
            Procedure::AttemptStraight => Reaction::Nothing,
        },
    }
}

/// Decide what a tap leads to, given the screen it began on.
pub fn react(screen: Screen, hit: Option<Hit>) -> (reaction: Reaction)
    ensures
        reaction == reaction_to(screen, hit),
{
    match (screen, hit) {
        (_, Some(Hit::MenuItem(item))) => handle_menu_item(item),
        (Screen::RoomScan, Some(Hit::Back)) => Reaction::LeaveRoomScan,
        (Screen::ValueEntry(ValueFlow::DistanceCalibration), Some(Hit::Save)) => {
            Reaction::SaveDistance
        },
        (Screen::ValueEntry(ValueFlow::DistanceCalibration), Some(Hit::Cancel)) => {
            Reaction::CancelDistance
        },
        (Screen::ValueEntry(ValueFlow::AttemptStraight), Some(Hit::Save)) => {
            Reaction::RecordTarget
        },
        (Screen::Status, Some(Hit::Back)) => Reaction::Dismiss,
        (Screen::Status, Some(Hit::Stop)) => Reaction::Stop,
        _ => Reaction::Nothing,
    }
}

/// Whether a reaction may change the distance factor.
pub open spec fn moves_factor(reaction: Reaction) -> bool {
    match reaction {
        Reaction::SaveDistance => true,
        Reaction::CancelDistance => true,
        Reaction::StartCalibration(started) => started is DistanceCalibration,
        _ => false,
    }
}

/// Whether a reaction may change the tests' slot or latch.
pub open spec fn touches_tests(reaction: Reaction) -> bool {
    match reaction {
        Reaction::EnterRoomScan => true,
        Reaction::LeaveRoomScan => true,
        Reaction::StartTest(_) => true,
        Reaction::Stop => true,
        _ => false,
    }
}

/// The tests' family as the radar leaves it.
pub open spec fn with_slot(family: Family, taken: bool) -> Family {
    Family {
        slot: match family.slot {
            Some(_) => Some(Slot::of(taken)),
            None => None,
        },
        ..family
    }
}

/// Take a tap: the screen and the value it began on, and what it hit.
pub fn handle_activation(
    shared: &mut Shared,
    screen: Screen,
    value: i32,
    hit: Option<Hit>,
    status: LidarStatus,
) -> (actions: Vec<UiAction>)
    ensures
        ({
            let reaction = reaction_to(screen, hit);
            &&& reaction !is Stop ==> final(shared).calibrations == old(shared).calibrations
                && final(shared).coast == old(shared).coast
            &&& reaction !is RecordTarget ==> final(shared).requested_target_cm
                == old(shared).requested_target_cm
            &&& !moves_factor(reaction) ==> final(shared).distance == old(shared).distance
                && final(shared).calibration == old(shared).calibration
            &&& !touches_tests(reaction) ==> final(shared).tests == old(shared).tests
        }),
        match reaction_to(screen, hit) {
            Reaction::EnterRoomScan => {
                &&& final(shared).activity == old(shared).activity
                &&& final(shared).tests == with_slot(old(shared).tests, true)
                &&& actions@ == seq![
                    if old(shared).tests.busy() {
                        UiAction::Back
                    } else {
                        UiAction::RoomScan(RoomScanRequest::Acquire)
                    },
                ]
            },
            Reaction::LeaveRoomScan => {
                &&& final(shared).activity == old(shared).activity
                &&& final(shared).tests == with_slot(old(shared).tests, false)
                &&& actions@ == seq![UiAction::RoomScan(RoomScanRequest::Release)]
            },
            Reaction::StartTest(started) => {
                let starts = !old(shared).tests.busy();
                let (kind, command) = testmode::test_of(started)->0;
                &&& starts ==> actions@.len() == 2 && actions@[0] == UiAction::SpawnTest(command)
                    && (actions@[1] matches UiAction::ShowStatus(view) && shows(
                    view,
                    final(shared).activity,
                    status,
                ))
                    && final(shared).tests == procedure::entered(old(shared).tests)
                    && final(shared).activity == activity::begun(
                    Activity::Test(kind),
                    "Starting",
                    activity::runs_until_stopped(kind),
                )
                &&& !starts ==> actions@.len() == 0 && final(shared).tests == old(shared).tests
                    && final(shared).activity == old(shared).activity
            },
            Reaction::StartCalibration(started) => {
                &&& final(shared).activity == old(shared).activity
                &&& actions@.len() == 2
                &&& actions@.contains(UiAction::ShowStatus(starting(started)))
                &&& started is MotorCalibration ==> actions@[0] == UiAction::RunMotorCalibration
                &&& started is MagCalibration ==> actions@[0] == UiAction::RunMagCalibration
                &&& started is DistanceCalibration ==> actions@[1]
                    == UiAction::RequestDistanceDrive && final(shared).distance@ == Some(
                    old(shared).calibration.distance_factor_ppm,
                ) && final(shared).calibration == (
                if old(shared).calibration.distance_factor_ppm == 1_000_000 {
                    old(shared).calibration
                } else {
                    distance::with_factor(old(shared).calibration, 1_000_000)
                })
            },
            Reaction::StartCoast => {
                &&& final(shared).activity == activity::begun(
                    Activity::DriveMode(DriveModeKind::CoastAndAvoid),
                    "Acquiring LiDAR",
                    true,
                )
                &&& actions@.len() == 2
                &&& actions@[1] == UiAction::RequestCoast
                &&& actions@[0] matches UiAction::ShowStatus(view) && shows(
                    view,
                    final(shared).activity,
                    status,
                )
            },
            Reaction::SaveDistance => {
                &&& actions@.len() == 0
                &&& final(shared).activity == activity::idle()
                &&& final(shared).distance@ is None
                &&& final(shared).calibration == distance::with_factor(
                    old(shared).calibration,
                    distance::factor_for(value) as i32,
                )
            },
            Reaction::CancelDistance => {
                &&& actions@.len() == 0
                &&& final(shared).activity == activity::idle()
                &&& final(shared).distance@ is None
                &&& final(shared).calibration == (match old(shared).distance@ {
                    None => old(shared).calibration,
                    Some(previous) => distance::with_factor(old(shared).calibration, previous),
                })
            },
            Reaction::RecordTarget => {
                &&& actions@.len() == 0
                &&& final(shared).activity == old(shared).activity
                &&& final(shared).requested_target_cm == target_for(value)
            },
            Reaction::Dismiss => {
                &&& actions@.len() == 0
                &&& final(shared).activity == activity::idle()
                &&& same_but_activity(*old(shared), *final(shared))
            },
            Reaction::Stop => {
                &&& actions@ == seq![
                    UiAction::Interrupt(InterruptKind::Stop),
                    UiAction::Interrupt(InterruptKind::Stop),
                ]
                &&& final(shared).activity == activity::idle()
                &&& final(shared).tests.latch@
                &&& final(shared).tests.slot == old(shared).tests.slot
                &&& final(shared).calibrations.latch@
                &&& final(shared).calibrations.slot == old(shared).calibrations.slot
                &&& final(shared).coast == (CoastControl { active: false, stop_requested: true })
            },
            Reaction::Nothing => {
                &&& actions@.len() == 0
                &&& final(shared).activity == old(shared).activity
                &&& same_but_activity(*old(shared), *final(shared))
            },
        },
{
    match react(screen, hit) {
        Reaction::EnterRoomScan => {
            let mut action = UiAction::RoomScan(RoomScanRequest::Acquire);
            if let Some(slot) = shared.tests.slot {
                let mut slot = slot;
                action = enter_room_scan(&mut slot);
                shared.tests.slot = Some(slot);
            }
            vec![action]
        },
        Reaction::LeaveRoomScan => {
            if let Some(slot) = shared.tests.slot {
                let mut slot = slot;
                let _ = leave_room_scan(&mut slot);
                shared.tests.slot = Some(slot);
            }
            vec![UiAction::RoomScan(RoomScanRequest::Release)]
        },
        Reaction::StartTest(started) => start_test(shared, started, status),
        Reaction::StartCalibration(started) => {
            let actions = start_calibration(shared, started);
            assert(actions@[0] == UiAction::ShowStatus(starting(started)) || actions@[1]
                == UiAction::ShowStatus(starting(started)));
            actions
        },
        Reaction::StartCoast => start_coast_and_avoid(shared, status),
        Reaction::SaveDistance => {
            let _ = shared.distance.commit(&mut shared.calibration, value);
            activity::clear(&mut shared.activity);
            Vec::new()
        },
        Reaction::CancelDistance => {
            shared.distance.abort(&mut shared.calibration);
            activity::clear(&mut shared.activity);
            Vec::new()
        },
        Reaction::RecordTarget => {
            shared.requested_target_cm = target_from(value);
            Vec::new()
        },
        Reaction::Dismiss => {
            activity::clear(&mut shared.activity);
            Vec::new()
        },
        Reaction::Stop => stop_running(shared),
        Reaction::Nothing => Vec::new(),
    }
}

/// The running screen of the recorded activity, where the panel shows one.
pub fn refresh_running_screen(
    on_status_screen: bool,
    snapshot: &Snapshot,
    status: LidarStatus,
) -> (view: Option<StatusView>)
    ensures
        view is Some <==> on_status_screen && snapshot.activity !is Idle,
        view matches Some(view) ==> shows(view, *snapshot, status),
{
    if !on_status_screen || snapshot.activity == Activity::Idle {
        return None;
    }
    Some(status_view(snapshot, status))
}

/// The event of a finished distance drive; a stopped one tells nobody.
pub fn distance_drive_event(outcome: DriveOutcome) -> (event: Option<UiEvent>)
    ensures
        event == (if outcome is Stopped {
            None
        } else {
            Some(UiEvent::DistanceDriveFinished)
        }),
{
    match outcome {
        DriveOutcome::Stopped => None,
        _ => Some(UiEvent::DistanceDriveFinished),
    }
}

/// Record how a start of coast and avoid went. A start that was stopped finds nothing
/// recorded any more and leaves it so.
pub fn on_coast_start(state: &mut Snapshot, outcome: Result<(), StartError>)
    ensures
        outcome is Ok ==> *final(state) == *old(state),
        outcome matches Err(error) ==> {
            &&& old(state).activity is Idle ==> *final(state) == *old(state)
            &&& old(state).activity !is Idle ==> {
                &&& final(state).activity == old(state).activity
                &&& final(state).stage == Stage::Failed
                &&& final(state).percent is None
                &&& final(state).interactive == old(state).interactive
                &&& final(state).detail@ == (match error {
                    StartError::Busy => "LiDAR busy"@,
                    StartError::LidarUnavailable => "LiDAR unavailable"@,
                    StartError::Cancelled => "Stopped"@,
                })
            }
        },
{
    if let Err(error) = outcome {
        activity::fail(state, error.label());
    }
}

/// What the radar's sensor task does next.
#[derive(Debug, Clone, Copy, PartialEq, Eq, Structural)]
pub enum LeaseStep {
    /// Acquire the sensor.
    Acquire,
    /// Release the sensor.
    Release,
    /// Nothing.
    Nothing,
}

/// The radar's lease on the sensor.
#[derive(Debug, Clone, Copy, PartialEq, Eq, Structural)]
pub struct RoomScanLease {
    /// Whether the sensor is held.
    pub held: bool,
}

impl RoomScanLease {
    /// Take a request: a held sensor is not acquired again, and one that is not held
    /// is not released.
    pub fn on_request(&mut self, request: RoomScanRequest) -> (step: LeaseStep)
        ensures
            step == (match request {
                RoomScanRequest::Acquire => if old(self).held {
                    LeaseStep::Nothing
                } else {
                    LeaseStep::Acquire
                },
                RoomScanRequest::Release => if old(self).held {
                    LeaseStep::Release
                } else {
                    LeaseStep::Nothing
                },
            }),
            final(self).held == (old(self).held && request is Acquire),
    {
        match request {
            RoomScanRequest::Acquire => if self.held {
                LeaseStep::Nothing
            } else {
                LeaseStep::Acquire
            },
            RoomScanRequest::Release => {
                if self.held {
                    self.held = false;
                    LeaseStep::Release
                } else {
                    LeaseStep::Nothing
                }
            },
        }
    }

    /// Learn whether the sensor was acquired.
    pub fn on_acquired(&mut self, acquired: bool)
        ensures
            final(self).held == (old(self).held || acquired),
    {
        if acquired {
            self.held = true;
        }
    }
}

/// A stop from the running screen reaches every kind of procedure, so none is left
/// unstoppable; and what it latched is cleared by each family's own next start.
pub proof fn law_stop_reaches_everything(family: Family)
    ensures
        reaction_to(Screen::Status, Some(Hit::Stop)) is Stop,
        !procedure::entered(family).latch@,
{
    procedure::law_start_discards_stale_stops(family);
}

/// What a menu entry starts does not depend on the screen it was tapped on.
pub proof fn law_entries_mean_the_same_everywhere(one: Screen, other: Screen, item: Item)
    ensures
        reaction_to(one, Some(Hit::MenuItem(item))) == reaction_to(
            other,
            Some(Hit::MenuItem(item)),
        ),
{
}

/// Leaving an activity goes back to the menu of the procedure that is recorded as it, and
/// to the main menu where there is none.
pub proof fn law_leaving_goes_where_it_began(recorded: Activity)
    ensures
        landing_of(recorded) is MainMenu <==> recorded is Idle || recorded is Booting,
        landing_of(recorded) matches Landing::MenuOf(started) ==> procedure::activity_of(started)
            == Some(recorded),
{
}

/// The running screen shows a drive mode's sensor and every other activity's own words;
/// a failure always shows its reason.
pub proof fn law_failure_shows_its_reason(snapshot: Snapshot, status: LidarStatus)
    ensures
        snapshot.stage is Failed ==> body_of(snapshot, status) == Body::Text(snapshot.detail),
        snapshot.activity !is DriveMode ==> body_of(snapshot, status) == Body::Text(
            snapshot.detail,
        ),
        snapshot.activity is DriveMode && snapshot.stage !is Failed ==> body_of(
            snapshot,
            status,
        ) == Body::Sensor(sensor_state(status)),
{
}

/// The panel's names for the sensor and for a calibration tell them apart: what was never
/// asked for is unknown and what flash lacks is missing.
pub proof fn law_states_are_named_apart(status: LidarStatus, calibration: CalibrationStatus)
    ensures
        sensor_state(status) is Off <==> status is Off,
        sensor_state(status) is Warming <==> status is Warming,
        sensor_state(status) is Streaming <==> status is Streaming,
        sensor_state(status) is Failed <==> status is Failed,
        shown_status(calibration) is Loaded <==> calibration is Loaded,
        shown_status(calibration) is Unknown <==> calibration is NotLoaded,
        shown_status(calibration) is Missing <==> calibration is NotAvailable,
{
}

/// A value that is a distance is the target; any other is the preset.
pub proof fn law_target_is_the_value(value_cm: i32)
    ensures
        0 <= value_cm <= 65_535 ==> target_for(value_cm) == value_cm,
        value_cm < 0 || value_cm > 65_535 ==> target_for(value_cm)
            == attempt_straight_line::TARGET_PRESET_CM,
{
}

/// A menu entry starts what it is recorded as: a test, a calibration or the drive mode,
/// and nothing for what is not recorded.
pub proof fn law_entries_start_what_they_name(started: Procedure)
    ensures
        ({
            let reaction = item_reaction(Item::Procedure(started));
            match procedure::activity_of(started) {
                Some(Activity::Test(_)) => reaction == Reaction::StartTest(started),
                Some(Activity::Calibration(_)) => reaction == Reaction::StartCalibration(started),
                Some(Activity::DriveMode(_)) => reaction is StartCoast,
                _ => reaction is Nothing,
            }
        }),
        item_reaction(Item::RoomScan) is EnterRoomScan,
{
}

/// A button of a screen does what that screen is for: leaving the radar, taking or
/// dropping a measured distance, recording a target, dismissing or stopping what runs;
/// the same button elsewhere does nothing.
pub proof fn law_buttons_belong_to_their_screen(screen: Screen, hit: Hit)
    requires
        hit !is MenuItem,
    ensures
        ({
            let reaction = reaction_to(screen, Some(hit));
            &&& reaction is LeaveRoomScan <==> screen is RoomScan && hit is Back
            &&& reaction is Dismiss <==> screen is Status && hit is Back
            &&& reaction is Stop <==> screen is Status && hit is Stop
            &&& reaction is SaveDistance <==> screen == Screen::ValueEntry(
                ValueFlow::DistanceCalibration,
            ) && hit is Save
            &&& reaction is CancelDistance <==> screen == Screen::ValueEntry(
                ValueFlow::DistanceCalibration,
            ) && hit is Cancel
            &&& reaction is RecordTarget <==> screen == Screen::ValueEntry(
                ValueFlow::AttemptStraight,
            ) && hit is Save
            &&& reaction !is EnterRoomScan
            &&& reaction !is StartTest
            &&& reaction !is StartCalibration
            &&& reaction !is StartCoast
        }),
        reaction_to(screen, None) is Nothing,
{
}

/// The radar and the tests exclude each other: an open radar keeps every test out, and a
/// closed one lets the next in.
pub proof fn law_radar_and_tests_exclude_each_other(family: Family)
    ensures
        family.slot is Some ==> with_slot(family, true).busy(),
        !with_slot(family, false).busy(),
        with_slot(family, true).latch == family.latch,
        with_slot(family, false).latch == family.latch,
{
    Slot::lemma_of(true);
    Slot::lemma_of(false);
}

/// An open radar asks for the sensor once and gives it back once: a sensor that is held is
/// not asked for again, and one that is not held is not given back.
pub proof fn law_radar_holds_the_sensor_once(
    lease: &mut RoomScanLease,
    request: RoomScanRequest,
    step: LeaseStep,
)
    requires
        call_ensures(RoomScanLease::on_request, (lease, request), step),
    ensures
        step is Acquire <==> request is Acquire && !old(lease).held,
        step is Release <==> request is Release && old(lease).held,
        final(lease).held <==> old(lease).held && request is Acquire,
{
}

/// The radar opens only where no test holds the slot, and leaving it frees the slot.
pub proof fn law_radar_opens_and_closes(
    entering: &mut Slot,
    entered: UiAction,
    leaving: &mut Slot,
    left: UiAction,
)
    requires
        call_ensures(enter_room_scan, (entering,), entered),
        call_ensures(leave_room_scan, (leaving,), left),
    ensures
        entered == UiAction::RoomScan(RoomScanRequest::Acquire) <==> !old(entering)@,
        entered is Back <==> old(entering)@,
        final(entering)@,
        !final(leaving)@,
        left == UiAction::RoomScan(RoomScanRequest::Release),
{
    Slot::lemma_of(true);
    Slot::lemma_of(false);
}

/// A finished calibration is left for its menu and a failed one keeps its reason on the
/// screen; any other activity is none of a calibration's business.
pub proof fn law_finished_calibration_is_left(
    shared: &mut Shared,
    status: LidarStatus,
    actions: Vec<UiAction>,
    kind: CalibrationKind,
)
    requires
        call_ensures(hold_or_leave_calibration, (shared, status), actions),
    ensures
        old(shared).activity.activity !is Calibration ==> actions@.len() == 0 && final(shared).activity
            == old(shared).activity,
        old(shared).activity.activity == Activity::Calibration(kind) && old(
            shared,
        ).activity.stage is Failed ==> final(shared).activity == old(shared).activity
            && actions@.len() == 1 && actions@[0] is SetStatus,
        old(shared).activity.activity == Activity::Calibration(kind) && old(
            shared,
        ).activity.stage !is Failed ==> {
            &&& final(shared).activity.activity is Idle
            &&& actions@.len() == 2
            &&& actions@[0] is ResetModel
            &&& actions@[1] matches UiAction::ShowScreen(Landing::MenuOf(started))
            &&& procedure::activity_of(started) == Some(Activity::Calibration(kind))
        },
{
}

/// A stop sets every latch, ends the drive mode and forgets the activity, and sends a drive
/// in flight its interrupt; it touches no slot and no calibration data.
pub proof fn law_stop_stops_everything(shared: &mut Shared, actions: Vec<UiAction>)
    requires
        call_ensures(stop_running, (shared,), actions),
    ensures
        final(shared).tests.latch@,
        final(shared).calibrations.latch@,
        !final(shared).coast.active,
        final(shared).coast.stop_requested,
        final(shared).activity.activity is Idle,
        actions@.len() == 2,
        actions@[0] == UiAction::Interrupt(InterruptKind::Stop),
        actions@[1] == UiAction::Interrupt(InterruptKind::Stop),
        final(shared).tests.slot == old(shared).tests.slot,
        final(shared).calibration == old(shared).calibration,
{
}

/// A tap on the distance screen puts the measured distance's factor in force or the old
/// one back, and a tap on the target screen records the target.
pub proof fn law_value_screens_keep_their_value(
    saving: &mut Shared,
    saved: Vec<UiAction>,
    cancelling: &mut Shared,
    cancelled: Vec<UiAction>,
    recording: &mut Shared,
    recorded: Vec<UiAction>,
    value: i32,
    status: LidarStatus,
)
    requires
        call_ensures(
            handle_activation,
            (
                saving,
                Screen::ValueEntry(ValueFlow::DistanceCalibration),
                value,
                Some(Hit::Save),
                status,
            ),
            saved,
        ),
        call_ensures(
            handle_activation,
            (
                cancelling,
                Screen::ValueEntry(ValueFlow::DistanceCalibration),
                value,
                Some(Hit::Cancel),
                status,
            ),
            cancelled,
        ),
        call_ensures(
            handle_activation,
            (
                recording,
                Screen::ValueEntry(ValueFlow::AttemptStraight),
                value,
                Some(Hit::Save),
                status,
            ),
            recorded,
        ),
    ensures
        15 <= value <= 1_500 ==> {
            let factor_ppm = final(saving).calibration.distance_factor_ppm;
            -(value as int) <= 2 * (factor_ppm * value - 150_000_000) <= value
        },
        old(cancelling).distance@ matches Some(previous) ==> {
            let factor_ppm = final(cancelling).calibration.distance_factor_ppm;
            factor_ppm == previous
        },
        100 <= value <= 1_000 ==> final(recording).requested_target_cm == value,
        final(recording).calibration == old(recording).calibration,
        final(saving).requested_target_cm == old(saving).requested_target_cm,
{
    distance::law_factor_is_commanded_over_measured(value);
    if 15 <= value <= 1_500 {
        distance::law_factor_corrects_the_drive(value);
    }
}

/// The system information shows each calibration under its own name, and the battery as it
/// was measured.
pub proof fn law_information_is_shown_in_its_place(
    battery_level: u8,
    battery_mv: u32,
    state: &CalibrationState,
    info: SystemInfo,
)
    requires
        call_ensures(read_system_info, (battery_level, battery_mv, state), info),
    ensures
        info.battery_level == battery_level,
        info.battery_mv == battery_mv,
        info.motor_calibration is Loaded <==> state.motor_cal_status is Loaded,
        info.motor_calibration is Missing <==> state.motor_cal_status is NotAvailable,
        info.mag_calibration is Loaded <==> state.mag_cal_status is Loaded,
        info.mag_calibration is Missing <==> state.mag_cal_status is NotAvailable,
        info.distance_calibration is Loaded <==> state.distance_cal_status is Loaded,
        info.distance_calibration is Missing <==> state.distance_cal_status is NotAvailable,
{
}

/// A finished test is left for its menu, a finished drive of the distance calibration for
/// the value screen, and its failure stays on the screen; an idle panel has nothing to
/// leave.
pub proof fn law_finished_work_is_left(
    testing: &mut Shared,
    tested: Vec<UiAction>,
    kind: TestKind,
    snapshot: &Snapshot,
    entry: Vec<UiAction>,
    status: LidarStatus,
)
    requires
        old(testing).activity.activity == Activity::Test(kind),
        call_ensures(handle_event, (testing, UiEvent::TestingCompleted, status), tested),
        call_ensures(enter_distance_entry, (snapshot, status), entry),
    ensures
        final(testing).activity.activity is Idle,
        tested@.len() == 2,
        tested@[0] is ResetModel,
        tested@[1] matches UiAction::ShowScreen(Landing::MenuOf(started))
            && procedure::activity_of(started) == Some(Activity::Test(kind)),
        snapshot.activity is Idle ==> entry@.len() == 0,
        snapshot.activity !is Idle && snapshot.stage is Failed ==> entry@.len() == 1
            && entry@[0] is SetStatus,
        snapshot.activity !is Idle && snapshot.stage !is Failed ==> entry@ == seq![
            UiAction::ShowValueEntry(ValueFlow::DistanceCalibration),
        ],
{
}

/// A test starts where its slot is free, with its own command, and is recorded; where it is
/// taken, nothing happens.
pub proof fn law_test_starts_or_not(
    shared: &mut Shared,
    started: Procedure,
    status: LidarStatus,
    actions: Vec<UiAction>,
    kind: TestKind,
)
    requires
        procedure::activity_of(started) == Some(Activity::Test(kind)),
        call_ensures(start_test, (shared, started, status), actions),
    ensures
        old(shared).tests.busy() ==> actions@.len() == 0 && final(shared).activity == old(
            shared,
        ).activity,
        !old(shared).tests.busy() ==> {
            &&& actions@.len() == 2
            &&& actions@[0] matches UiAction::SpawnTest(command)
            &&& testmode::test_of(started) == Some((kind, command))
            &&& actions@[1] is ShowStatus
            &&& final(shared).activity.activity == Activity::Test(kind)
            &&& final(shared).activity.stage is Running
            &&& !final(shared).tests.latch@
        },
        final(shared).calibrations == old(shared).calibrations,
{
    procedure::law_start_discards_stale_stops(old(shared).tests);
    testmode::law_tests_are_recorded_as_such(started);
}

/// A calibration is started by its own request; the distance calibration drives at a factor
/// of one and keeps the old one. No other procedure starts one.
pub proof fn law_calibration_starts_its_own(
    shared: &mut Shared,
    started: Procedure,
    actions: Vec<UiAction>,
)
    requires
        call_ensures(start_calibration, (shared, started), actions),
    ensures
        actions@.contains(UiAction::RunMotorCalibration) <==> started is MotorCalibration,
        actions@.contains(UiAction::RunMagCalibration) <==> started is MagCalibration,
        actions@.contains(UiAction::RequestDistanceDrive) <==> started is DistanceCalibration,
        started is DistanceCalibration ==> final(shared).calibration.distance_factor_ppm
            == 1_000_000 && final(shared).distance@ == Some(
            old(shared).calibration.distance_factor_ppm,
        ),
        started !is DistanceCalibration ==> final(shared).calibration == old(shared).calibration,
{
    if started is MotorCalibration || started is MagCalibration {
        assert(actions@[0] is RunMotorCalibration || actions@[0] is RunMagCalibration);
    }
    if started is DistanceCalibration {
        assert(actions@[1] is RequestDistanceDrive);
    }
}

/// A drive mode that could not start keeps its screen with the reason; one that was stopped
/// meanwhile stays forgotten.
pub proof fn law_refused_coast_says_why(
    state: &mut Snapshot,
    outcome: Result<(), StartError>,
)
    requires
        call_ensures(on_coast_start, (state, outcome), ()),
    ensures
        outcome is Ok || old(state).activity is Idle ==> *final(state) == *old(state),
        outcome is Err && old(state).activity !is Idle ==> {
            &&& final(state).stage is Failed
            &&& final(state).activity == old(state).activity
        },
        outcome == Err::<(), StartError>(StartError::Busy) && old(state).activity !is Idle
            ==> final(state).detail@ == "LiDAR busy"@,
        outcome == Err::<(), StartError>(StartError::LidarUnavailable) && old(
            state,
        ).activity !is Idle ==> final(state).detail@ == "LiDAR unavailable"@,
{
}

/// The running screen is refreshed where it is shown and something is recorded; a stopped
/// distance drive tells nobody, any other end of it is told.
pub proof fn law_running_screen_is_refreshed(
    on_status_screen: bool,
    snapshot: &Snapshot,
    status: LidarStatus,
    view: Option<StatusView>,
    outcome: DriveOutcome,
    event: Option<UiEvent>,
)
    requires
        call_ensures(refresh_running_screen, (on_status_screen, snapshot, status), view),
        call_ensures(distance_drive_event, (outcome,), event),
    ensures
        view is Some <==> on_status_screen && snapshot.activity !is Idle,
        view matches Some(view) ==> view.percent == snapshot.percent && (view.finished
            <==> snapshot.stage !is Running),
        event is None <==> outcome is Stopped,
        event is Some ==> event == Some(UiEvent::DistanceDriveFinished),
{
}

} // verus!
