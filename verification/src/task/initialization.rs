//! Initialisation: ask flash for calibration data, and take it in as it arrives.

use vstd::prelude::*;

use crate::system::state::{CalibrationState, CalibrationStatus};
use crate::task::io::display::{DisplayAction, MAX_LINE_LEN};
use crate::task::io::flash_storage::{CalibrationDataKind, CalibrationKind};
use crate::task::motor_driver;
use crate::task::motor_driver::MotorCalibration;

verus! {

/// One thing initialisation does.
#[derive(Debug, Clone, Copy, PartialEq, Eq)]
pub enum InitAction {
    /// Clear the display.
    ClearDisplay,
    /// Show a text on a line.
    ShowText(&'static str, u8),
    /// Ask flash for calibration data.
    Fetch(CalibrationKind),
    /// Hand calibration factors to the motor driver.
    LoadMotor(MotorCalibration),
    /// Show the main menu.
    ShowMainMenu,
}

/// Begin: a message, then a request for each kind of calibration data.
pub fn handle_initialize() -> (actions: Vec<InitAction>)
    ensures
        actions@ == seq![
            InitAction::ClearDisplay,
            InitAction::ShowText("Initializing...", 0),
            InitAction::Fetch(CalibrationKind::Motor),
            InitAction::Fetch(CalibrationKind::ImuFlags),
            InitAction::Fetch(CalibrationKind::Distance),
        ],
{
    vec![
        InitAction::ClearDisplay,
        InitAction::ShowText("Initializing...", 0),
        InitAction::Fetch(CalibrationKind::Motor),
        InitAction::Fetch(CalibrationKind::ImuFlags),
        InitAction::Fetch(CalibrationKind::Distance),
    ]
}

/// Whether every kind of calibration data has been queried.
pub open spec fn queried(state: CalibrationState) -> bool {
    &&& state.motor_cal_status !is NotLoaded
    &&& state.mag_cal_status !is NotLoaded
    &&& state.distance_cal_status !is NotLoaded
}

/// Whether every kind of calibration data has been queried.
pub fn is_initialized(state: &CalibrationState) -> (initialized: bool)
    ensures
        initialized == queried(*state),
{
    !matches!(state.motor_cal_status, CalibrationStatus::NotLoaded) && !matches!(
        state.mag_cal_status,
        CalibrationStatus::NotLoaded
    ) && !matches!(state.distance_cal_status, CalibrationStatus::NotLoaded)
}

/// The status of data that is there or not.
pub open spec fn status_of(available: bool) -> CalibrationStatus {
    if available {
        CalibrationStatus::Loaded
    } else {
        CalibrationStatus::NotAvailable
    }
}

/// The state after an answer from flash. Data of another kind counts as none.
pub open spec fn loaded(
    state: CalibrationState,
    kind: CalibrationKind,
    data: Option<CalibrationDataKind>,
) -> CalibrationState {
    match kind {
        CalibrationKind::Motor => CalibrationState {
            motor_cal_status: status_of(data matches Some(CalibrationDataKind::Motor(_))),
            ..state
        },
        CalibrationKind::Distance => match data {
            Some(CalibrationDataKind::Distance(factor_ppm)) => CalibrationState {
                distance_cal_status: CalibrationStatus::Loaded,
                distance_factor_ppm: factor_ppm,
                ..state
            },
            _ => CalibrationState {
                distance_cal_status: CalibrationStatus::NotAvailable,
                ..state
            },
        },
        CalibrationKind::ImuFlags => CalibrationState {
            mag_cal_status: status_of(
                data matches Some(CalibrationDataKind::ImuFlags(flags)) && flags.mag,
            ),
            ..state
        },
    }
}

/// The main menu, where everything has been queried and no calibration is under way.
pub open spec fn menu_if_complete(state: CalibrationState, calibrating: bool) -> Seq<InitAction> {
    if queried(state) && !calibrating {
        seq![InitAction::ShowMainMenu]
    } else {
        Seq::empty()
    }
}

/// What an answer from flash leads to, given the state after it. The menu is shown again
/// for each part of the answer that completes initialisation; the IMU flags have two more.
pub open spec fn reactions(
    state: CalibrationState,
    kind: CalibrationKind,
    data: Option<CalibrationDataKind>,
    calibrating: bool,
) -> Seq<InitAction> {
    let own = match kind {
        CalibrationKind::Motor => match data {
            Some(CalibrationDataKind::Motor(calibration)) => seq![
                InitAction::LoadMotor(
                    MotorCalibration {
                        left_factor_ppm: motor_driver::clamped_factor(
                            calibration.left_factor_ppm as int,
                        ),
                        right_factor_ppm: motor_driver::clamped_factor(
                            calibration.right_factor_ppm as int,
                        ),
                    },
                ),
                InitAction::ShowText("Calibration loaded", 1),
            ],
            _ => seq![InitAction::ShowText("Need motor calib", 1)],
        },
        CalibrationKind::Distance => Seq::empty(),
        CalibrationKind::ImuFlags => menu_if_complete(state, calibrating) + menu_if_complete(
            state,
            calibrating,
        ),
    };
    own + menu_if_complete(state, calibrating)
}

/// Take an answer from flash.
pub fn handle_calibration_data_loaded(
    state: &mut CalibrationState,
    kind: CalibrationKind,
    data: Option<CalibrationDataKind>,
    calibrating: bool,
) -> (actions: Vec<InitAction>)
    ensures
        *final(state) == loaded(*old(state), kind, data),
        actions@ == reactions(*final(state), kind, data, calibrating),
{
    let mut actions: Vec<InitAction> = Vec::new();
    match kind {
        CalibrationKind::Motor => match data {
            Some(CalibrationDataKind::Motor(calibration)) => {
                state.motor_cal_status = CalibrationStatus::Loaded;
                actions.push(
                    InitAction::LoadMotor(
                        MotorCalibration::new(
                            calibration.left_factor_ppm as i64,
                            calibration.right_factor_ppm as i64,
                        ),
                    ),
                );
                actions.push(InitAction::ShowText("Calibration loaded", 1));
            },
            _ => {
                state.motor_cal_status = CalibrationStatus::NotAvailable;
                actions.push(InitAction::ShowText("Need motor calib", 1));
            },
        },
        CalibrationKind::Distance => match data {
            Some(CalibrationDataKind::Distance(factor_ppm)) => {
                state.distance_cal_status = CalibrationStatus::Loaded;
                state.distance_factor_ppm = factor_ppm;
            },
            _ => {
                state.distance_cal_status = CalibrationStatus::NotAvailable;
            },
        },
        CalibrationKind::ImuFlags => {
            let mag = match data {
                Some(CalibrationDataKind::ImuFlags(flags)) => flags.mag,
                _ => false,
            };
            state.mag_cal_status = if mag {
                CalibrationStatus::Loaded
            } else {
                CalibrationStatus::NotAvailable
            };
            if is_initialized(state) && !calibrating {
                actions.push(InitAction::ShowMainMenu);
                actions.push(InitAction::ShowMainMenu);
            }
        },
    }
    if is_initialized(state) && !calibrating {
        actions.push(InitAction::ShowMainMenu);
    }
    assert(actions@ =~= reactions(*state, kind, data, calibrating));
    actions
}

/// Initialisation completes only once all three kinds were answered, in whatever order
/// they arrive, and never goes back.
pub proof fn law_initialisation_needs_every_kind(
    state: CalibrationState,
    kind: CalibrationKind,
    data: Option<CalibrationDataKind>,
)
    ensures
        queried(state) ==> queried(loaded(state, kind, data)),
        queried(loaded(state, kind, data)) <==> {
            &&& kind is Motor || state.motor_cal_status !is NotLoaded
            &&& kind is ImuFlags || state.mag_cal_status !is NotLoaded
            &&& kind is Distance || state.distance_cal_status !is NotLoaded
        },
{
}

/// A calibration under way keeps its screen: no answer from flash pulls the panel to
/// the main menu then.
pub proof fn law_calibration_keeps_the_panel(
    state: CalibrationState,
    kind: CalibrationKind,
    data: Option<CalibrationDataKind>,
)
    ensures
        !reactions(state, kind, data, true).contains(InitAction::ShowMainMenu),
{
}

/// A line's text, where there is one.
pub open spec fn shown(
    text: Option<heapless::String<MAX_LINE_LEN>>,
    line: u8,
) -> Seq<DisplayAction> {
    match text {
        None => Seq::empty(),
        Some(text) => seq![DisplayAction::ShowText(text, line)],
    }
}

/// Show the lines of a calibration status, each where there is one.
pub fn handle_calibration_status(
    header: Option<heapless::String<MAX_LINE_LEN>>,
    line1: Option<heapless::String<MAX_LINE_LEN>>,
    line2: Option<heapless::String<MAX_LINE_LEN>>,
    line3: Option<heapless::String<MAX_LINE_LEN>>,
) -> (actions: Vec<DisplayAction>)
    ensures
        actions@ == shown(header, 0) + shown(line1, 1) + shown(line2, 2) + shown(line3, 3),
{
    let mut actions: Vec<DisplayAction> = Vec::new();
    if let Some(text) = header {
        actions.push(DisplayAction::ShowText(text, 0));
    }
    assert(actions@ =~= shown(header, 0));
    if let Some(text) = line1 {
        actions.push(DisplayAction::ShowText(text, 1));
    }
    assert(actions@ =~= shown(header, 0) + shown(line1, 1));
    if let Some(text) = line2 {
        actions.push(DisplayAction::ShowText(text, 2));
    }
    assert(actions@ =~= shown(header, 0) + shown(line1, 1) + shown(line2, 2));
    if let Some(text) = line3 {
        actions.push(DisplayAction::ShowText(text, 3));
    }
    actions
}

/// An answer from flash settles its own kind and no other: it is loaded where data of
/// that kind came and not available where none did, and only the distance brings a
/// factor with it.
pub proof fn law_answer_settles_its_kind(
    state: CalibrationState,
    kind: CalibrationKind,
    data: Option<CalibrationDataKind>,
)
    ensures
        ({
            let after = loaded(state, kind, data);
            &&& kind !is Motor ==> after.motor_cal_status == state.motor_cal_status
            &&& kind !is ImuFlags ==> after.mag_cal_status == state.mag_cal_status
            &&& kind !is Distance ==> after.distance_cal_status == state.distance_cal_status
                && after.distance_factor_ppm == state.distance_factor_ppm
            &&& after.imu_cal_status == state.imu_cal_status
            &&& data is None ==> {
                &&& kind is Motor ==> after.motor_cal_status is NotAvailable
                &&& kind is ImuFlags ==> after.mag_cal_status is NotAvailable
                &&& kind is Distance ==> after.distance_cal_status is NotAvailable
                    && after.distance_factor_ppm == state.distance_factor_ppm
            }
            &&& kind is Motor && (data matches Some(CalibrationDataKind::Motor(_)))
                ==> after.motor_cal_status is Loaded
            &&& data matches Some(CalibrationDataKind::Distance(factor)) ==> (kind is Distance
                ==> after.distance_cal_status is Loaded && after.distance_factor_ppm == factor)
            &&& data matches Some(CalibrationDataKind::ImuFlags(flags)) ==> (kind is ImuFlags
                ==> (after.mag_cal_status is Loaded <==> flags.mag))
        }),
{
}

/// Motor factors reach the driver between half and one and a half, each on its own
/// track, and unchanged where they lie there already.
pub proof fn law_loaded_factors_fit_their_tracks(
    state: CalibrationState,
    factors: MotorCalibration,
    calibrating: bool,
)
    ensures
        ({
            let actions = reactions(
                state,
                CalibrationKind::Motor,
                Some(CalibrationDataKind::Motor(factors)),
                calibrating,
            );
            &&& actions.len() >= 2
            &&& actions[0] matches InitAction::LoadMotor(given)
            &&& 500_000 <= given.left_factor_ppm <= 1_500_000
            &&& 500_000 <= given.right_factor_ppm <= 1_500_000
            &&& 500_000 <= factors.left_factor_ppm <= 1_500_000 ==> given.left_factor_ppm
                == factors.left_factor_ppm
            &&& 500_000 <= factors.right_factor_ppm <= 1_500_000 ==> given.right_factor_ppm
                == factors.right_factor_ppm
        }),
{
}

/// The main menu appears exactly where everything has been asked for and no calibration
/// is under way.
pub proof fn law_menu_follows_the_last_answer(
    state: CalibrationState,
    kind: CalibrationKind,
    data: Option<CalibrationDataKind>,
    calibrating: bool,
)
    ensures
        reactions(state, kind, data, calibrating).contains(InitAction::ShowMainMenu) <==> {
            &&& state.motor_cal_status !is NotLoaded
            &&& state.mag_cal_status !is NotLoaded
            &&& state.distance_cal_status !is NotLoaded
            &&& !calibrating
        },
{
    let actions = reactions(state, kind, data, calibrating);
    if queried(state) && !calibrating {
        assert(actions.last() == InitAction::ShowMainMenu);
    }
}

/// The lines of a status go to the display one below the other, each to its own line
/// whichever of the others are there.
pub proof fn law_status_lines_keep_their_place(
    text: heapless::String<MAX_LINE_LEN>,
    line: u8,
)
    ensures
        shown(Some(text), line).len() == 1,
        shown(Some(text), line)[0] == DisplayAction::ShowText(text, line),
        shown(None, line).len() == 0,
{
}

/// Initialisation asks flash for every kind of calibration data, each once, after it has
/// said what it does.
pub proof fn law_every_kind_is_asked_for(actions: Vec<InitAction>)
    requires
        call_ensures(handle_initialize, (), actions),
    ensures
        actions@.len() == 5,
        actions@[0] is ClearDisplay,
        actions@[1] is ShowText,
        forall|kind: CalibrationKind| #[trigger] actions@.contains(InitAction::Fetch(kind)),
{
    assert(actions@[2] == InitAction::Fetch(CalibrationKind::Motor));
    assert(actions@[3] == InitAction::Fetch(CalibrationKind::ImuFlags));
    assert(actions@[4] == InitAction::Fetch(CalibrationKind::Distance));
    assert forall|kind: CalibrationKind| #[trigger]
        actions@.contains(InitAction::Fetch(kind)) by {
        match kind {
            CalibrationKind::Motor => {
                assert(actions@[2] == InitAction::Fetch(kind));
            },
            CalibrationKind::ImuFlags => {
                assert(actions@[3] == InitAction::Fetch(kind));
            },
            CalibrationKind::Distance => {
                assert(actions@[4] == InitAction::Fetch(kind));
            },
        }
    }
}

/// What an answer is followed by: nothing but the main menu, three times over for the IMU
/// flags and once for the distance, and for the motor a word on its factors first.
pub proof fn law_answers_are_followed_up(
    state: CalibrationState,
    kind: CalibrationKind,
    data: Option<CalibrationDataKind>,
    calibrating: bool,
)
    ensures
        ({
            let actions = reactions(state, kind, data, calibrating);
            let menus = if queried(state) && !calibrating {
                1nat
            } else {
                0
            };
            let factors = data matches Some(CalibrationDataKind::Motor(_));
            &&& kind is ImuFlags ==> actions.len() == 3 * menus
            &&& kind is Distance ==> actions.len() == menus
            &&& kind is Motor && factors ==> actions.len() == 2 + menus && actions[1]
                == InitAction::ShowText("Calibration loaded", 1)
            &&& kind is Motor && !factors ==> actions.len() == 1 + menus && actions[0]
                == InitAction::ShowText("Need motor calib", 1)
            &&& forall|i: int|
                0 <= i < actions.len() && kind !is Motor ==> #[trigger] actions[i]
                    is ShowMainMenu
        }),
{
}

} // verus!
