//! What long-running procedure the robot is performing, for the panel to show.
//!
//! [`begin`] is the only way in and [`clear`] the only way out. While an activity is
//! recorded its producer moves it along with [`set_running`], [`complete`] or
//! [`fail`]; those do nothing once the state is idle, so a producer that outlives the
//! operator's stop cannot resurrect a finished procedure.

use vstd::prelude::*;

verus! {

/// Which test is running.
#[derive(Debug, Clone, Copy, PartialEq, Eq, Structural)]
pub enum TestKind {
    /// The basic motor test.
    BasicMotor,
    /// The in-place turns test.
    Turns,
    /// The straight-drive test.
    StraightDrive,
    /// The arc-drive test.
    ArcDrive,
    /// The six-axis IMU telemetry test.
    Imu6Axis,
    /// The nine-axis IMU telemetry test.
    Imu9Axis,
}

/// The title of a test.
pub open spec fn test_title(kind: TestKind) -> Seq<char> {
    match kind {
        TestKind::BasicMotor => "Basic Motor Test"@,
        TestKind::Turns => "Turns Test"@,
        TestKind::StraightDrive => "Straight Drive"@,
        TestKind::ArcDrive => "Arc Drive"@,
        TestKind::Imu6Axis => "IMU Test (6-axis)"@,
        TestKind::Imu9Axis => "IMU Test (9-axis)"@,
    }
}

impl TestKind {
    /// The title the running screen shows.
    pub fn title(self) -> (title: &'static str)
        ensures
            title@ == test_title(self),
    {
        match self {
            TestKind::BasicMotor => "Basic Motor Test",
            TestKind::Turns => "Turns Test",
            TestKind::StraightDrive => "Straight Drive",
            TestKind::ArcDrive => "Arc Drive",
            TestKind::Imu6Axis => "IMU Test (6-axis)",
            TestKind::Imu9Axis => "IMU Test (9-axis)",
        }
    }

    /// Whether the test runs until the operator stops it.
    pub fn is_interactive(self) -> (interactive: bool)
        ensures
            interactive == runs_until_stopped(self),
    {
        matches!(self, TestKind::BasicMotor | TestKind::Imu6Axis | TestKind::Imu9Axis)
    }
}

/// Whether a test streams until it is stopped instead of ending by itself.
pub open spec fn runs_until_stopped(kind: TestKind) -> bool {
    kind is BasicMotor || kind is Imu6Axis || kind is Imu9Axis
}

/// Which autonomous drive mode is running.
#[derive(Debug, Clone, Copy, PartialEq, Eq, Structural)]
pub enum DriveModeKind {
    /// Coast and avoid obstacles.
    CoastAndAvoid,
}

impl DriveModeKind {
    /// The title the running screen shows.
    pub fn title(self) -> (title: &'static str)
        ensures
            title@ == "Coast & Avoid"@,
    {
        match self {
            DriveModeKind::CoastAndAvoid => "Coast & Avoid",
        }
    }
}

/// Which calibration is running.
#[derive(Debug, Clone, Copy, PartialEq, Eq, Structural)]
pub enum CalibrationKind {
    /// The motor (track balance) calibration.
    Motor,
    /// The magnetometer calibration.
    Mag,
    /// The distance calibration.
    Distance,
}

/// The title of a calibration.
pub open spec fn calibration_title(kind: CalibrationKind) -> Seq<char> {
    match kind {
        CalibrationKind::Motor => "Motor"@,
        CalibrationKind::Mag => "Mag"@,
        CalibrationKind::Distance => "Distance"@,
    }
}

impl CalibrationKind {
    /// The title the running screen shows.
    pub fn title(self) -> (title: &'static str)
        ensures
            title@ == calibration_title(self),
    {
        match self {
            CalibrationKind::Motor => "Motor",
            CalibrationKind::Mag => "Mag",
            CalibrationKind::Distance => "Distance",
        }
    }
}

/// What the robot is doing.
#[derive(Debug, Clone, Copy, PartialEq, Eq, Structural)]
pub enum Activity {
    /// Nothing long-running.
    Idle,
    /// Loading calibration data at boot.
    Booting,
    /// A test.
    Test(TestKind),
    /// A calibration.
    Calibration(CalibrationKind),
    /// An autonomous drive mode.
    DriveMode(DriveModeKind),
}

/// The title of an activity.
pub open spec fn activity_title(activity: Activity) -> Seq<char> {
    match activity {
        Activity::Idle => "Running"@,
        Activity::Booting => "Boot"@,
        Activity::Test(kind) => test_title(kind),
        Activity::Calibration(kind) => calibration_title(kind),
        Activity::DriveMode(_) => "Coast & Avoid"@,
    }
}

impl Activity {
    /// The title the running screen shows.
    pub fn title(self) -> (title: &'static str)
        ensures
            title@ == activity_title(self),
    {
        match self {
            Activity::Idle => "Running",
            Activity::Booting => "Boot",
            Activity::Test(kind) => kind.title(),
            Activity::Calibration(kind) => kind.title(),
            Activity::DriveMode(kind) => kind.title(),
        }
    }

    /// Whether this is a calibration.
    pub fn is_calibration(self) -> (calibration: bool)
        ensures
            calibration == self is Calibration,
    {
        matches!(self, Activity::Calibration(_))
    }
}

/// How far the recorded activity has got.
#[derive(Debug, Clone, Copy, PartialEq, Eq, Structural)]
pub enum Stage {
    /// Under way.
    Running,
    /// Reached its end.
    Complete,
    /// Could not run, or failed part-way.
    Failed,
}

/// The activity state.
#[derive(Debug, Clone, Copy)]
pub struct Snapshot {
    /// What is running.
    pub activity: Activity,
    /// How far it has got.
    pub stage: Stage,
    /// The current phase while running, the result or the reason once ended.
    pub detail: &'static str,
    /// Percent progress, when the procedure can report one.
    pub percent: Option<u8>,
    /// Whether the procedure ends only on an explicit stop.
    pub interactive: bool,
}

/// Nothing is running.
pub open spec fn idle() -> Snapshot {
    Snapshot {
        activity: Activity::Idle,
        stage: Stage::Running,
        detail: "",
        percent: None,
        interactive: false,
    }
}

/// `activity` has just begun.
pub open spec fn begun(activity: Activity, detail: &'static str, interactive: bool) -> Snapshot {
    Snapshot { activity, stage: Stage::Running, detail, percent: None, interactive }
}

/// The running activity moved on; an idle state stays idle.
pub open spec fn moved_on(
    state: Snapshot,
    stage: Stage,
    detail: &'static str,
    percent: Option<u8>,
) -> Snapshot {
    if state.activity is Idle {
        state
    } else {
        Snapshot { stage, detail, percent, ..state }
    }
}

impl Snapshot {
    /// The state at power-up: nothing is running.
    pub fn new() -> (state: Self)
        ensures
            state == idle(),
    {
        Snapshot {
            activity: Activity::Idle,
            stage: Stage::Running,
            detail: "",
            percent: None,
            interactive: false,
        }
    }

    /// The title the running screen shows.
    pub fn title(&self) -> (title: &'static str)
        ensures
            title@ == activity_title(self.activity),
    {
        self.activity.title()
    }

    /// Whether a calibration is under way. One that has finished but was not
    /// dismissed yet is not.
    pub fn is_calibrating(&self) -> (calibrating: bool)
        ensures
            calibrating == (self.activity is Calibration && self.stage is Running),
    {
        self.activity.is_calibration() && matches!(self.stage, Stage::Running)
    }
}

/// Start `activity`, replacing whatever was recorded.
pub fn begin(state: &mut Snapshot, activity: Activity, detail: &'static str, interactive: bool)
    ensures
        *final(state) == begun(activity, detail, interactive),
{
    *state = Snapshot { activity, stage: Stage::Running, detail, percent: None, interactive };
}

/// Start `activity` only if nothing else is running, reporting whether it did.
pub fn begin_if_idle(
    state: &mut Snapshot,
    activity: Activity,
    detail: &'static str,
    interactive: bool,
) -> (started: bool)
    ensures
        started == old(state).activity is Idle,
        started ==> *final(state) == begun(activity, detail, interactive),
        !started ==> *final(state) == *old(state),
{
    if state.activity != Activity::Idle {
        return false;
    }
    begin(state, activity, detail, interactive);
    true
}

/// Advance the phase line and percent of the running activity.
pub fn set_running(state: &mut Snapshot, detail: &'static str, percent: Option<u8>)
    ensures
        *final(state) == moved_on(*old(state), Stage::Running, detail, percent),
{
    if state.activity == Activity::Idle {
        return;
    }
    state.stage = Stage::Running;
    state.detail = detail;
    state.percent = percent;
}

/// Advance the phase line and percent, but only while `activity` is the one
/// recorded, reporting whether it did.
pub fn set_running_for(
    state: &mut Snapshot,
    activity: Activity,
    detail: &'static str,
    percent: Option<u8>,
) -> (updated: bool)
    ensures
        updated == (old(state).activity == activity),
        updated ==> *final(state) == (Snapshot {
            stage: Stage::Running,
            detail,
            percent,
            ..*old(state)
        }),
        !updated ==> *final(state) == *old(state),
{
    if state.activity != activity {
        return false;
    }
    state.stage = Stage::Running;
    state.detail = detail;
    state.percent = percent;
    true
}

/// Record that the running activity finished.
pub fn complete(state: &mut Snapshot, detail: &'static str)
    ensures
        *final(state) == moved_on(*old(state), Stage::Complete, detail, Some(100)),
{
    if state.activity == Activity::Idle {
        return;
    }
    state.stage = Stage::Complete;
    state.detail = detail;
    state.percent = Some(100);
}

/// Record that the running activity could not run or failed, and why.
pub fn fail(state: &mut Snapshot, detail: &'static str)
    ensures
        *final(state) == moved_on(*old(state), Stage::Failed, detail, None),
{
    if state.activity == Activity::Idle {
        return;
    }
    state.stage = Stage::Failed;
    state.detail = detail;
    state.percent = None;
}

/// Forget the recorded activity.
pub fn clear(state: &mut Snapshot)
    ensures
        *final(state) == idle(),
{
    *state = Snapshot::new();
}

/// Forget the recorded activity, but only while it is `activity`, reporting whether
/// it did.
pub fn clear_for(state: &mut Snapshot, activity: Activity) -> (cleared: bool)
    ensures
        cleared == (old(state).activity == activity),
        cleared ==> *final(state) == idle(),
        !cleared ==> *final(state) == *old(state),
{
    if state.activity != activity {
        return false;
    }
    clear(state);
    true
}

/// A consistent copy of the state.
pub fn snapshot(state: &Snapshot) -> (copy: Snapshot)
    ensures
        copy == *state,
{
    *state
}

/// Whether a calibration is under way.
pub fn is_calibrating(state: &Snapshot) -> (calibrating: bool)
    ensures
        calibrating == (state.activity is Calibration && state.stage is Running),
{
    state.is_calibrating()
}

/// Percent of a staged procedure done before stage `index` of `total`.
pub open spec fn percent_before(index: usize, total: usize) -> int {
    let scaled = if index * 100 > usize::MAX {
        usize::MAX as int
    } else {
        index * 100
    };
    let share = scaled / (if total == 0 {
        1
    } else {
        total as int
    });
    if share <= u8::MAX {
        share
    } else {
        100
    }
}

/// Percent of a staged procedure done before stage `index` of `total`. What does not
/// fit a byte is a hundred.
pub fn percent_done(index: usize, total: usize) -> (percent: u8)
    ensures
        percent == percent_before(index, total),
{
    let scaled: usize = match index.checked_mul(100) {
        Some(scaled) => scaled,
        None => usize::MAX,
    };
    let share: usize = scaled / (if total == 0 {
        1
    } else {
        total
    });
    if share <= u8::MAX as usize {
        share as u8
    } else {
        100
    }
}

/// The percent of a stage that exists is below a hundred and never falls from one
/// stage to the next.
pub proof fn law_percent_is_sane(index: usize, next: usize, total: usize)
    requires
        index <= next < total,
        total * 100 <= usize::MAX,
    ensures
        0 <= percent_before(index, total) <= percent_before(next, total) < 100,
{
    vstd::arithmetic::div_mod::lemma_div_is_ordered(index * 100, next * 100, total as int);
    assert(next * 100 / total as int <= 99) by (nonlinear_arith)
        requires
            0 <= next < total,
    ;
    assert(index * 100 / total as int >= 0) by (nonlinear_arith)
        requires
            0 <= index,
            total > 0,
    ;
}

/// Nothing but a start leaves the idle state: a producer that outlives the
/// operator's stop cannot bring its procedure back, whatever it reports.
pub proof fn law_idle_is_not_resurrected(
    state: Snapshot,
    stage: Stage,
    detail: &'static str,
    percent: Option<u8>,
)
    requires
        state.activity is Idle,
    ensures
        moved_on(state, stage, detail, percent) == state,
{
}

/// Progress reports never change which activity is recorded.
pub proof fn law_progress_keeps_the_activity(
    state: Snapshot,
    stage: Stage,
    detail: &'static str,
    percent: Option<u8>,
)
    ensures
        moved_on(state, stage, detail, percent).activity == state.activity,
        moved_on(state, stage, detail, percent).interactive == state.interactive,
{
}

/// A latched stop request for one family of producers.
///
/// The latch is sticky for a run: once the operator asks a procedure to stop, every
/// later check sees the request. A producer re-arms the latch when its run starts,
/// which makes a stale request harmless.
#[derive(Debug, Clone, Copy, PartialEq, Eq, Structural)]
pub struct StopRequest {
    requested: bool,
}

impl StopRequest {
    /// Whether a stop has been requested since the last re-arm.
    pub closed spec fn view(&self) -> bool {
        self.requested
    }

    /// The latch with or without a request, in ghost code.
    pub closed spec fn of(requested: bool) -> Self {
        StopRequest { requested }
    }

    /// A latch is determined by whether a stop was requested.
    pub broadcast proof fn lemma_of(requested: bool)
        ensures
            (#[trigger] StopRequest::of(requested))@ == requested,
    {
    }

    /// A latch without a request.
    pub fn new() -> (latch: Self)
        ensures
            latch == StopRequest::of(false),
            !latch@,
    {
        StopRequest { requested: false }
    }

    /// Latch a stop request.
    pub fn request(&mut self)
        ensures
            *final(self) == StopRequest::of(true),
            final(self)@,
    {
        self.requested = true;
    }

    /// Discard a request left over from a previous run.
    pub fn rearm(&mut self)
        ensures
            *final(self) == StopRequest::of(false),
            !final(self)@,
    {
        self.requested = false;
    }

    /// Whether a stop has been requested since the last re-arm.
    pub fn is_requested(&self) -> (requested: bool)
        ensures
            requested == self@,
    {
        self.requested
    }

    /// Whether waiting for a stop is over at once.
    pub fn wait(&self) -> (over: bool)
        ensures
            over == self@,
    {
        self.requested
    }

    /// How a wait ended that either a request or a timer could end: a latched
    /// request wins even if the timer ran out as well.
    pub fn wait_or(&self, woken: bool) -> (stopped: bool)
        ensures
            stopped == (self@ || woken),
    {
        self.requested || woken
    }
}

impl Default for StopRequest {
    fn default() -> (latch: Self)
        ensures
            !latch@,
    {
        StopRequest::new()
    }
}

/// The percent before a stage is the share of the stages behind it, rounded down.
pub proof fn law_percent_is_the_share(index: usize, total: usize)
    requires
        index <= total,
        total > 0,
        total * 100 <= usize::MAX,
    ensures
        percent_before(index, total) * total <= 100 * index,
        100 * index < (percent_before(index, total) + 1) * total,
{
    let whole: int = total as int;
    let scaled: int = index * 100;
    let share: int = scaled / whole;
    assert(share * whole <= scaled < (share + 1) * whole && share <= 100) by (nonlinear_arith)
        requires
            whole > 0,
            share == scaled / whole,
            scaled <= 100 * whole,
    ;
}

/// A stage past the last has its share too, as far as a byte holds it, and a hundred
/// percent beyond.
pub proof fn law_percent_past_the_end(index: usize, total: usize)
    requires
        total > 0,
        index * 100 <= usize::MAX,
    ensures
        100 * index < 256 * total ==> percent_before(index, total) * total <= 100 * index < (
        percent_before(index, total) + 1) * total,
        100 * index >= 256 * total ==> percent_before(index, total) == 100,
{
    let whole: int = total as int;
    let scaled: int = index * 100;
    let share: int = scaled / whole;
    assert(share * whole <= scaled < (share + 1) * whole && (share <= 255 <==> scaled < 256
        * whole)) by (nonlinear_arith)
        requires
            whole > 0,
            scaled >= 0,
            share == scaled / whole,
    ;
}

/// A report reaches a recorded activity whole; a start is a fresh state that runs.
pub proof fn law_reports_are_recorded(
    state: Snapshot,
    stage: Stage,
    detail: &'static str,
    percent: Option<u8>,
    activity: Activity,
    interactive: bool,
)
    ensures
        state.activity !is Idle ==> {
            let after = moved_on(state, stage, detail, percent);
            after.stage == stage && after.detail == detail && after.percent == percent
        },
        ({
            let started = begun(activity, detail, interactive);
            &&& started.activity == activity
            &&& started.stage is Running
            &&& started.detail == detail
            &&& started.percent is None
            &&& started.interactive == interactive
        }),
        idle().activity is Idle,
        idle().percent is None,
        !idle().interactive,
{
}

/// Only the tests that stream, the motors' and the sensor's, wait for a stop.
pub proof fn law_streaming_tests(kind: TestKind)
    ensures
        runs_until_stopped(kind) <==> !(kind is Turns || kind is StraightDrive || kind is ArcDrive),
{
}

/// A start that waits for its turn changes nothing while something runs, and an update or
/// an end that is meant for one activity changes no other.
pub proof fn law_activities_are_not_disturbed(
    starting: &mut Snapshot,
    started: bool,
    updating: &mut Snapshot,
    updated: bool,
    clearing: &mut Snapshot,
    cleared: bool,
    activity: Activity,
    detail: &'static str,
    percent: Option<u8>,
    interactive: bool,
)
    requires
        call_ensures(begin_if_idle, (starting, activity, detail, interactive), started),
        call_ensures(set_running_for, (updating, activity, detail, percent), updated),
        call_ensures(clear_for, (clearing, activity), cleared),
    ensures
        started <==> old(starting).activity is Idle,
        started ==> final(starting).activity == activity && final(starting).interactive
            == interactive,
        !started ==> *final(starting) == *old(starting),
        updated <==> old(updating).activity == activity,
        updated ==> {
            &&& final(updating).activity == activity
            &&& final(updating).stage is Running
            &&& final(updating).detail == detail
            &&& final(updating).percent == percent
        },
        !updated ==> *final(updating) == *old(updating),
        cleared <==> old(clearing).activity == activity,
        cleared ==> final(clearing).activity is Idle,
        !cleared ==> *final(clearing) == *old(clearing),
{
}

/// A calibration is under way while it runs, and no longer once it has ended.
pub proof fn law_calibrating_means_running(state: &Snapshot, calibrating: bool)
    requires
        call_ensures(is_calibrating, (state,), calibrating),
    ensures
        calibrating <==> state.activity is Calibration && state.stage is Running,
        state.stage is Complete || state.stage is Failed ==> !calibrating,
{
}

/// A latched stop is seen until the latch is armed again, and ends a wait even where the
/// timer ran out as well.
pub proof fn law_stops_are_latched(
    requested: &mut StopRequest,
    armed: &mut StopRequest,
    latch: &StopRequest,
    woken: bool,
    stopped: bool,
)
    requires
        call_ensures(StopRequest::request, (requested,), ()),
        call_ensures(StopRequest::rearm, (armed,), ()),
        call_ensures(StopRequest::wait_or, (latch, woken), stopped),
    ensures
        final(requested)@,
        !final(armed)@,
        latch@ ==> stopped,
        !latch@ ==> stopped == woken,
{
}

/// Every activity is shown under its own title, a test or a calibration under that of its
/// kind.
pub proof fn law_activities_have_their_title(test: TestKind, calibration: CalibrationKind)
    ensures
        activity_title(Activity::Test(test)) == (match test {
            TestKind::BasicMotor => "Basic Motor Test"@,
            TestKind::Turns => "Turns Test"@,
            TestKind::StraightDrive => "Straight Drive"@,
            TestKind::ArcDrive => "Arc Drive"@,
            TestKind::Imu6Axis => "IMU Test (6-axis)"@,
            TestKind::Imu9Axis => "IMU Test (9-axis)"@,
        }),
        activity_title(Activity::Calibration(calibration)) == (match calibration {
            CalibrationKind::Motor => "Motor"@,
            CalibrationKind::Mag => "Mag"@,
            CalibrationKind::Distance => "Distance"@,
        }),
        activity_title(Activity::DriveMode(DriveModeKind::CoastAndAvoid)) == "Coast & Avoid"@,
        activity_title(Activity::Booting) == "Boot"@,
        activity_title(Activity::Idle) == "Running"@,
{
}

} // verus!
