//! Attempt a straight line: look for a gap, drive through it, repeat until the target
//! is reached or nothing is open.
//!
//! Progress is micrometres.

use vstd::prelude::*;

use crate::lidar_cloud::Cloud;
use crate::task::autonomous_mode::gap_analysis;
use crate::task::autonomous_mode::gap_analysis::GapDecision;
use crate::task::autonomous_mode::gap_laws;
use crate::task::dialogue::DriveQueue;
use crate::task::drive::{DriveAction, DriveDirection, DriveDistanceKind, RotationDirection};

verus! {

/// Smallest target, in centimetres.
pub const TARGET_MIN_CM: u16 = 100;

/// Largest target, in centimetres.
pub const TARGET_MAX_CM: u16 = 1000;

/// Step of the target, in centimetres.
pub const TARGET_STEP_CM: u16 = 10;

/// Target offered first, in centimetres.
pub const TARGET_PRESET_CM: u16 = 300;

/// Speed through a gap.
pub const DRIVE_SPEED: u8 = 70;

/// Speed of the rotation towards a gap.
pub const TURN_SPEED: u8 = 60;

/// Smallest rotation worth making, in microdegrees.
pub const MIN_ROTATION_UDEG: u32 = 1_000_000;

/// Smallest target, in centimetres.
pub fn target_min_cm() -> (cm: u16)
    ensures
        cm == TARGET_MIN_CM,
{
    TARGET_MIN_CM
}

/// Largest target, in centimetres.
pub fn target_max_cm() -> (cm: u16)
    ensures
        cm == TARGET_MAX_CM,
{
    TARGET_MAX_CM
}

/// Step of the target, in centimetres.
pub fn target_step_cm() -> (cm: u16)
    ensures
        cm == TARGET_STEP_CM,
{
    TARGET_STEP_CM
}

/// Target offered first, in centimetres.
pub fn target_preset_cm() -> (cm: u16)
    ensures
        cm == TARGET_PRESET_CM,
{
    TARGET_PRESET_CM
}

/// What the screen shows of the mode.
#[derive(Debug, Clone, Copy, PartialEq, Eq)]
pub struct ModeDisplayState {
    /// Progress so far.
    pub progress_um: i128,
    /// The target, in centimetres.
    pub target_cm: u16,
    /// Estimated heading, in microdegrees; clockwise counts up.
    pub heading_udeg: i128,
    /// Distance from the straight line, in micrometres.
    pub offset_um: u64,
    /// What the mode is doing.
    pub state_label: &'static str,
}

/// The display before a run.
pub fn idle_display() -> (display: ModeDisplayState)
    ensures
        display == (ModeDisplayState {
            progress_um: 0,
            target_cm: 0,
            heading_udeg: 0,
            offset_um: 0,
            state_label: "Idle",
        }),
{
    ModeDisplayState {
        progress_um: 0,
        target_cm: 0,
        heading_udeg: 0,
        offset_um: 0,
        state_label: "Idle",
    }
}

/// What the mode is about to do.
#[derive(Debug, Clone, Copy, PartialEq, Eq, Structural)]
pub enum State {
    /// Look for gaps.
    Analyzing,
    /// Drive through a gap.
    Driving(GapDecision),
    /// End, the target reached.
    FinishedReached,
    /// End, nothing open.
    FinishedBlocked,
    /// Over.
    Over,
}

/// What to do next.
#[derive(Debug, Clone, Copy, PartialEq, Eq)]
pub enum AttemptStep {
    /// Ask whether the mode is still active.
    CheckActive,
    /// Hand in the latest cloud.
    Analyze,
    /// Drive a queue.
    Drive(DriveQueue),
    /// Brake, release and show how it ended.
    Finish(&'static str),
}

/// How a drive went.
#[derive(Debug, Clone, Copy, PartialEq, Eq, Structural)]
pub enum DriveReport {
    /// The queue could not take its steps.
    QueueFull,
    /// Another queue was running.
    QueueBusy,
    /// It was driven, wholly or in part.
    Driven {
        /// Progress of the leg, in micrometres.
        progress_um: i128,
        /// The distance from the straight line after it, in micrometres.
        offset_um: u64,
    },
}

/// The queue through a gap: face it, unless it is ahead already, then drive.
pub open spec fn queue_through(gap: GapDecision) -> DriveQueue {
    let drive = DriveAction::DriveDistance {
        kind: DriveDistanceKind::Straight { distance_um: gap.drive_distance_um },
        direction: DriveDirection::Forward,
        speed: DRIVE_SPEED,
    };
    if gap.rotation_udeg > MIN_ROTATION_UDEG {
        DriveQueue {
            first: DriveAction::RotateExact {
                rotation_udeg: gap.rotation_udeg,
                towards: if gap.clockwise {
                    RotationDirection::Clockwise
                } else {
                    RotationDirection::CounterClockwise
                },
                speed: TURN_SPEED,
            },
            second: Some(drive),
        }
    } else {
        DriveQueue { first: drive, second: None }
    }
}

/// Build the queue through a gap.
pub fn build_queue(gap: GapDecision) -> (queue: DriveQueue)
    ensures
        queue == queue_through(gap),
{
    let drive = DriveAction::DriveDistance {
        kind: DriveDistanceKind::Straight { distance_um: gap.drive_distance_um },
        direction: DriveDirection::Forward,
        speed: DRIVE_SPEED,
    };
    if gap.rotation_udeg > MIN_ROTATION_UDEG {
        let towards = if gap.clockwise {
            RotationDirection::Clockwise
        } else {
            RotationDirection::CounterClockwise
        };
        DriveQueue {
            first: DriveAction::RotateExact {
                rotation_udeg: gap.rotation_udeg,
                towards,
                speed: TURN_SPEED,
            },
            second: Some(drive),
        }
    } else {
        DriveQueue { first: drive, second: None }
    }
}

/// The progress of a leg in micrometres: the mean of both tracks' revolutions times
/// the sprocket's circumference, with the distance factor taken out again. A factor
/// that is not positive is left out. Rounded towards zero.
pub open spec fn leg_progress(
    left_urevs: i64,
    right_urevs: i64,
    circumference_um: u32,
    factor_ppm: i32,
) -> int {
    let scaled = (left_urevs + right_urevs) * circumference_um;
    let divisor = if factor_ppm > 0 {
        2 * factor_ppm
    } else {
        2_000_000
    };
    if scaled >= 0 {
        scaled / divisor
    } else {
        -((-scaled) / divisor)
    }
}

/// Compute the progress of a leg.
pub fn extract_progress_um(
    left_urevs: i64,
    right_urevs: i64,
    circumference_um: u32,
    factor_ppm: i32,
) -> (progress_um: i128)
    ensures
        progress_um == leg_progress(left_urevs, right_urevs, circumference_um, factor_ppm),
{
    let sum: i128 = left_urevs as i128 + right_urevs as i128;
    assert(-0x1_0000_0000_0000_0000 * 0xffff_ffff <= sum * circumference_um
        <= 0x1_0000_0000_0000_0000 * 0xffff_ffff) by (nonlinear_arith)
        requires
            -0x1_0000_0000_0000_0000 <= sum <= 0x1_0000_0000_0000_0000,
            0 <= circumference_um <= 0xffff_ffff,
    ;
    let scaled: i128 = sum * circumference_um as i128;
    let divisor: i128 = if factor_ppm > 0 {
        2 * factor_ppm as i128
    } else {
        2_000_000
    };
    if scaled >= 0 {
        scaled / divisor
    } else {
        -((-scaled) / divisor)
    }
}

/// A sum that stops at the type's bounds.
pub open spec fn saturated(sum: int) -> i128 {
    (if sum > i128::MAX {
        i128::MAX as int
    } else if sum < i128::MIN {
        i128::MIN as int
    } else {
        sum
    }) as i128
}

/// The heading once the robot faces a gap: the turn comes before the drive, and
/// clockwise counts up.
pub open spec fn turned(heading_udeg: i128, gap: GapDecision) -> i128 {
    saturated(
        if gap.clockwise {
            heading_udeg + gap.rotation_udeg
        } else {
            heading_udeg - gap.rotation_udeg
        },
    )
}

/// The heading after the leg a run is about to drive.
pub open spec fn heading_after_leg(run: AttemptRun) -> i128 {
    match run.state {
        State::Driving(gap) => turned(run.display.heading_udeg, gap),
        _ => run.display.heading_udeg,
    }
}

/// The target in micrometres.
pub open spec fn target_um(target_cm: u16) -> int {
    target_cm * 10_000
}

/// The distance still to go, in micrometres; negative once the target is passed.
pub open spec fn remaining(target_cm: u16, progress_um: i128) -> i128 {
    saturated(target_um(target_cm) - progress_um)
}

/// The mode as it runs.
#[derive(Debug, Clone, Copy, PartialEq, Eq)]
pub struct AttemptRun {
    /// What it is about to do.
    pub state: State,
    /// What the screen shows.
    pub display: ModeDisplayState,
}

/// The run with another label.
pub open spec fn labelled(run: AttemptRun, label: &'static str) -> AttemptRun {
    AttemptRun { display: ModeDisplayState { state_label: label, ..run.display }, ..run }
}

/// The run ends.
pub open spec fn finished(run: AttemptRun, label: &'static str) -> (AttemptRun, AttemptStep) {
    (AttemptRun { state: State::Over, ..labelled(run, label) }, AttemptStep::Finish(label))
}

/// The run after a look at whether it is still active.
pub open spec fn checked(run: AttemptRun, active: bool) -> (AttemptRun, AttemptStep) {
    if run.state is Over {
        (run, AttemptStep::Finish(run.display.state_label))
    } else if !active {
        finished(run, "Aborted")
    } else {
        match run.state {
            State::Analyzing => (labelled(run, "Analyzing..."), AttemptStep::Analyze),
            State::Driving(gap) => (
                labelled(run, "Driving..."),
                AttemptStep::Drive(queue_through(gap)),
            ),
            State::FinishedReached => finished(run, "Target reached"),
            State::FinishedBlocked => finished(run, "Blocked - finished"),
            State::Over => (run, AttemptStep::CheckActive),
        }
    }
}

/// What the mode does about a cloud: without one, or without a gap, it is blocked.
pub open spec fn analyzed(run: AttemptRun, slots: Option<Seq<Option<u32>>>) -> State {
    match slots {
        None => State::FinishedBlocked,
        Some(slots) => match gap_analysis::decided(
            slots,
            remaining(run.display.target_cm, run.display.progress_um) as int,
        ) {
            None => State::FinishedBlocked,
            Some(gap) => State::Driving(gap),
        },
    }
}

/// The run after a drive.
pub open spec fn driven(run: AttemptRun, report: DriveReport, active: bool) -> (
    AttemptRun,
    AttemptStep,
) {
    match report {
        DriveReport::QueueFull => finished(run, "Error: queue full"),
        DriveReport::QueueBusy => finished(run, "Error: queue busy"),
        DriveReport::Driven { progress_um, offset_um } => {
            let total = saturated(run.display.progress_um + progress_um);
            let moved = AttemptRun {
                display: ModeDisplayState {
                    progress_um: total,
                    heading_udeg: heading_after_leg(run),
                    offset_um,
                    ..run.display
                },
                ..run
            };
            if !active {
                finished(moved, "Aborted")
            } else {
                (
                    AttemptRun {
                        state: if total >= target_um(run.display.target_cm) {
                            State::FinishedReached
                        } else {
                            State::Analyzing
                        },
                        ..moved
                    },
                    AttemptStep::CheckActive,
                )
            }
        },
    }
}

impl AttemptRun {
    /// Begin a run. The robot brakes first.
    pub fn begin(target_cm: u16) -> (run: Self)
        ensures
            run == (AttemptRun {
                state: State::Analyzing,
                display: ModeDisplayState {
                    progress_um: 0,
                    target_cm,
                    heading_udeg: 0,
                    offset_um: 0,
                    state_label: "Starting...",
                },
            }),
    {
        AttemptRun {
            state: State::Analyzing,
            display: ModeDisplayState {
                progress_um: 0,
                target_cm,
                heading_udeg: 0,
                offset_um: 0,
                state_label: "Starting...",
            },
        }
    }

    /// Learn whether the mode is still active.
    pub fn on_check(&mut self, active: bool) -> (step: AttemptStep)
        ensures
            (*final(self), step) == checked(*old(self), active),
    {
        match self.state {
            State::Over => {
                return AttemptStep::Finish(self.display.state_label);
            },
            _ => {},
        }
        if !active {
            return self.finish("Aborted");
        }
        match self.state {
            State::Analyzing => {
                self.display.state_label = "Analyzing...";
                AttemptStep::Analyze
            },
            State::Driving(gap) => {
                self.display.state_label = "Driving...";
                AttemptStep::Drive(build_queue(gap))
            },
            State::FinishedReached => self.finish("Target reached"),
            State::FinishedBlocked => self.finish("Blocked - finished"),
            State::Over => AttemptStep::CheckActive,
        }
    }

    /// Take the latest cloud, if there is one.
    pub fn on_cloud(&mut self, cloud: Option<&Cloud>) -> (step: AttemptStep)
        ensures
            *final(self) == (AttemptRun {
                state: analyzed(
                    *old(self),
                    match cloud {
                        None => None,
                        Some(cloud) => Some(cloud@),
                    },
                ),
                ..*old(self)
            }),
            step == AttemptStep::CheckActive,
    {
        let left = self.remaining();
        self.state =
        match cloud {
            None => State::FinishedBlocked,
            Some(cloud) => match gap_analysis::analyze_gaps(cloud, left) {
                None => State::FinishedBlocked,
                Some(gap) => State::Driving(gap),
            },
        };
        AttemptStep::CheckActive
    }

    /// The distance still to go, in micrometres.
    pub fn remaining(&self) -> (left_um: i128)
        ensures
            left_um == remaining(self.display.target_cm, self.display.progress_um),
    {
        let target: i128 = self.display.target_cm as i128 * 10_000;
        match target.checked_sub(self.display.progress_um) {
            Some(left_um) => left_um,
            None => i128::MAX,
        }
    }

    /// The heading after the leg the run is about to drive, in microdegrees.
    pub fn heading_after(&self) -> (heading_udeg: i128)
        ensures
            heading_udeg == heading_after_leg(*self),
    {
        match self.state {
            State::Driving(gap) => {
                let rotation: i128 = gap.rotation_udeg as i128;
                if gap.clockwise {
                    match self.display.heading_udeg.checked_add(rotation) {
                        Some(heading) => heading,
                        None => i128::MAX,
                    }
                } else {
                    match self.display.heading_udeg.checked_sub(rotation) {
                        Some(heading) => heading,
                        None => i128::MIN,
                    }
                }
            },
            _ => self.display.heading_udeg,
        }
    }

    /// Learn how a drive went and whether the mode is still active.
    pub fn on_drive(&mut self, report: DriveReport, active: bool) -> (step: AttemptStep)
        ensures
            (*final(self), step) == driven(*old(self), report, active),
    {
        match report {
            DriveReport::QueueFull => self.finish("Error: queue full"),
            DriveReport::QueueBusy => self.finish("Error: queue busy"),
            DriveReport::Driven { progress_um, offset_um } => {
                let heading = self.heading_after();
                let total: i128 = match self.display.progress_um.checked_add(progress_um) {
                    Some(total) => total,
                    None => if progress_um > 0 {
                        i128::MAX
                    } else {
                        i128::MIN
                    },
                };
                self.display.progress_um = total;
                self.display.heading_udeg = heading;
                self.display.offset_um = offset_um;
                if !active {
                    return self.finish("Aborted");
                }
                self.state = if total >= self.display.target_cm as i128 * 10_000 {
                    State::FinishedReached
                } else {
                    State::Analyzing
                };
                AttemptStep::CheckActive
            },
        }
    }

    /// End the run.
    fn finish(&mut self, label: &'static str) -> (step: AttemptStep)
        ensures
            (*final(self), step) == finished(*old(self), label),
    {
        self.display.state_label = label;
        self.state = State::Over;
        AttemptStep::Finish(label)
    }
}

/// The mode never drives past its target as planned: a leg it plans is at most what is
/// left, and none once the target is reached.
pub proof fn law_legs_stay_within_the_target(run: AttemptRun, slots: Seq<Option<u32>>)
    ensures
        analyzed(run, Some(slots)) matches State::Driving(gap) ==> {
            let left = remaining(run.display.target_cm, run.display.progress_um);
            &&& left >= 0 ==> gap.drive_distance_um <= left
            &&& left <= 0 ==> gap.drive_distance_um == 0
        },
{
    gap_laws::law_decision_is_safe(
        slots,
        remaining(run.display.target_cm, run.display.progress_um) as int,
    );
}

/// The mode reports its target reached exactly when its progress covers it.
pub proof fn law_reached_means_covered(run: AttemptRun, report: DriveReport)
    requires
        report is Driven,
    ensures
        driven(run, report, true).0.state is FinishedReached <==> driven(
            run,
            report,
            true,
        ).0.display.progress_um >= target_um(run.display.target_cm),
{
}

/// Turning to a gap and turning back leaves the heading as it was.
pub proof fn law_turning_back_restores_the_heading(heading_udeg: i128, gap: GapDecision)
    requires
        i128::MIN + gap.rotation_udeg <= heading_udeg <= i128::MAX - gap.rotation_udeg,
    ensures
        turned(
            turned(heading_udeg, gap),
            GapDecision { clockwise: !gap.clockwise, ..gap },
        ) == heading_udeg,
{
}

/// The distance factor taken out again gives back the commanded distance: a leg of so
/// many revolutions at a factor of one measures them times the circumference.
pub proof fn law_unit_factor_measures_revolutions(urevs: i64, circumference_um: u32)
    requires
        urevs >= 0,
    ensures
        leg_progress(urevs, urevs, circumference_um, 1_000_000) == urevs * circumference_um
            / 1_000_000,
{
    let product = urevs * circumference_um;
    assert((urevs + urevs) * circumference_um == 2 * product) by (nonlinear_arith)
        requires
            product == urevs * circumference_um,
    ;
    assert(product >= 0) by (nonlinear_arith)
        requires
            product == urevs * circumference_um,
            urevs >= 0,
            circumference_um >= 0,
    ;
    assert(2 * product / 2_000_000 == product / 1_000_000);
}

/// How far a queue turns the robot, in microdegrees; clockwise counts up.
pub open spec fn queue_rotation(queue: DriveQueue) -> int {
    match queue.first {
        DriveAction::RotateExact { rotation_udeg, towards: RotationDirection::Clockwise, .. } => {
            rotation_udeg as int
        },
        DriveAction::RotateExact { rotation_udeg, .. } => -(rotation_udeg as int),
        _ => 0,
    }
}

/// How far a queue drives the robot ahead, in micrometres.
pub open spec fn queue_advance(queue: DriveQueue) -> int {
    let last = match queue.second {
        Some(second) => second,
        None => queue.first,
    };
    match last {
        DriveAction::DriveDistance {
            kind: DriveDistanceKind::Straight { distance_um },
            direction: DriveDirection::Forward,
            ..
        } => distance_um as int,
        _ => -1,
    }
}

/// A planned queue turns the robot the way the gap lies and then drives the leg straight
/// ahead: it is clockwise exactly when the decision is, by the whole rotation. A rotation
/// of a degree or less is not made.
pub proof fn law_queue_turns_towards_the_gap(gap: GapDecision)
    ensures
        ({
            let queue = queue_through(gap);
            &&& queue_advance(queue) == gap.drive_distance_um
            &&& queue.second matches Some(second) ==> second matches DriveAction::DriveDistance {
                speed,
                ..
            } && speed == 70
            &&& queue.first matches DriveAction::DriveDistance { speed, .. } ==> speed == 70
            &&& queue.first matches DriveAction::RotateExact { speed, .. } ==> speed == 60
            &&& gap.rotation_udeg > 1_000_000 ==> {
                &&& queue.first is RotateExact && queue.second is Some
                &&& gap.clockwise ==> queue_rotation(queue) == gap.rotation_udeg
                &&& !gap.clockwise ==> queue_rotation(queue) == -gap.rotation_udeg
            }
            &&& gap.rotation_udeg <= 1_000_000 ==> queue_rotation(queue) == 0 && queue.first
                is DriveDistance && queue.second is None
        }),
{
}

/// The recorded heading follows the robot: a leg changes it by the rotation its queue
/// makes, or by the degree or less that was not worth making. Clockwise counts up.
pub proof fn law_heading_follows_the_queue(run: AttemptRun, gap: GapDecision)
    requires
        run.state == State::Driving(gap),
        i128::MIN + gap.rotation_udeg <= run.display.heading_udeg <= i128::MAX - gap.rotation_udeg,
    ensures
        ({
            let change = heading_after_leg(run) - run.display.heading_udeg;
            let rotation = queue_rotation(queue_through(gap));
            &&& rotation != 0 ==> change == rotation
            &&& rotation == 0 ==> -1_000_000 <= change <= 1_000_000
            &&& gap.clockwise ==> change == gap.rotation_udeg
            &&& !gap.clockwise ==> change == -gap.rotation_udeg
        }),
{
}

/// A leg points the robot at the gap: the rotation that the queue for a decision makes
/// ends at the gap's centre, bearings counting counter-clockwise from dead ahead, or
/// within a degree of it.
pub proof fn law_leg_points_at_the_gap(slots: Seq<Option<u32>>, remaining_um: int)
    ensures
        gap_analysis::decided(slots, remaining_um) matches Some(gap) ==> {
            let facing = (-queue_rotation(queue_through(gap))) % 360_000_000;
            let off = (gap.gap_center_udeg - facing) % 360_000_000;
            off <= 1_000_000 || off >= 359_000_000
        },
{
    gap_laws::law_decision_faces_the_gap(slots, remaining_um);
}

/// A leg's progress is the mean of both tracks times the circumference, divided by the
/// distance factor, whole micrometres towards zero; a factor that is not positive counts as
/// one. Exchanging the tracks changes nothing, and driving back undoes driving on.
pub proof fn law_progress_divides_out_the_factor(
    left_urevs: i64,
    right_urevs: i64,
    circumference_um: u32,
    factor_ppm: i32,
)
    requires
        left_urevs > i64::MIN,
        right_urevs > i64::MIN,
    ensures
        ({
            let progress = leg_progress(left_urevs, right_urevs, circumference_um, factor_ppm);
            let total = (left_urevs + right_urevs) * circumference_um;
            let factor = if factor_ppm > 0 {
                factor_ppm as int
            } else {
                1_000_000
            };
            &&& total >= 0 ==> progress >= 0 && 2 * factor * progress <= total < 2 * factor * (
            progress + 1)
            &&& leg_progress(right_urevs, left_urevs, circumference_um, factor_ppm) == progress
            &&& leg_progress(
                (-left_urevs) as i64,
                (-right_urevs) as i64,
                circumference_um,
                factor_ppm,
            ) == -progress
        }),
{
    let total = (left_urevs + right_urevs) * circumference_um;
    let divisor = if factor_ppm > 0 {
        2 * factor_ppm
    } else {
        2_000_000
    };
    assert((-left_urevs + -right_urevs) * circumference_um == -total) by (nonlinear_arith)
        requires
            total == (left_urevs + right_urevs) * circumference_um,
    ;
    if total >= 0 {
        let progress = total / divisor;
        vstd::arithmetic::div_mod::lemma_fundamental_div_mod(total, divisor);
        vstd::arithmetic::div_mod::lemma_mod_bound(total, divisor);
        vstd::arithmetic::div_mod::lemma_div_pos_is_pos(total, divisor);
        assert(divisor * (progress + 1) == divisor * progress + divisor) by (nonlinear_arith);
    }
    assert(0int / divisor == 0) by (nonlinear_arith)
        requires
            divisor > 0,
    ;
}

/// What is left and what is done make up the target.
pub proof fn law_remaining_completes_the_target(target_cm: u16, progress_um: i128)
    requires
        progress_um >= -0x1000_0000_0000_0000_0000_0000_0000_0000,
    ensures
        remaining(target_cm, progress_um) + progress_um == target_cm * 10_000,
{
}

/// A run drives only what it decided, and only while it is active: asked to go on, it
/// drives the queue through its gap, looks for one, or ends and says why; a run that is no
/// longer active ends. Looking changes nothing but the label and, at the end, the state.
pub proof fn law_run_moves_only_through_its_gap(run: AttemptRun, active: bool)
    ensures
        ({
            let (after, step) = checked(run, active);
            &&& step is Drive <==> active && run.state is Driving
            &&& step is Analyze <==> active && run.state is Analyzing
            &&& step matches AttemptStep::Drive(queue) ==> run.state matches State::Driving(gap)
                && queue == queue_through(gap) && after.state == run.state
            &&& step is Analyze ==> after.state == run.state
            &&& step is Finish <==> !active || !(run.state is Driving || run.state is Analyzing)
            &&& step is Finish ==> after.state is Over
            &&& !active && run.state !is Over ==> step == AttemptStep::Finish("Aborted")
            &&& active && run.state is FinishedReached ==> step == AttemptStep::Finish(
                "Target reached",
            )
            &&& active && run.state is FinishedBlocked ==> step == AttemptStep::Finish(
                "Blocked - finished",
            )
            &&& step matches AttemptStep::Finish(label) ==> after.display.state_label == label
            &&& run.state is Over ==> after == run
            &&& after.display.progress_um == run.display.progress_um
            &&& after.display.heading_udeg == run.display.heading_udeg
            &&& after.display.offset_um == run.display.offset_um
            &&& after.display.target_cm == run.display.target_cm
        }),
{
}

/// A leg adds up: its progress joins the progress so far, its offset and heading replace
/// the old ones, and the run ends reached exactly where the sum is the target or more. A
/// leg that could not be driven ends the run and moves nothing.
pub proof fn law_legs_add_up(run: AttemptRun, progress_um: i128, offset_um: u64, active: bool)
    requires
        i128::MIN <= run.display.progress_um + progress_um <= i128::MAX,
    ensures
        ({
            let (after, step) = driven(
                run,
                DriveReport::Driven { progress_um, offset_um },
                active,
            );
            let total = run.display.progress_um + progress_um;
            &&& after.display.progress_um == total
            &&& after.display.offset_um == offset_um
            &&& after.display.heading_udeg == heading_after_leg(run)
            &&& after.display.target_cm == run.display.target_cm
            &&& !active ==> step == AttemptStep::Finish("Aborted") && after.state is Over
            &&& active ==> step is CheckActive && (after.state is FinishedReached <==> total
                >= run.display.target_cm * 10_000) && (after.state is Analyzing <==> total
                < run.display.target_cm * 10_000)
            &&& driven(run, DriveReport::QueueFull, active).1 == AttemptStep::Finish(
                "Error: queue full",
            )
            &&& driven(run, DriveReport::QueueBusy, active).1 == AttemptStep::Finish(
                "Error: queue busy",
            )
            &&& driven(run, DriveReport::QueueFull, active).0.display.progress_um
                == run.display.progress_um
            &&& driven(run, DriveReport::QueueBusy, active).0.display.progress_um
                == run.display.progress_um
        }),
{
}

/// A run plans with what is left of its target: it is blocked without a cloud or a gap,
/// and otherwise drives the decision for the distance still to go.
pub proof fn law_run_plans_with_what_is_left(run: AttemptRun, slots: Seq<Option<u32>>)
    requires
        run.display.progress_um >= -0x1000_0000_0000_0000_0000_0000_0000_0000,
    ensures
        ({
            let left = run.display.target_cm * 10_000 - run.display.progress_um;
            &&& analyzed(run, None) is FinishedBlocked
            &&& analyzed(run, Some(slots)) is FinishedBlocked <==> gap_analysis::decided(
                slots,
                left,
            ) is None
            &&& analyzed(run, Some(slots)) matches State::Driving(gap)
                ==> gap_analysis::decided(slots, left) == Some(gap)
            &&& analyzed(run, Some(slots)) is Driving || analyzed(run, Some(slots))
                is FinishedBlocked
        }),
{
}

/// Whatever queue is built for a gap turns the robot towards it: clockwise where the gap
/// lies to the right and the other way where it lies to the left, and then straight ahead
/// for the leg.
pub proof fn law_built_queue_turns_towards_the_gap(gap: GapDecision, queue: DriveQueue)
    requires
        call_ensures(build_queue, (gap,), queue),
    ensures
        queue_advance(queue) == gap.drive_distance_um,
        gap.rotation_udeg > 1_000_000 && gap.clockwise ==> queue_rotation(queue)
            == gap.rotation_udeg,
        gap.rotation_udeg > 1_000_000 && !gap.clockwise ==> queue_rotation(queue)
            == -gap.rotation_udeg,
        gap.rotation_udeg <= 1_000_000 ==> queue_rotation(queue) == 0 && queue.second is None,
{
    law_queue_turns_towards_the_gap(gap);
}

/// A run that goes on through a gap turns towards it and drives its leg.
pub proof fn law_run_turns_towards_its_gap(
    run: &mut AttemptRun,
    gap: GapDecision,
    step: AttemptStep,
)
    requires
        old(run).state == State::Driving(gap),
        call_ensures(AttemptRun::on_check, (run, true), step),
    ensures
        step matches AttemptStep::Drive(queue) && {
            &&& queue_advance(queue) == gap.drive_distance_um
            &&& gap.rotation_udeg > 1_000_000 ==> queue_rotation(queue) == (if gap.clockwise {
                gap.rotation_udeg as int
            } else {
                -gap.rotation_udeg
            })
        },
{
    law_queue_turns_towards_the_gap(gap);
}

/// A leg moves the heading by the rotation the gap asked for and the progress by what was
/// driven, and the run has reached its target exactly where the sum says so.
pub proof fn law_driven_leg_moves_the_run(
    run: &mut AttemptRun,
    gap: GapDecision,
    progress_um: i128,
    offset_um: u64,
    step: AttemptStep,
)
    requires
        old(run).state == State::Driving(gap),
        -0x1000_0000 <= old(run).display.heading_udeg <= 0x1000_0000,
        i128::MIN <= old(run).display.progress_um + progress_um <= i128::MAX,
        call_ensures(
            AttemptRun::on_drive,
            (run, DriveReport::Driven { progress_um, offset_um }, true),
            step,
        ),
    ensures
        gap.clockwise ==> final(run).display.heading_udeg == old(run).display.heading_udeg
            + gap.rotation_udeg,
        !gap.clockwise ==> final(run).display.heading_udeg == old(run).display.heading_udeg
            - gap.rotation_udeg,
        final(run).display.progress_um == old(run).display.progress_um + progress_um,
        final(run).display.offset_um == offset_um,
        final(run).state is FinishedReached <==> final(run).display.progress_um
            >= final(run).display.target_cm * 10_000,
{
}

/// The targets that can be asked for go from one to ten metres in steps of ten
/// centimetres, three metres at first.
pub proof fn law_targets_to_choose_from(least: u16, most: u16, step: u16, first: u16)
    requires
        call_ensures(target_min_cm, (), least),
        call_ensures(target_max_cm, (), most),
        call_ensures(target_step_cm, (), step),
        call_ensures(target_preset_cm, (), first),
    ensures
        least == 100,
        most == 1_000,
        step == 10,
        first == 300,
{
}

} // verus!
