//! Distance calibration: the fixed-distance drive and its factor.
//!
//! The factor in force is backed up and one is forced, so the commanded distance is
//! nominal. The robot drives it, the operator enters what it measured, and that gives
//! the new factor; a run that produced nothing restores the old one.
//!
//! Zero is a legitimate measurement: it gives the strongest correction there is.

use vstd::prelude::*;

use crate::system::state::activity;
use crate::system::state::{CalibrationState, CalibrationStatus};
use crate::task::dialogue::{Action, Answer, Ask, DriveQueue, Turn};
use crate::task::drive::{CompletionStatus, DriveAction, DriveDirection, DriveDistanceKind};
use crate::task::motor_driver::UNIT_FACTOR_PPM;

verus! {

/// Distance the calibration drives, in centimetres.
pub const DRIVE_DISTANCE_CM: u32 = 150;

/// Speed the calibration drives at.
pub const DRIVE_SPEED: u8 = 70;

/// Countdown before the drive, in seconds.
pub const COUNTDOWN_SECONDS: usize = 3;

/// Settle time after the brake, in milliseconds.
pub const SETTLE_MS: u64 = 500;

/// Smallest valid distance factor, in parts per million.
pub const MIN_FACTOR_PPM: i32 = 100_000;

/// Largest valid distance factor, in parts per million.
pub const MAX_FACTOR_PPM: i32 = 10_000_000;

/// What the drive step did.
#[derive(Debug, Clone, Copy, PartialEq, Eq, Structural)]
pub enum DriveOutcome {
    /// The drive finished; the operator now measures and enters the distance.
    Complete,
    /// The operator stopped the drive; the previous factor was restored.
    Stopped,
    /// The drive could not run; the reason is on the running screen.
    Failed,
}

/// The factor a measured distance gives, in parts per million: commanded over
/// measured, rounded to the nearest and held to the valid range.
pub open spec fn factor_for(measured_cm: i32) -> int {
    if measured_cm < 0 {
        MIN_FACTOR_PPM as int
    } else if measured_cm == 0 {
        MAX_FACTOR_PPM as int
    } else {
        let factor = (2 * (DRIVE_DISTANCE_CM * UNIT_FACTOR_PPM) + measured_cm) / (2 * measured_cm);
        if factor < MIN_FACTOR_PPM {
            MIN_FACTOR_PPM as int
        } else if factor > MAX_FACTOR_PPM {
            MAX_FACTOR_PPM as int
        } else {
            factor
        }
    }
}

/// The state with another distance factor in force.
pub open spec fn with_factor(state: CalibrationState, factor_ppm: i32) -> CalibrationState {
    CalibrationState {
        distance_factor_ppm: factor_ppm,
        distance_cal_status: CalibrationStatus::Loaded,
        ..state
    }
}

/// Compute the factor of a measured distance.
pub fn factor(measured_cm: i32) -> (factor_ppm: i32)
    ensures
        factor_ppm == factor_for(measured_cm),
        MIN_FACTOR_PPM <= factor_ppm <= MAX_FACTOR_PPM,
{
    if measured_cm < 0 {
        return MIN_FACTOR_PPM;
    }
    if measured_cm == 0 {
        return MAX_FACTOR_PPM;
    }
    let numerator: i64 = 300_000_000 + measured_cm as i64;
    let factor: i64 = numerator / (2 * measured_cm as i64);
    if factor < MIN_FACTOR_PPM as i64 {
        MIN_FACTOR_PPM
    } else if factor > MAX_FACTOR_PPM as i64 {
        MAX_FACTOR_PPM
    } else {
        factor as i32
    }
}

/// The factor that was in force before the calibration began.
#[derive(Debug)]
pub struct DistanceCalibration {
    previous_ppm: Option<i32>,
}

impl DistanceCalibration {
    /// The backed-up factor, if a calibration is in flight.
    pub closed spec fn view(&self) -> Option<i32> {
        self.previous_ppm
    }

    /// No calibration in flight.
    pub fn new() -> (calibration: Self)
        ensures
            calibration@ is None,
    {
        DistanceCalibration { previous_ppm: None }
    }

    /// Back up the factor in force and force one for the drive.
    pub fn begin(&mut self, state: &mut CalibrationState)
        ensures
            final(self)@ == Some(old(state).distance_factor_ppm),
            *final(state) == (if old(state).distance_factor_ppm == UNIT_FACTOR_PPM {
                *old(state)
            } else {
                with_factor(*old(state), UNIT_FACTOR_PPM)
            }),
    {
        let previous = state.distance_factor_ppm;
        self.previous_ppm = Some(previous);
        if previous != UNIT_FACTOR_PPM {
            state.distance_factor_ppm = UNIT_FACTOR_PPM;
            state.distance_cal_status = CalibrationStatus::Loaded;
        }
    }

    /// Put the factor of the measured distance in force and return it.
    pub fn commit(&mut self, state: &mut CalibrationState, measured_cm: i32) -> (factor_ppm: i32)
        ensures
            factor_ppm == factor_for(measured_cm),
            final(self)@ is None,
            *final(state) == with_factor(*old(state), factor_ppm),
    {
        let factor_ppm = factor(measured_cm);
        state.distance_factor_ppm = factor_ppm;
        state.distance_cal_status = CalibrationStatus::Loaded;
        self.previous_ppm = None;
        factor_ppm
    }

    /// Restore the factor that was in force before the run, if one is in flight.
    pub fn abort(&mut self, state: &mut CalibrationState)
        ensures
            final(self)@ is None,
            *final(state) == (match old(self)@ {
                None => *old(state),
                Some(previous) => with_factor(*old(state), previous),
            }),
    {
        if let Some(previous) = self.previous_ppm {
            state.distance_factor_ppm = previous;
            state.distance_cal_status = CalibrationStatus::Loaded;
        }
        self.previous_ppm = None;
    }
}

/// The calibration's queue: the fixed distance alone.
pub open spec fn drive_queue() -> DriveQueue {
    DriveQueue {
        first: DriveAction::DriveDistance {
            kind: DriveDistanceKind::Straight { distance_um: 1_500_000 },
            direction: DriveDirection::Forward,
            speed: DRIVE_SPEED,
        },
        second: None,
    }
}

/// Build the calibration's queue.
pub fn build_drive_queue() -> (queue: DriveQueue)
    ensures
        queue == drive_queue(),
{
    DriveQueue {
        first: DriveAction::DriveDistance {
            kind: DriveDistanceKind::Straight { distance_um: DRIVE_DISTANCE_CM * 10_000 },
            direction: DriveDirection::Forward,
            speed: DRIVE_SPEED,
        },
        second: None,
    }
}

/// Where the drive step stands: which question it has asked.
#[derive(Debug, Clone, Copy, PartialEq, Eq, Structural)]
pub enum At {
    /// Whether this second of the countdown was cut short.
    Countdown(usize),
    /// How the drive went.
    Drive,
    /// Whether the settling was cut short.
    Settle,
    /// Nothing; what the step did.
    Over(DriveOutcome),
}

/// A second of the countdown.
pub open spec fn counting(second: usize) -> (At, Seq<Action>, Ask) {
    (
        At::Countdown(second),
        seq![
            Action::Phase(
                "Get ready",
                Some(activity::percent_before(second, COUNTDOWN_SECONDS) as u8),
            ),
        ],
        Ask::WaitOrStop(1_000),
    )
}

/// The step ends after a stop: the factor is restored and the activity forgotten.
pub open spec fn stopped() -> (At, Seq<Action>, Ask) {
    (
        At::Over(DriveOutcome::Stopped),
        seq![Action::RestoreDistanceFactor, Action::Abandon],
        Ask::Over,
    )
}

/// The step ends without a drive that calibrates anything.
pub open spec fn failed(reason: &'static str) -> (At, Seq<Action>, Ask) {
    (At::Over(DriveOutcome::Failed), seq![Action::Fail(reason)], Ask::Over)
}

/// What follows an answer. An answer to another question counts as a stop.
pub open spec fn next(at: At, answer: Answer) -> (At, Seq<Action>, Ask) {
    match (at, answer) {
        (At::Countdown(second), Answer::Yes(false)) => if second + 1 < COUNTDOWN_SECONDS {
            counting((second + 1) as usize)
        } else {
            (At::Drive, seq![Action::Phase("Driving 150 cm", None)], Ask::Submit(drive_queue()))
        },
        (At::Drive, Answer::Refused(reason)) => failed(reason),
        (At::Drive, Answer::Driven(CompletionStatus::Failed(reason))) => failed(reason),
        (At::Drive, Answer::Driven(CompletionStatus::Success)) => (
            At::Settle,
            seq![Action::Drive(DriveAction::Brake)],
            Ask::WaitOrStop(SETTLE_MS),
        ),
        (At::Settle, Answer::Yes(false)) => (
            At::Over(DriveOutcome::Complete),
            seq![Action::Phase("Enter measured distance", None)],
            Ask::Over,
        ),
        (At::Over(_), _) => (at, Seq::empty(), Ask::Over),
        _ => stopped(),
    }
}

/// One run of the drive step.
#[derive(Debug)]
pub struct DriveStepRun {
    at: At,
}

impl DriveStepRun {
    /// Where it stands.
    pub closed spec fn view(&self) -> At {
        self.at
    }

    /// Begin: the run and its first turn.
    pub fn begin() -> (begun: (Self, Turn))
        ensures
            begun.0@ == counting(0).0,
            begun.1@ == (counting(0).1, counting(0).2),
    {
        let mut run = DriveStepRun { at: At::Countdown(0) };
        let turn = run.count(0);
        (run, turn)
    }

    /// Ask for one second of the countdown.
    fn count(&mut self, second: usize) -> (turn: Turn)
        ensures
            final(self)@ == counting(second).0,
            turn@ == (counting(second).1, counting(second).2),
    {
        self.at = At::Countdown(second);
        let percent = activity::percent_done(second, COUNTDOWN_SECONDS);
        let actions = vec![Action::Phase("Get ready", Some(percent))];
        assert(actions@ =~= counting(second).1);
        Turn::new(actions, Ask::WaitOrStop(1_000))
    }

    /// What the step did, once it is over.
    pub fn outcome(&self) -> (outcome: Option<DriveOutcome>)
        ensures
            outcome == (match self@ {
                At::Over(outcome) => Some(outcome),
                _ => None,
            }),
    {
        match self.at {
            At::Over(outcome) => Some(outcome),
            _ => None,
        }
    }

    /// Take the answer to the last question.
    pub fn answer(&mut self, answer: Answer) -> (turn: Turn)
        ensures
            ({
                let (at, actions, ask) = next(old(self)@, answer);
                final(self)@ == at && turn@ == (actions, ask)
            }),
    {
        match (self.at, answer) {
            (At::Countdown(second), Answer::Yes(false)) => {
                if second < COUNTDOWN_SECONDS - 1 {
                    self.count(second + 1)
                } else {
                    self.at = At::Drive;
                    let actions = vec![Action::Phase("Driving 150 cm", None)];
                    assert(actions@ =~= seq![Action::Phase("Driving 150 cm", None)]);
                    Turn::new(actions, Ask::Submit(build_drive_queue()))
                }
            },
            (At::Drive, Answer::Refused(reason)) => self.fail(reason),
            (At::Drive, Answer::Driven(CompletionStatus::Failed(reason))) => self.fail(reason),
            (At::Drive, Answer::Driven(CompletionStatus::Success)) => {
                self.at = At::Settle;
                let actions = vec![Action::Drive(DriveAction::Brake)];
                assert(actions@ =~= seq![Action::Drive(DriveAction::Brake)]);
                Turn::new(actions, Ask::WaitOrStop(SETTLE_MS))
            },
            (At::Settle, Answer::Yes(false)) => {
                self.at = At::Over(DriveOutcome::Complete);
                let actions = vec![Action::Phase("Enter measured distance", None)];
                assert(actions@ =~= seq![Action::Phase("Enter measured distance", None)]);
                Turn::new(actions, Ask::Over)
            },
            (At::Over(_), _) => Turn::asking(Ask::Over),
            _ => {
                self.at = At::Over(DriveOutcome::Stopped);
                let actions = vec![Action::RestoreDistanceFactor, Action::Abandon];
                assert(actions@ =~= stopped().1);
                Turn::new(actions, Ask::Over)
            },
        }
    }

    /// End the step with a failure.
    fn fail(&mut self, reason: &'static str) -> (turn: Turn)
        ensures
            final(self)@ == failed(reason).0,
            turn@ == (failed(reason).1, failed(reason).2),
    {
        self.at = At::Over(DriveOutcome::Failed);
        let actions = vec![Action::Fail(reason)];
        assert(actions@ =~= seq![Action::Fail(reason)]);
        Turn::new(actions, Ask::Over)
    }
}

/// Zero measured gives the strongest correction, the commanded distance itself gives
/// none, and a longer measurement never gives a larger factor.
pub proof fn law_longer_means_smaller(shorter: i32, longer: i32)
    requires
        0 <= shorter <= longer,
    ensures
        factor_for(0) == MAX_FACTOR_PPM,
        factor_for(DRIVE_DISTANCE_CM as i32) == UNIT_FACTOR_PPM,
        factor_for(longer) <= factor_for(shorter),
        MIN_FACTOR_PPM <= factor_for(longer),
{
    assert(DRIVE_DISTANCE_CM * UNIT_FACTOR_PPM == 150_000_000);
    assert((2 * 150_000_000 + 150int) / (2 * 150int) == 1_000_000);
    if shorter > 0 {
        let total = 2 * (DRIVE_DISTANCE_CM * UNIT_FACTOR_PPM);
        assert((total + longer) / (2 * longer) <= (total + shorter) / (2 * shorter)) by {
            let a = total + longer;
            let b = total + shorter;
            let q = a / (2 * longer);
            vstd::arithmetic::div_mod::lemma_fundamental_div_mod(a, 2 * longer);
            assert(2 * longer * q <= a);
            assert(2 * shorter * q <= b) by (nonlinear_arith)
                requires
                    2 * longer * q <= a,
                    a == total + longer,
                    b == total + shorter,
                    0 < shorter <= longer,
                    total >= 0,
            ;
            assert(q <= b / (2 * shorter)) by (nonlinear_arith)
                requires
                    2 * shorter * q <= b,
                    shorter > 0,
            ;
        }
    }
}

/// A calibration that produced nothing leaves the factor as it found it, whether the
/// drive was stopped or the value screen cancelled.
pub proof fn law_abort_restores_the_factor(state: CalibrationState)
    ensures
        ({
            let previous = state.distance_factor_ppm;
            let forced = with_factor(state, UNIT_FACTOR_PPM);
            &&& with_factor(forced, previous).distance_factor_ppm == state.distance_factor_ppm
            &&& with_factor(state, previous).distance_factor_ppm == state.distance_factor_ppm
            &&& with_factor(with_factor(forced, previous), previous) == with_factor(state, previous)
        }),
{
}

/// Every stop of the drive step restores the factor.
pub proof fn law_stop_restores_the_factor(at: At, answer: Answer)
    requires
        at !is Over,
        next(at, answer).0 == At::Over(DriveOutcome::Stopped),
    ensures
        next(at, answer).1.contains(Action::RestoreDistanceFactor),
{
    assert(stopped().1[0] == Action::RestoreDistanceFactor);
}

/// The factor is what the measurement asks for: a hundred and fifty centimetres over the
/// measured distance to the nearest millionth, between a tenth and ten.
pub proof fn law_factor_is_commanded_over_measured(measured_cm: i32)
    ensures
        ({
            let factor = factor_for(measured_cm);
            &&& 100_000 <= factor <= 10_000_000
            &&& measured_cm < 0 ==> factor == 100_000
            &&& measured_cm == 0 ==> factor == 10_000_000
            &&& measured_cm > 0 && factor > 100_000 ==> (2 * factor - 1) * measured_cm
                <= 2 * 150_000_000
            &&& measured_cm > 0 && factor < 10_000_000 ==> 2 * 150_000_000 < (2 * factor + 1)
                * measured_cm
        }),
{
    assert(DRIVE_DISTANCE_CM * UNIT_FACTOR_PPM == 150_000_000);
    if measured_cm > 0 {
        let total = 2 * 150_000_000int;
        let raw = (total + measured_cm) / (2 * measured_cm);
        assert((2 * raw - 1) * measured_cm <= total < (2 * raw + 1) * measured_cm)
            by (nonlinear_arith)
            requires
                measured_cm > 0,
                raw == (total + measured_cm) / (2 * measured_cm),
        ;
        let factor = factor_for(measured_cm);
        if raw > factor {
            assert((2 * factor - 1) * measured_cm <= (2 * raw - 1) * measured_cm)
                by (nonlinear_arith)
                requires
                    raw > factor,
                    measured_cm > 0,
            ;
        }
        if raw < factor {
            assert((2 * raw + 1) * measured_cm <= (2 * factor + 1) * measured_cm)
                by (nonlinear_arith)
                requires
                    raw < factor,
                    measured_cm > 0,
            ;
        }
    }
}

/// The factor corrects the drive: times the measured distance it is the commanded one, up
/// to the rounding, wherever the range lets it be.
pub proof fn law_factor_corrects_the_drive(measured_cm: i32)
    requires
        15 <= measured_cm <= 1_500,
    ensures
        -(measured_cm as int) <= 2 * (factor_for(measured_cm) * measured_cm - 150_000_000)
            <= measured_cm,
{
    law_factor_is_commanded_over_measured(measured_cm);
    let factor = factor_for(measured_cm);
    assert((2 * factor - 1) * measured_cm == 2 * (factor * measured_cm) - measured_cm)
        by (nonlinear_arith);
    assert((2 * factor + 1) * measured_cm == 2 * (factor * measured_cm) + measured_cm)
        by (nonlinear_arith);
    if factor == 100_000 {
        assert(100_000 * measured_cm <= 150_000_000);
    }
    if factor == 10_000_000 {
        assert(10_000_000 * measured_cm >= 150_000_000);
    }
}

/// The drive step runs its course: three seconds of countdown, one drive of a metre and a
/// half straight ahead, the brake, half a second of settling, and the operator's turn.
pub proof fn law_drive_step_runs_its_course(second: usize)
    requires
        second < 3,
    ensures
        ({
            let (at, actions, ask) = next(At::Countdown(second), Answer::Yes(false));
            &&& second < 2 ==> at == At::Countdown((second + 1) as usize) && ask
                == Ask::WaitOrStop(1_000)
            &&& second == 2 ==> at is Drive && (ask matches Ask::Submit(queue)
                && queue.second is None && queue.first == (DriveAction::DriveDistance {
                kind: DriveDistanceKind::Straight { distance_um: 1_500_000 },
                direction: DriveDirection::Forward,
                speed: 70,
            }))
        }),
        next(At::Drive, Answer::Driven(CompletionStatus::Success)) == (
            At::Settle,
            seq![Action::Drive(DriveAction::Brake)],
            Ask::WaitOrStop(500),
        ),
        next(At::Settle, Answer::Yes(false)).0 == At::Over(DriveOutcome::Complete),
        next(At::Settle, Answer::Yes(false)).2 == Ask::Over,
{
}

/// A drive that failed says why, and one that was cut short anywhere counts as stopped:
/// only those two and a completed one end the step.
pub proof fn law_drive_step_reports_its_end(at: At, answer: Answer, reason: &'static str)
    requires
        at !is Over,
    ensures
        next(At::Drive, Answer::Refused(reason)).0 == At::Over(DriveOutcome::Failed),
        next(At::Drive, Answer::Driven(CompletionStatus::Failed(reason))).0 == At::Over(
            DriveOutcome::Failed,
        ),
        next(At::Drive, Answer::Refused(reason)).1 == seq![Action::Fail(reason)],
        next(At::Drive, Answer::Driven(CompletionStatus::Failed(reason))).1 == seq![
            Action::Fail(reason),
        ],
        next(At::Drive, Answer::Driven(CompletionStatus::Cancelled)).0 == At::Over(
            DriveOutcome::Stopped,
        ),
        next(at, answer).2 == Ask::Over <==> next(at, answer).0 is Over,
        next(at, answer).0 == At::Over(DriveOutcome::Failed) ==> at is Drive,
        next(at, answer).0 == At::Over(DriveOutcome::Complete) ==> at is Settle && answer
            == Answer::Yes(false),
        !(at is Drive) && answer == Answer::Yes(true) ==> next(at, answer).0 == At::Over(
            DriveOutcome::Stopped,
        ),
        next(at, answer).0 == At::Over(DriveOutcome::Stopped) ==> next(at, answer).1 == seq![
            Action::RestoreDistanceFactor,
            Action::Abandon,
        ],
{
}

/// Putting a factor in force marks it as loaded and leaves the other calibrations alone.
pub proof fn law_factor_touches_nothing_else(state: CalibrationState, factor_ppm: i32)
    ensures
        ({
            let after = with_factor(state, factor_ppm);
            &&& after.distance_factor_ppm == factor_ppm
            &&& after.distance_cal_status is Loaded
            &&& after.motor_cal_status == state.motor_cal_status
            &&& after.mag_cal_status == state.mag_cal_status
        }),
{
}

/// A calibration drives at a factor of one, remembers the one in force before it, and puts
/// that back where it is broken off; where it is finished, the factor it computed is in
/// force and nothing is left to put back.
pub proof fn law_calibration_keeps_the_old_factor(
    beginning: &mut DistanceCalibration,
    driving: &mut CalibrationState,
    aborted: &mut DistanceCalibration,
    restored: &mut CalibrationState,
    committed: &mut DistanceCalibration,
    calibrated: &mut CalibrationState,
    measured_cm: i32,
    factor_ppm: i32,
)
    requires
        call_ensures(DistanceCalibration::begin, (beginning, driving), ()),
        call_ensures(DistanceCalibration::abort, (aborted, restored), ()),
        call_ensures(
            DistanceCalibration::commit,
            (committed, calibrated, measured_cm),
            factor_ppm,
        ),
    ensures
        final(driving).distance_factor_ppm == 1_000_000,
        final(beginning)@ == Some(old(driving).distance_factor_ppm),
        old(aborted)@ matches Some(previous) ==> final(restored).distance_factor_ppm == previous,
        old(aborted)@ is None ==> *final(restored) == *old(restored),
        final(aborted)@ is None,
        final(committed)@ is None,
        final(calibrated).distance_factor_ppm == factor_ppm,
        final(calibrated).distance_cal_status is Loaded,
        15 <= measured_cm <= 1_500 ==> -(measured_cm as int) <= 2 * (factor_ppm * measured_cm
            - 150_000_000) <= measured_cm,
        final(calibrated).motor_cal_status == old(calibrated).motor_cal_status,
{
    if 15 <= measured_cm <= 1_500 {
        law_factor_corrects_the_drive(measured_cm);
    }
}

/// A calibration that is broken off leaves the factor it found: what beginning it forced is
/// undone.
pub proof fn law_broken_off_calibration_changes_no_factor(
    begun: &mut DistanceCalibration,
    driving: &mut CalibrationState,
    aborted: &mut DistanceCalibration,
    restored: &mut CalibrationState,
)
    requires
        call_ensures(DistanceCalibration::begin, (begun, driving), ()),
        *old(aborted) == *final(begun),
        *old(restored) == *final(driving),
        call_ensures(DistanceCalibration::abort, (aborted, restored), ()),
    ensures
        final(restored).distance_factor_ppm == old(driving).distance_factor_ppm,
        final(restored).motor_cal_status == old(driving).motor_cal_status,
        final(restored).mag_cal_status == old(driving).mag_cal_status,
        final(aborted)@ is None,
{
}

} // verus!
