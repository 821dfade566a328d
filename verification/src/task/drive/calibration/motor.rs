//! Motor calibration: balance the two tracks.
//!
//! Each track runs alone at a fixed speed while its encoder pulses are counted. The
//! faster track is the reference and keeps a factor of one; the slower one gets the
//! factor that brings it to the reference. A factor beyond the range the motor driver
//! takes is applied and stored as far as the range goes.

use vstd::prelude::*;

use crate::system::state::activity;
use crate::task::dialogue::{Action, Answer, Ask, EncoderCommand, EncoderMeasurement, Turn};
use crate::task::io::flash_storage::CalibrationDataKind;
use crate::task::motor_driver;
use crate::task::motor_driver::{
    MotorCalibration, MotorCommand, Track, MAX_FACTOR_PPM, UNIT_FACTOR_PPM,
};

verus! {

/// Coast duration between the runs, in milliseconds.
pub const COAST_DURATION_MS: u64 = 500;

/// How long a track runs before it is sampled, in milliseconds.
pub const SAMPLE_DURATION_MS: u64 = 1_000;

/// How long to wait for a sample, in milliseconds.
pub const SAMPLE_TIMEOUT_MS: u64 = 500;

/// Speed of the track under calibration.
pub const SPEED: i8 = 60;

/// Steps the progress percent divides the procedure into.
pub const STEPS: usize = 4;

/// A track's factor in parts per million: the target pulses over its own. A track
/// without pulses keeps a factor of one.
pub open spec fn track_factor(target: u16, pulses: u16) -> int {
    if pulses == 0 {
        UNIT_FACTOR_PPM as int
    } else {
        target * UNIT_FACTOR_PPM / pulses as int
    }
}

/// The faster track's pulses.
pub open spec fn target_pulses(left: u16, right: u16) -> u16 {
    if left >= right {
        left
    } else {
        right
    }
}

/// The factors of both tracks, in parts per million.
#[derive(Debug, Clone, Copy, PartialEq, Eq, Structural)]
pub struct TrackFactors {
    /// Factor of the left track.
    pub left_ppm: i64,
    /// Factor of the right track.
    pub right_ppm: i64,
}

/// The factors of both tracks from their pulses, `None` where both are silent.
pub open spec fn balanced(left: u16, right: u16) -> Option<TrackFactors> {
    if left == 0 && right == 0 {
        None
    } else {
        let target = target_pulses(left, right);
        Some(
            TrackFactors {
                left_ppm: track_factor(target, left) as i64,
                right_ppm: track_factor(target, right) as i64,
            },
        )
    }
}

/// The factors as they are stored: within the range the motor driver takes.
pub open spec fn stored(factors: TrackFactors) -> MotorCalibration {
    MotorCalibration {
        left_factor_ppm: motor_driver::clamped_factor(factors.left_ppm as int),
        right_factor_ppm: motor_driver::clamped_factor(factors.right_ppm as int),
    }
}

/// Compute one track's factor.
fn factor_of(target: u16, pulses: u16) -> (factor_ppm: i64)
    ensures
        factor_ppm == track_factor(target, pulses),
{
    if pulses == 0 {
        return UNIT_FACTOR_PPM as i64;
    }
    let scaled: i64 = target as i64 * 1_000_000;
    scaled / pulses as i64
}

/// Compute the factors of both tracks.
pub fn balance(left: u16, right: u16) -> (factors: Option<TrackFactors>)
    ensures
        factors == balanced(left, right),
        left == 0 && right == 0 <==> factors is None,
        factors matches Some(factors) ==> {
            &&& factors.left_ppm == track_factor(target_pulses(left, right), left)
            &&& factors.right_ppm == track_factor(target_pulses(left, right), right)
        },
{
    if left == 0 && right == 0 {
        return None;
    }
    let target = if left >= right {
        left
    } else {
        right
    };
    Some(TrackFactors { left_ppm: factor_of(target, left), right_ppm: factor_of(target, right) })
}

/// A factor brings a track to the target: times the track's pulses it is the target, up
/// to the rounding of one millionth. A track at the target has a factor of one, and a
/// slower one has more than one.
proof fn lemma_factor_meets_the_target(target: u16, pulses: u16)
    requires
        target >= pulses > 0,
    ensures
        track_factor(target, pulses) * pulses <= target * UNIT_FACTOR_PPM,
        target * UNIT_FACTOR_PPM < (track_factor(target, pulses) + 1) * pulses,
        target == pulses ==> track_factor(target, pulses) == UNIT_FACTOR_PPM,
        target > pulses ==> track_factor(target, pulses) > UNIT_FACTOR_PPM,
{
    let scaled = target * 1_000_000;
    let own = pulses as int;
    let factor = scaled / own;
    vstd::arithmetic::div_mod::lemma_fundamental_div_mod(scaled, own);
    vstd::arithmetic::div_mod::lemma_mod_bound(scaled, own);
    assert(own * factor == factor * own) by (nonlinear_arith);
    assert((factor + 1) * own == factor * own + own) by (nonlinear_arith);
    if target == pulses {
        assert(factor == 1_000_000) by (nonlinear_arith)
            requires
                factor * own <= own * 1_000_000,
                own * 1_000_000 < (factor + 1) * own,
                own > 0,
        ;
    } else {
        assert(factor > 1_000_000) by (nonlinear_arith)
            requires
                target * 1_000_000 < (factor + 1) * own,
                target >= own + 1,
                0 < own <= 65_535,
        ;
    }
}

/// The factors balance the tracks: the faster one is the reference and keeps a factor
/// of one, the slower one is driven by more than one, and each track's pulses times its
/// factor are the faster track's pulses, up to the rounding of one millionth.
pub proof fn law_factors_balance_the_tracks(left: u16, right: u16)
    requires
        left > 0,
        right > 0,
    ensures
        balanced(left, right) matches Some(factors) && {
            let target = target_pulses(left, right) * UNIT_FACTOR_PPM;
            &&& left >= right ==> factors.left_ppm == UNIT_FACTOR_PPM
            &&& right >= left ==> factors.right_ppm == UNIT_FACTOR_PPM
            &&& left < right ==> factors.left_ppm > UNIT_FACTOR_PPM
            &&& right < left ==> factors.right_ppm > UNIT_FACTOR_PPM
            &&& factors.left_ppm * left <= target < (factors.left_ppm + 1) * left
            &&& factors.right_ppm * right <= target < (factors.right_ppm + 1) * right
        },
{
    let target = target_pulses(left, right);
    lemma_factor_meets_the_target(target, left);
    lemma_factor_meets_the_target(target, right);
    lemma_factor_fits(target, left);
    lemma_factor_fits(target, right);
}

/// A factor is no larger than the scaled target.
proof fn lemma_factor_fits(target: u16, pulses: u16)
    ensures
        0 <= track_factor(target, pulses) <= 65_535_000_000,
{
    if pulses > 0 {
        let scaled = target * 1_000_000;
        vstd::arithmetic::div_mod::lemma_div_nonincreasing(scaled, pulses as int);
        vstd::arithmetic::div_mod::lemma_div_pos_is_pos(scaled, pulses as int);
    }
}

/// Stored factors lie between one and the most the motor driver takes, and they are the
/// computed ones exactly where the faster track's pulses are at most one and a half times
/// the slower one's.
pub proof fn law_stored_factors_are_in_range(left: u16, right: u16)
    requires
        left > 0,
        right > 0,
    ensures
        balanced(left, right) matches Some(factors) && {
            let kept = stored(factors);
            &&& UNIT_FACTOR_PPM <= kept.left_factor_ppm <= MAX_FACTOR_PPM
            &&& UNIT_FACTOR_PPM <= kept.right_factor_ppm <= MAX_FACTOR_PPM
            &&& kept.left_factor_ppm == factors.left_ppm && kept.right_factor_ppm
                == factors.right_ppm <==> 2 * left <= 3 * right && 2 * right <= 3 * left
        },
{
    let target = target_pulses(left, right);
    lemma_stored_whole(target, left);
    lemma_stored_whole(target, right);
}

/// A track that counted pulses is calibrated: unless both are silent, the procedure
/// stores the factors it applies and ends with success.
pub proof fn law_counted_tracks_are_stored(left: u16, right: u16)
    ensures
        ({
            let actions = concluded(left, right).1;
            &&& left > 0 || right > 0 <==> actions.last() == Action::Complete("Calibration saved")
            &&& left == 0 && right == 0 <==> actions.last() == Action::Fail(
                "Zero encoder — check wiring",
            )
            &&& balanced(left, right) matches Some(factors) ==> actions.contains(
                Action::Save(CalibrationDataKind::Motor(stored(factors))),
            )
        }),
{
    if let Some(factors) = balanced(left, right) {
        assert(concluded(left, right).1[3] == Action::Save(
            CalibrationDataKind::Motor(stored(factors)),
        ));
    }
}

/// A factor is within the range exactly where the target is at most one and a half times
/// the track's pulses.
proof fn lemma_stored_whole(target: u16, pulses: u16)
    requires
        target >= pulses > 0,
    ensures
        track_factor(target, pulses) as i64 == track_factor(target, pulses),
        track_factor(target, pulses) >= UNIT_FACTOR_PPM,
        track_factor(target, pulses) <= MAX_FACTOR_PPM <==> 2 * target <= 3 * pulses,
{
    lemma_factor_fits(target, pulses);
    lemma_factor_meets_the_target(target, pulses);
    let factor = track_factor(target, pulses);
    let own = pulses as int;
    if 2 * target <= 3 * own {
        assert(factor <= 1_500_000) by (nonlinear_arith)
            requires
                factor * own <= target * 1_000_000,
                2 * target <= 3 * own,
                own > 0,
        ;
    } else {
        assert(factor > 1_500_000) by (nonlinear_arith)
            requires
                target * 1_000_000 < (factor + 1) * own,
                2 * target >= 3 * own + 1,
                0 < own <= 65_535,
        ;
    }
}

/// Where the procedure stands: which question it has asked.
#[derive(Debug, Clone, Copy, PartialEq, Eq, Structural)]
pub enum At {
    /// Whether to stop before this track runs.
    Check(Track),
    /// Whether the run of this track was cut short.
    Run(Track),
    /// This track's pulses.
    Count(Track),
    /// Whether the coast after this track was cut short; the pulses counted so far,
    /// left first.
    Coast(Track, u16),
    /// Nothing.
    Over,
}

/// The state of the procedure: where it stands and the left track's pulses.
#[derive(Debug, Clone, Copy, PartialEq, Eq, Structural)]
pub struct Progress {
    /// The question asked.
    pub at: At,
    /// Pulses of the left track, once counted.
    pub left: u16,
}

/// The phase line of a track.
pub open spec fn track_phase(track: Track) -> &'static str {
    match track {
        Track::Left => "Test left track",
        Track::Right => "Test right track",
    }
}

/// A clean measurement begins: stop, reset, clear, restart.
pub open spec fn measuring(track: Track) -> Seq<Action> {
    let done: usize = match track {
        Track::Left => 0,
        Track::Right => 1,
    };
    seq![
        Action::Phase(track_phase(track), Some(activity::percent_before(done, STEPS) as u8)),
        Action::Encoder(EncoderCommand::Stop),
        Action::Delay(200),
        Action::Encoder(EncoderCommand::Reset),
        Action::Delay(100),
        Action::ClearEncoder,
        Action::Encoder(EncoderCommand::Start { interval_ms: 20 }),
        Action::Delay(200),
    ]
}

/// Drivers on and encoders sampling.
pub open spec fn warming_up() -> Seq<Action> {
    seq![
        Action::Motor(MotorCommand::SetAllDriversEnable { enabled: true }),
        Action::Delay(10),
        Action::Encoder(EncoderCommand::Start { interval_ms: 20 }),
        Action::Delay(100),
    ]
}

/// Tracks free, encoders and drivers off.
pub open spec fn standing_down() -> Seq<Action> {
    seq![
        Action::Motor(MotorCommand::CoastAll),
        Action::Encoder(EncoderCommand::Stop),
        Action::Motor(MotorCommand::SetAllDriversEnable { enabled: false }),
    ]
}

/// What the procedure does next.
pub type Next = (Progress, Seq<Action>, Ask);

/// The procedure ends after a stop.
pub open spec fn stopped(left: u16, before: Seq<Action>) -> Next {
    (
        Progress { at: At::Over, left },
        before + standing_down().push(Action::Abandon),
        Ask::Over,
    )
}

/// The factors are applied.
pub open spec fn applying(factors: TrackFactors) -> Seq<Action> {
    seq![
        Action::Phase("Compute factors", Some(activity::percent_before(3, STEPS) as u8)),
        Action::Motor(
            MotorCommand::UpdateAllCalibration {
                left_factor_ppm: factors.left_ppm,
                right_factor_ppm: factors.right_ppm,
            },
        ),
        Action::Phase("Save to flash", Some(activity::percent_before(4, STEPS) as u8)),
    ]
}

/// The procedure ends with both tracks counted.
pub open spec fn concluded(left: u16, right: u16) -> Next {
    (
        Progress { at: At::Over, left },
        match balanced(left, right) {
            None => seq![
                Action::Phase("Compute factors", Some(activity::percent_before(3, STEPS) as u8)),
            ] + standing_down().push(Action::Fail("Zero encoder — check wiring")),
            Some(factors) => applying(factors) + seq![
                Action::Save(CalibrationDataKind::Motor(stored(factors))),
                Action::Encoder(EncoderCommand::Stop),
                Action::Motor(MotorCommand::SetAllDriversEnable { enabled: false }),
                Action::Complete("Calibration saved"),
            ],
        },
        Ask::Over,
    )
}

/// A track's pulses, zero without a measurement.
pub open spec fn pulses_of(track: Track, counts: Option<EncoderMeasurement>) -> u16 {
    match counts {
        None => 0,
        Some(counts) => match track {
            Track::Left => counts.left,
            Track::Right => counts.right,
        },
    }
}

/// The command that runs one track alone.
pub open spec fn alone(track: Track) -> MotorCommand {
    match track {
        Track::Left => MotorCommand::SetTracks { left_speed: SPEED, right_speed: 0 },
        Track::Right => MotorCommand::SetTracks { left_speed: 0, right_speed: SPEED },
    }
}

/// What follows an answer. An answer to another question counts as a stop.
pub open spec fn next(progress: Progress, answer: Answer) -> Next {
    let left = progress.left;
    match (progress.at, answer) {
        (At::Check(track), Answer::Yes(false)) => (
            Progress { at: At::Run(track), left },
            seq![Action::Motor(alone(track))],
            Ask::WaitOrStop(SAMPLE_DURATION_MS),
        ),
        (At::Run(track), Answer::Yes(false)) => (
            Progress { at: At::Count(track), left },
            Seq::empty(),
            Ask::Pulses(SAMPLE_TIMEOUT_MS),
        ),
        (At::Run(_), _) => stopped(left, seq![Action::Motor(MotorCommand::CoastAll)]),
        (At::Count(track), Answer::Pulses(counts)) => (
            Progress { at: At::Coast(track, pulses_of(track, counts)), left },
            seq![Action::Motor(MotorCommand::CoastAll)],
            Ask::WaitOrStop(COAST_DURATION_MS),
        ),
        (At::Coast(Track::Left, pulses), Answer::Yes(false)) => (
            Progress { at: At::Check(Track::Right), left: pulses },
            measuring(Track::Right),
            Ask::StopRequested,
        ),
        (At::Coast(Track::Right, pulses), Answer::Yes(false)) => concluded(left, pulses),
        (At::Over, _) => (progress, Seq::empty(), Ask::Over),
        _ => stopped(left, Seq::empty()),
    }
}

/// The actions that end the procedure.
fn stand_down() -> (actions: Vec<Action>)
    ensures
        actions@ == standing_down(),
{
    let actions = vec![
        Action::Motor(MotorCommand::CoastAll),
        Action::Encoder(EncoderCommand::Stop),
        Action::Motor(MotorCommand::SetAllDriversEnable { enabled: false }),
    ];
    assert(actions@ =~= standing_down());
    actions
}

/// The actions that begin a clean measurement.
fn measure(track: Track) -> (actions: Vec<Action>)
    ensures
        actions@ == measuring(track),
{
    let (phase, done) = match track {
        Track::Left => ("Test left track", 0usize),
        Track::Right => ("Test right track", 1usize),
    };
    let actions = vec![
        Action::Phase(phase, Some(activity::percent_done(done, STEPS))),
        Action::Encoder(EncoderCommand::Stop),
        Action::Delay(200),
        Action::Encoder(EncoderCommand::Reset),
        Action::Delay(100),
        Action::ClearEncoder,
        Action::Encoder(EncoderCommand::Start { interval_ms: 20 }),
        Action::Delay(200),
    ];
    assert(actions@ =~= measuring(track));
    actions
}

/// One run of the motor calibration.
#[derive(Debug)]
pub struct MotorCalibrationRun {
    progress: Progress,
}

impl MotorCalibrationRun {
    /// Where it stands.
    pub closed spec fn view(&self) -> Progress {
        self.progress
    }

    /// Begin: the run and its first turn.
    pub fn begin() -> (begun: (Self, Turn))
        ensures
            begun.0@ == (Progress { at: At::Check(Track::Left), left: 0 }),
            begun.1@ == (warming_up() + measuring(Track::Left), Ask::StopRequested),
    {
        let mut actions = vec![
            Action::Motor(MotorCommand::SetAllDriversEnable { enabled: true }),
            Action::Delay(10),
            Action::Encoder(EncoderCommand::Start { interval_ms: 20 }),
            Action::Delay(100),
        ];
        assert(actions@ =~= warming_up());
        let mut measuring_left = measure(Track::Left);
        actions.append(&mut measuring_left);
        (
            MotorCalibrationRun { progress: Progress { at: At::Check(Track::Left), left: 0 } },
            Turn::new(actions, Ask::StopRequested),
        )
    }

    /// Take the answer to the last question.
    pub fn answer(&mut self, answer: Answer) -> (turn: Turn)
        ensures
            ({
                let (progress, actions, ask) = next(old(self)@, answer);
                final(self)@ == progress && turn@ == (actions, ask)
            }),
    {
        match (self.progress.at, answer) {
            (At::Check(track), Answer::Yes(false)) => {
                let command = match track {
                    Track::Left => MotorCommand::SetTracks { left_speed: SPEED, right_speed: 0 },
                    Track::Right => MotorCommand::SetTracks { left_speed: 0, right_speed: SPEED },
                };
                self.progress.at = At::Run(track);
                let actions = vec![Action::Motor(command)];
                assert(actions@ =~= seq![Action::Motor(alone(track))]);
                Turn::new(actions, Ask::WaitOrStop(SAMPLE_DURATION_MS))
            },
            (At::Run(track), Answer::Yes(false)) => {
                self.progress.at = At::Count(track);
                Turn::asking(Ask::Pulses(SAMPLE_TIMEOUT_MS))
            },
            (At::Run(_), _) => {
                let actions = vec![Action::Motor(MotorCommand::CoastAll)];
                assert(actions@ =~= seq![Action::Motor(MotorCommand::CoastAll)]);
                self.stop(actions)
            },
            (At::Count(track), Answer::Pulses(counts)) => {
                let pulses = match counts {
                    None => 0,
                    Some(counts) => match track {
                        Track::Left => counts.left,
                        Track::Right => counts.right,
                    },
                };
                self.progress.at = At::Coast(track, pulses);
                let actions = vec![Action::Motor(MotorCommand::CoastAll)];
                assert(actions@ =~= seq![Action::Motor(MotorCommand::CoastAll)]);
                Turn::new(actions, Ask::WaitOrStop(COAST_DURATION_MS))
            },
            (At::Coast(Track::Left, pulses), Answer::Yes(false)) => {
                self.progress = Progress { at: At::Check(Track::Right), left: pulses };
                Turn::new(measure(Track::Right), Ask::StopRequested)
            },
            (At::Coast(Track::Right, pulses), Answer::Yes(false)) => self.conclude(pulses),
            (At::Over, _) => Turn::asking(Ask::Over),
            _ => self.stop(Vec::new()),
        }
    }

    /// End the procedure after a stop.
    fn stop(&mut self, before: Vec<Action>) -> (turn: Turn)
        ensures
            ({
                let (progress, actions, ask) = stopped(old(self)@.left, before@);
                final(self)@ == progress && turn@ == (actions, ask)
            }),
    {
        let mut actions = before;
        let mut rest = stand_down();
        rest.push(Action::Abandon);
        actions.append(&mut rest);
        self.progress.at = At::Over;
        Turn::new(actions, Ask::Over)
    }

    /// End the procedure with both tracks counted.
    fn conclude(&mut self, right: u16) -> (turn: Turn)
        ensures
            ({
                let (progress, actions, ask) = concluded(old(self)@.left, right);
                final(self)@ == progress && turn@ == (actions, ask)
            }),
    {
        let left = self.progress.left;
        self.progress.at = At::Over;
        let computing = Action::Phase("Compute factors", Some(activity::percent_done(3, STEPS)));
        let actions = match balance(left, right) {
            None => {
                let mut actions = vec![computing];
                assert(actions@ =~= seq![computing]);
                let mut rest = stand_down();
                rest.push(Action::Fail("Zero encoder — check wiring"));
                actions.append(&mut rest);
                actions
            },
            Some(factors) => {
                let calibration = MotorCalibration::new(factors.left_ppm, factors.right_ppm);
                assert(calibration == stored(factors));
                vec![
                    computing,
                    Action::Motor(
                        MotorCommand::UpdateAllCalibration {
                            left_factor_ppm: factors.left_ppm,
                            right_factor_ppm: factors.right_ppm,
                        },
                    ),
                    Action::Phase("Save to flash", Some(activity::percent_done(4, STEPS))),
                    Action::Save(CalibrationDataKind::Motor(calibration)),
                    Action::Encoder(EncoderCommand::Stop),
                    Action::Motor(MotorCommand::SetAllDriversEnable { enabled: false }),
                    Action::Complete("Calibration saved"),
                ]
            },
        };
        assert(actions@ =~= concluded(left, right).1);
        Turn::new(actions, Ask::Over)
    }
}

/// However the procedure ends, it ends with the encoders stopped and the drivers off,
/// and it stores factors only when it ends with success.
pub proof fn law_ends_with_the_motors_off(progress: Progress, answer: Answer)
    requires
        progress.at !is Over,
        next(progress, answer).2 == Ask::Over,
    ensures
        ({
            let actions = next(progress, answer).1;
            let len = actions.len() as int;
            &&& len >= 3
            &&& actions[len - 3] == Action::Encoder(EncoderCommand::Stop)
            &&& actions[len - 2] == Action::Motor(
                MotorCommand::SetAllDriversEnable { enabled: false },
            )
            &&& forall|i: int|
                0 <= i < len && (#[trigger] actions[i]) is Save ==> actions[len - 1]
                    == Action::Complete("Calibration saved")
        }),
{
}

/// A track is measured alone and by its own encoder: it runs forward while the other one
/// stands, and its count, not the other's, is kept for it; without a count in time it is
/// zero.
pub proof fn law_each_track_is_measured_alone(
    track: Track,
    left: u16,
    counts: EncoderMeasurement,
)
    ensures
        ({
            let (running, actions, _) = next(
                Progress { at: At::Check(track), left },
                Answer::Yes(false),
            );
            let (counted, coast, _) = next(
                Progress { at: At::Count(track), left },
                Answer::Pulses(Some(counts)),
            );
            let own = match track {
                Track::Left => counts.left,
                Track::Right => counts.right,
            };
            &&& running.at == At::Run(track)
            &&& actions.len() == 1
            &&& actions[0] matches Action::Motor(
                MotorCommand::SetTracks { left_speed, right_speed },
            ) && match track {
                Track::Left => left_speed == 60 && right_speed == 0,
                Track::Right => left_speed == 0 && right_speed == 60,
            }
            &&& counted.at == At::Coast(track, own)
            &&& coast == seq![Action::Motor(MotorCommand::CoastAll)]
            &&& next(Progress { at: At::Count(track), left }, Answer::Pulses(None)).0.at
                == At::Coast(track, 0)
        }),
{
}

/// The procedure measures the left track and then the right one, a second each, and ends
/// with the counts of both: the left one is kept while the right one is measured.
pub proof fn law_tracks_are_measured_in_turn(track: Track, left: u16, pulses: u16)
    ensures
        next(Progress { at: At::Check(track), left }, Answer::Yes(false)).2 == Ask::WaitOrStop(
            1_000,
        ),
        next(Progress { at: At::Run(track), left }, Answer::Yes(false)) == (
            Progress { at: At::Count(track), left },
            Seq::<Action>::empty(),
            Ask::Pulses(500),
        ),
        next(Progress { at: At::Coast(Track::Left, pulses), left }, Answer::Yes(false)).0 == (
        Progress { at: At::Check(Track::Right), left: pulses }),
        next(Progress { at: At::Coast(Track::Right, pulses), left }, Answer::Yes(false))
            == concluded(left, pulses),
{
}

/// The factors that are applied are those of the tracks they are applied to: the left one
/// brings the left track's pulses to the faster track's, the right one the right track's.
pub proof fn law_applied_factors_fit_their_tracks(left: u16, right: u16)
    requires
        left > 0,
        right > 0,
    ensures
        ({
            let target = 1_000_000 * if left >= right {
                left as int
            } else {
                right as int
            };
            concluded(left, right).1[1] matches Action::Motor(
                MotorCommand::UpdateAllCalibration { left_factor_ppm, right_factor_ppm },
            ) && {
                &&& left_factor_ppm * left <= target < (left_factor_ppm + 1) * left
                &&& right_factor_ppm * right <= target < (right_factor_ppm + 1) * right
            }
        }),
{
    law_factors_balance_the_tracks(left, right);
}

/// Whatever a run answers, only the track it is at runs, at sixty, and its own count is
/// what it keeps; half a second of coasting follows.
pub proof fn law_run_measures_its_own_track(
    starting: &mut MotorCalibrationRun,
    counting: &mut MotorCalibrationRun,
    started: Turn,
    counted: Turn,
    track: Track,
    counts: EncoderMeasurement,
)
    requires
        old(starting)@.at == At::Check(track),
        old(counting)@.at == At::Count(track),
        call_ensures(MotorCalibrationRun::answer, (starting, Answer::Yes(false)), started),
        call_ensures(
            MotorCalibrationRun::answer,
            (counting, Answer::Pulses(Some(counts))),
            counted,
        ),
    ensures
        started.actions@.len() == 1,
        started.actions@[0] == Action::Motor(
            if track is Left {
                MotorCommand::SetTracks { left_speed: 60, right_speed: 0 }
            } else {
                MotorCommand::SetTracks { left_speed: 0, right_speed: 60 }
            },
        ),
        final(counting)@.at == At::Coast(
            track,
            if track is Left {
                counts.left
            } else {
                counts.right
            },
        ),
        counted.ask == Ask::WaitOrStop(500),
{
    let before = old(starting)@;
    assert(started@ == (next(before, Answer::Yes(false)).1, next(before, Answer::Yes(false)).2));
    let middle = old(counting)@;
    let pulses = Answer::Pulses(Some(counts));
    assert(counted@ == (next(middle, pulses).1, next(middle, pulses).2));
}

/// Whatever counts are balanced, each track's factor times its own count is the count of
/// the faster track, rounded down.
pub proof fn law_balance_brings_both_to_the_faster(
    left: u16,
    right: u16,
    factors: Option<TrackFactors>,
)
    requires
        left > 0,
        right > 0,
        call_ensures(balance, (left, right), factors),
    ensures
        ({
            let target = 1_000_000 * if left >= right {
                left as int
            } else {
                right as int
            };
            factors matches Some(factors) && {
                &&& factors.left_ppm * left <= target < (factors.left_ppm + 1) * left
                &&& factors.right_ppm * right <= target < (factors.right_ppm + 1) * right
            }
        }),
{
    law_factors_balance_the_tracks(left, right);
}

/// The progress shown goes in quarters.
pub proof fn law_progress_goes_in_quarters(track: Track, left: u16, right: u16)
    ensures
        measuring(track)[0] matches Action::Phase(_, percent) && percent == Some(
            if track is Left {
                0u8
            } else {
                25u8
            },
        ),
        concluded(left, right).1[0] == Action::Phase("Compute factors", Some(75)),
{
    assert(activity::percent_before(0, STEPS) == 0);
    assert(activity::percent_before(1, STEPS) == 25);
    assert(activity::percent_before(3, STEPS) == 75);
}

} // verus!
