//! The basic motor test: each track alone, forward and backward, in a cycle of four
//! legs until the operator stops it.

use vstd::prelude::*;

use crate::system::state::activity;
use crate::task::dialogue::{Action, Answer, Ask, EncoderCommand, EncoderMeasurement, Turn};
use crate::task::motor_driver::{MotorCommand, Track};

verus! {

/// How long one leg drives, in milliseconds.
pub const LEG_DURATION_MS: u64 = 2_000;

/// How often the encoder count is sampled during a leg, in milliseconds.
pub const SAMPLE_INTERVAL_MS: u64 = 100;

/// Speed of a leg.
pub const LEG_SPEED: i8 = 50;

/// How many legs a cycle has.
pub const LEGS: usize = 4;

/// One leg: the track under test, its phase line and the commanded speeds.
#[derive(Debug, Clone, Copy, PartialEq, Eq)]
pub struct Leg {
    /// The track under test.
    pub track: Track,
    /// The phase line shown while the leg runs.
    pub phase: &'static str,
    /// Left track command.
    pub left: i8,
    /// Right track command.
    pub right: i8,
}

/// The legs, in order: each track forward, then backward.
pub open spec fn leg_at(index: usize) -> Leg {
    if index == 0 {
        Leg { track: Track::Left, phase: "Left forward", left: 50, right: 0 }
    } else if index == 1 {
        Leg { track: Track::Left, phase: "Left reverse", left: (-50) as i8, right: 0 }
    } else if index == 2 {
        Leg { track: Track::Right, phase: "Right forward", left: 0, right: 50 }
    } else {
        Leg { track: Track::Right, phase: "Right reverse", left: 0, right: (-50) as i8 }
    }
}

/// The leg at an index.
pub fn leg(index: usize) -> (leg: Leg)
    ensures
        leg == leg_at(index),
{
    if index == 0 {
        Leg { track: Track::Left, phase: "Left forward", left: LEG_SPEED, right: 0 }
    } else if index == 1 {
        Leg { track: Track::Left, phase: "Left reverse", left: -LEG_SPEED, right: 0 }
    } else if index == 2 {
        Leg { track: Track::Right, phase: "Right forward", left: 0, right: LEG_SPEED }
    } else {
        Leg { track: Track::Right, phase: "Right reverse", left: 0, right: -LEG_SPEED }
    }
}

/// The count a leg reports: that of its track, zero without a measurement.
pub fn leg_count(track: Track, measurement: Option<EncoderMeasurement>) -> (count: u16)
    ensures
        count == (match measurement {
            None => 0u16,
            Some(counts) => match track {
                Track::Left => counts.left,
                Track::Right => counts.right,
            },
        }),
{
    match measurement {
        None => 0,
        Some(counts) => match track {
            Track::Left => counts.left,
            Track::Right => counts.right,
        },
    }
}

/// Where the test stands: which question it has asked.
#[derive(Debug, Clone, Copy, PartialEq, Eq, Structural)]
pub enum At {
    /// Whether to stop before this leg.
    Check(usize),
    /// A sample of this leg, this many milliseconds into it.
    Leg(usize, u64),
    /// Nothing.
    Over,
}

/// What the test does first: drivers on, encoders clean and sampling.
pub open spec fn opening() -> (At, Seq<Action>, Ask) {
    (
        At::Check(0),
        seq![
            Action::Motor(MotorCommand::SetAllDriversEnable { enabled: true }),
            Action::Delay(10),
            Action::Encoder(EncoderCommand::Stop),
            Action::Delay(100),
            Action::Encoder(EncoderCommand::Reset),
            Action::Delay(100),
            Action::ClearEncoder,
            Action::Encoder(EncoderCommand::Start { interval_ms: 50 }),
            Action::Delay(100),
        ],
        Ask::StopRequested,
    )
}

/// What starting a leg does.
pub open spec fn leg_opening(index: usize) -> (At, Seq<Action>, Ask) {
    let leg = leg_at(index);
    (
        At::Leg(index, 0),
        seq![
            Action::Phase(leg.phase, Some(activity::percent_before(index, LEGS) as u8)),
            Action::Motor(MotorCommand::CoastAll),
            Action::Delay(100),
            Action::Encoder(EncoderCommand::Reset),
            Action::Delay(100),
            Action::ClearEncoder,
            Action::Motor(
                MotorCommand::SetTracks { left_speed: leg.left, right_speed: leg.right },
            ),
        ],
        Ask::WaitOrStop(SAMPLE_INTERVAL_MS),
    )
}

/// The leg behind a leg, round the cycle.
pub open spec fn leg_after(index: usize) -> usize {
    if index + 1 < LEGS {
        (index + 1) as usize
    } else {
        0
    }
}

/// What ending a leg does.
pub open spec fn leg_closing(index: usize) -> (At, Seq<Action>, Ask) {
    (
        At::Check(leg_after(index)),
        seq![Action::Motor(MotorCommand::CoastAll), Action::Delay(200)],
        Ask::StopRequested,
    )
}

/// What ending the test does: tracks free, encoders and drivers off, slot free.
pub open spec fn closing() -> (At, Seq<Action>, Ask) {
    (
        At::Over,
        seq![
            Action::Motor(MotorCommand::CoastAll),
            Action::Encoder(EncoderCommand::Stop),
            Action::Motor(MotorCommand::SetAllDriversEnable { enabled: false }),
            Action::Release,
        ],
        Ask::Over,
    )
}

/// What a sample of a leg logs: the count of its track.
pub open spec fn report(index: usize) -> Seq<Action> {
    seq![Action::LogCount(leg_at(index).phase, leg_at(index).track)]
}

/// What follows an answer. A sample that a stop cuts short is not logged. An answer to
/// another question ends the test.
pub open spec fn next(at: At, answer: Answer) -> (At, Seq<Action>, Ask) {
    match (at, answer) {
        (At::Check(index), Answer::Yes(false)) => leg_opening(index),
        (At::Leg(index, elapsed), Answer::Yes(stopped)) => if stopped {
            leg_closing(index)
        } else if elapsed + SAMPLE_INTERVAL_MS >= LEG_DURATION_MS {
            let (at, actions, ask) = leg_closing(index);
            (at, report(index) + actions, ask)
        } else {
            (
                At::Leg(index, (elapsed + SAMPLE_INTERVAL_MS) as u64),
                report(index),
                Ask::WaitOrStop(SAMPLE_INTERVAL_MS),
            )
        },
        (At::Over, _) => (At::Over, Seq::empty(), Ask::Over),
        _ => closing(),
    }
}

/// The test can stand here: the leg exists and has time left.
pub open spec fn reachable(at: At) -> bool {
    match at {
        At::Check(index) => index < LEGS,
        At::Leg(index, elapsed) => index < LEGS && elapsed < LEG_DURATION_MS,
        At::Over => true,
    }
}

/// One run of the basic motor test.
#[derive(Debug)]
pub struct BasicMotorRun {
    at: At,
}

impl BasicMotorRun {
    /// Where it stands.
    pub closed spec fn view(&self) -> At {
        self.at
    }

    /// It stands at a leg it has.
    pub open spec fn wf(&self) -> bool {
        reachable(self@)
    }

    /// Begin: the run and its first turn.
    pub fn begin() -> (begun: (Self, Turn))
        ensures
            begun.0.wf(),
            begun.0@ == opening().0,
            begun.1@ == (opening().1, opening().2),
    {
        let actions = vec![
            Action::Motor(MotorCommand::SetAllDriversEnable { enabled: true }),
            Action::Delay(10),
            Action::Encoder(EncoderCommand::Stop),
            Action::Delay(100),
            Action::Encoder(EncoderCommand::Reset),
            Action::Delay(100),
            Action::ClearEncoder,
            Action::Encoder(EncoderCommand::Start { interval_ms: 50 }),
            Action::Delay(100),
        ];
        assert(actions@ =~= opening().1);
        (BasicMotorRun { at: At::Check(0) }, Turn::new(actions, Ask::StopRequested))
    }

    /// Take the answer to the last question.
    pub fn answer(&mut self, answer: Answer) -> (turn: Turn)
        requires
            old(self).wf(),
        ensures
            final(self).wf(),
            ({
                let (at, actions, ask) = next(old(self)@, answer);
                final(self)@ == at && turn@ == (actions, ask)
            }),
    {
        match (self.at, answer) {
            (At::Check(index), Answer::Yes(false)) => {
                let leg = leg(index);
                let actions = vec![
                    Action::Phase(leg.phase, Some(activity::percent_done(index, LEGS))),
                    Action::Motor(MotorCommand::CoastAll),
                    Action::Delay(100),
                    Action::Encoder(EncoderCommand::Reset),
                    Action::Delay(100),
                    Action::ClearEncoder,
                    Action::Motor(
                        MotorCommand::SetTracks { left_speed: leg.left, right_speed: leg.right },
                    ),
                ];
                assert(actions@ =~= leg_opening(index).1);
                self.at = At::Leg(index, 0);
                Turn::new(actions, Ask::WaitOrStop(SAMPLE_INTERVAL_MS))
            },
            (At::Leg(index, elapsed), Answer::Yes(stopped)) => {
                let mut actions: Vec<Action> = Vec::new();
                if !stopped {
                    let leg = leg(index);
                    actions.push(Action::LogCount(leg.phase, leg.track));
                    assert(actions@ =~= report(index));
                    if elapsed + SAMPLE_INTERVAL_MS < LEG_DURATION_MS {
                        self.at = At::Leg(index, elapsed + SAMPLE_INTERVAL_MS);
                        return Turn::new(actions, Ask::WaitOrStop(SAMPLE_INTERVAL_MS));
                    }
                }
                actions.push(Action::Motor(MotorCommand::CoastAll));
                actions.push(Action::Delay(200));
                assert(actions@ =~= next(At::Leg(index, elapsed), answer).1);
                self.at = At::Check(
                    if index + 1 < LEGS {
                        index + 1
                    } else {
                        0
                    },
                );
                Turn::new(actions, Ask::StopRequested)
            },
            (At::Over, _) => Turn::asking(Ask::Over),
            _ => {
                let actions = vec![
                    Action::Motor(MotorCommand::CoastAll),
                    Action::Encoder(EncoderCommand::Stop),
                    Action::Motor(MotorCommand::SetAllDriversEnable { enabled: false }),
                    Action::Release,
                ];
                assert(actions@ =~= closing().1);
                self.at = At::Over;
                Turn::new(actions, Ask::Over)
            },
        }
    }
}

/// Only one track runs in any leg.
pub proof fn law_one_track_at_a_time(index: usize)
    ensures
        match leg_at(index).track {
            Track::Left => leg_at(index).left != 0 && leg_at(index).right == 0,
            Track::Right => leg_at(index).left == 0 && leg_at(index).right != 0,
        },
{
}

/// Every leg logs its own track's count: each sample that no stop cuts short begins
/// with it, the last one too.
pub proof fn law_every_sample_is_logged(index: usize, elapsed: u64)
    requires
        reachable(At::Leg(index, elapsed)),
    ensures
        next(At::Leg(index, elapsed), Answer::Yes(false)).1.len() > 0,
        next(At::Leg(index, elapsed), Answer::Yes(false)).1[0] == Action::LogCount(
            leg_at(index).phase,
            leg_at(index).track,
        ),
{
}

/// A stop ends the test from anywhere in a leg: the leg is coasted, and the answer to
/// the question asked then, that a stop is requested, ends the test with the tracks
/// free and the drivers off.
pub proof fn law_stop_leaves_the_motors_off(index: usize, elapsed: u64)
    requires
        reachable(At::Leg(index, elapsed)),
    ensures
        ({
            let (at, actions, ask) = next(At::Leg(index, elapsed), Answer::Yes(true));
            &&& actions[0] == Action::Motor(MotorCommand::CoastAll)
            &&& ask == Ask::StopRequested
            &&& next(at, Answer::Yes(true)) == closing()
        }),
{
}

/// The legs go through the four ways a track can turn: the left track in the first two,
/// the right track in the others, forward first and then backward at the same speed.
pub proof fn law_legs_cover_every_way(index: usize)
    requires
        index < 4,
    ensures
        leg_at(index).track is Left <==> index < 2,
        leg_at(index).left + leg_at(index).right == (if index % 2 == 0 {
            50int
        } else {
            -50
        }),
        leg_at(0).left + leg_at(1).left == 0,
        leg_at(2).right + leg_at(3).right == 0,
{
}

/// A leg goes on for two seconds, a sample every tenth of one, and then the next leg is
/// due, round and round.
pub proof fn law_leg_lasts_two_seconds(index: usize, elapsed: u64)
    requires
        index < 4,
        elapsed < 2_000,
    ensures
        ({
            let (at, actions, ask) = next(At::Leg(index, elapsed), Answer::Yes(false));
            &&& elapsed < 1_900 ==> at == At::Leg(index, (elapsed + 100) as u64) && ask
                == Ask::WaitOrStop(100) && actions.len() == 1
            &&& elapsed >= 1_900 ==> at == At::Check(((index + 1) % 4) as usize)
                && ask is StopRequested && actions.len() == 3 && actions[1] == Action::Motor(
                MotorCommand::CoastAll,
            )
        }),
        next(At::Leg(index, elapsed), Answer::Yes(true)).0 == At::Check(((index + 1) % 4) as usize),
{
}

/// A leg starts from rest with clean counts, and then runs its own track alone.
pub proof fn law_leg_starts_from_rest(index: usize)
    requires
        index < 4,
    ensures
        ({
            let (at, actions, ask) = next(At::Check(index), Answer::Yes(false));
            &&& at == At::Leg(index, 0)
            &&& ask == Ask::WaitOrStop(100)
            &&& actions.len() == 7
            &&& actions[0] == Action::Phase(leg_at(index).phase, Some((25 * index) as u8))
            &&& actions[1] == Action::Motor(MotorCommand::CoastAll)
            &&& actions[3] == Action::Encoder(EncoderCommand::Reset)
            &&& actions[5] is ClearEncoder
            &&& actions[6] == Action::Motor(
                MotorCommand::SetTracks {
                    left_speed: leg_at(index).left,
                    right_speed: leg_at(index).right,
                },
            )
        }),
{
    let total: int = 4;
    assert((index * 100) / total == 25 * index) by (nonlinear_arith)
        requires
            total == 4,
    ;
}

/// The drivers are on while the test runs and off once it is over, and the tracks are
/// free before they are switched off.
pub proof fn law_drivers_are_on_for_the_test(index: usize)
    requires
        index < 4,
    ensures
        opening().1[0] == Action::Motor(MotorCommand::SetAllDriversEnable { enabled: true }),
        opening().0 == At::Check(0),
        opening().2 is StopRequested,
        ({
            let (at, actions, ask) = next(At::Check(index), Answer::Yes(true));
            &&& at is Over
            &&& ask is Over
            &&& actions.len() == 4
            &&& actions[0] == Action::Motor(MotorCommand::CoastAll)
            &&& actions[1] == Action::Encoder(EncoderCommand::Stop)
            &&& actions[2] == Action::Motor(MotorCommand::SetAllDriversEnable { enabled: false })
            &&& actions[3] is Release
        }),
{
}

/// A leg reports its own track's count, and none where nothing was counted.
pub proof fn law_count_is_the_tracks_own(
    counts: EncoderMeasurement,
    left: u16,
    right: u16,
    nothing: u16,
    track: Track,
)
    requires
        call_ensures(leg_count, (Track::Left, Some(counts)), left),
        call_ensures(leg_count, (Track::Right, Some(counts)), right),
        call_ensures(leg_count, (track, None), nothing),
    ensures
        left == counts.left,
        right == counts.right,
        nothing == 0,
{
}

/// Whatever the test answers before a leg, that leg's track alone runs, forward in every
/// other leg and backward in between.
pub proof fn law_answer_runs_the_legs_track(run: &mut BasicMotorRun, index: usize, turn: Turn)
    requires
        index < 4,
        old(run)@ == At::Check(index),
        call_ensures(BasicMotorRun::answer, (run, Answer::Yes(false)), turn),
    ensures
        final(run)@ == At::Leg(index, 0),
        turn.actions@.last() matches Action::Motor(
            MotorCommand::SetTracks { left_speed, right_speed },
        ) && {
            &&& index < 2 ==> right_speed == 0
            &&& index >= 2 ==> left_speed == 0
            &&& left_speed + right_speed == (if index % 2 == 0 {
                50int
            } else {
                -50
            })
        },
{
    let (at, actions, ask) = next(At::Check(index), Answer::Yes(false));
    assert(turn@ == (actions, ask));
}

/// A leg is shown as what it runs.
pub proof fn law_legs_are_shown_as_run(index: usize)
    requires
        index < 4,
    ensures
        leg_at(index).left > 0 ==> leg_at(index).phase == "Left forward",
        leg_at(index).left < 0 ==> leg_at(index).phase == "Left reverse",
        leg_at(index).right > 0 ==> leg_at(index).phase == "Right forward",
        leg_at(index).right < 0 ==> leg_at(index).phase == "Right reverse",
{
}

} // verus!
