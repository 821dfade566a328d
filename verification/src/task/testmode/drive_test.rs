//! The tests that drive: straight legs, in-place turns and a full circle.
//!
//! All three count down, drive their legs one queue at a time, so phase and percent
//! follow the test and a stop lands between legs or cancels the one in flight, and
//! report completion.

use vstd::prelude::*;

use crate::system::event::Events;
use crate::system::state::activity;
use crate::task::dialogue::{Action, Answer, Ask, DriveQueue, Turn};
use crate::task::drive::{
    CompletionStatus, DriveAction, DriveDirection, DriveDistanceKind, RotationDirection,
    TurnDirection,
};
use crate::task::sensors::imu::DmpFusionMode;

verus! {

/// Length of a straight leg, in micrometres.
pub const LEG_DISTANCE_UM: u32 = 1_500_000;

/// Speed of a straight leg.
pub const LEG_SPEED: u8 = 70;

/// Settle time after a straight leg's brake, in milliseconds.
pub const STRAIGHT_SETTLE_MS: u64 = 500;

/// Rotation of every turn, in microdegrees.
pub const TURN_UDEG: u32 = 90_000_000;

/// Settle time after the last turn, in milliseconds.
pub const TURNS_SETTLE_MS: u64 = 1_000;

/// Radius of the circle, in micrometres.
pub const ARC_RADIUS_UM: u32 = 1_000_000;

/// Circumference of the circle, two pi radii, in micrometres.
pub const ARC_LENGTH_UM: u32 = 6_283_185;

/// Speed of the circle.
pub const ARC_SPEED: u8 = 60;

/// Which driving test.
#[derive(Debug, Clone, Copy, PartialEq, Eq, Structural)]
pub enum DriveTest {
    /// Forward and backward over a fixed distance.
    Straight,
    /// A quarter turn at each of four speeds.
    Turns,
    /// One full circle to the left.
    Arc,
}

/// The queue of a straight leg: the drive alone.
pub open spec fn leg_queue(direction: DriveDirection) -> DriveQueue {
    DriveQueue {
        first: DriveAction::DriveDistance {
            kind: DriveDistanceKind::Straight { distance_um: LEG_DISTANCE_UM },
            direction,
            speed: LEG_SPEED,
        },
        second: None,
    }
}

/// The queue after a straight leg: brake, then stand still.
pub open spec fn settle_queue() -> DriveQueue {
    DriveQueue {
        first: DriveAction::Brake,
        second: Some(DriveAction::Idle { duration_ms: STRAIGHT_SETTLE_MS }),
    }
}

/// The queue of a turn: the turn alone.
pub open spec fn turn_queue(speed: u8) -> DriveQueue {
    DriveQueue {
        first: DriveAction::RotateExact {
            rotation_udeg: TURN_UDEG,
            towards: RotationDirection::Clockwise,
            speed,
        },
        second: None,
    }
}

/// The queue of the circle: the arc alone.
pub open spec fn arc_queue() -> DriveQueue {
    DriveQueue {
        first: DriveAction::DriveDistance {
            kind: DriveDistanceKind::CurveArc {
                radius_um: ARC_RADIUS_UM,
                arc_length_um: ARC_LENGTH_UM,
                direction: TurnDirection::Left,
            },
            direction: DriveDirection::Forward,
            speed: ARC_SPEED,
        },
        second: None,
    }
}

/// Build a straight leg's queue.
pub fn build_leg(direction: DriveDirection) -> (queue: DriveQueue)
    ensures
        queue == leg_queue(direction),
{
    DriveQueue {
        first: DriveAction::DriveDistance {
            kind: DriveDistanceKind::Straight { distance_um: LEG_DISTANCE_UM },
            direction,
            speed: LEG_SPEED,
        },
        second: None,
    }
}

/// Build the queue after a straight leg.
pub fn build_settle() -> (queue: DriveQueue)
    ensures
        queue == settle_queue(),
{
    DriveQueue {
        first: DriveAction::Brake,
        second: Some(DriveAction::Idle { duration_ms: STRAIGHT_SETTLE_MS }),
    }
}

/// Build a turn's queue.
pub fn build_turn_queue(speed: u8) -> (queue: DriveQueue)
    ensures
        queue == turn_queue(speed),
{
    DriveQueue {
        first: DriveAction::RotateExact {
            rotation_udeg: TURN_UDEG,
            towards: RotationDirection::Clockwise,
            speed,
        },
        second: None,
    }
}

/// Build the circle's queue.
pub fn build_arc_queue() -> (queue: DriveQueue)
    ensures
        queue == arc_queue(),
{
    DriveQueue {
        first: DriveAction::DriveDistance {
            kind: DriveDistanceKind::CurveArc {
                radius_um: ARC_RADIUS_UM,
                arc_length_um: ARC_LENGTH_UM,
                direction: TurnDirection::Left,
            },
            direction: DriveDirection::Forward,
            speed: ARC_SPEED,
        },
        second: None,
    }
}

/// How many legs a test has.
pub open spec fn leg_count(test: DriveTest) -> usize {
    match test {
        DriveTest::Straight => 2,
        DriveTest::Turns => 4,
        DriveTest::Arc => 1,
    }
}

/// The countdown before a test's first leg, in milliseconds.
pub open spec fn countdown_ms(test: DriveTest) -> u64 {
    match test {
        DriveTest::Straight => 5_000,
        DriveTest::Turns => 5_000,
        DriveTest::Arc => 10_000,
    }
}

/// The phase line of a leg.
pub open spec fn leg_phase(test: DriveTest, leg: usize) -> &'static str {
    match test {
        DriveTest::Straight => if leg == 0 {
            "Forward 150 cm"
        } else {
            "Backward 150 cm"
        },
        DriveTest::Turns => if leg == 0 {
            "90 deg at 40"
        } else if leg == 1 {
            "90 deg at 60"
        } else if leg == 2 {
            "90 deg at 80"
        } else {
            "90 deg at 100"
        },
        DriveTest::Arc => "360 deg, r=100 cm",
    }
}

/// The queue of a leg.
pub open spec fn queue_of(test: DriveTest, leg: usize) -> DriveQueue {
    match test {
        DriveTest::Straight => leg_queue(
            if leg == 0 {
                DriveDirection::Forward
            } else {
                DriveDirection::Backward
            },
        ),
        DriveTest::Turns => turn_queue(
            if leg == 0 {
                40
            } else if leg == 1 {
                60
            } else if leg == 2 {
                80
            } else {
                100
            },
        ),
        DriveTest::Arc => arc_queue(),
    }
}

/// The line a finished test shows.
pub open spec fn done_line(test: DriveTest) -> &'static str {
    match test {
        DriveTest::Straight => "Straight drive complete",
        DriveTest::Turns => "Turns complete",
        DriveTest::Arc => "Arc drive complete",
    }
}

/// Where a driving test stands: which question it has asked.
#[derive(Debug, Clone, Copy, PartialEq, Eq, Structural)]
pub enum At {
    /// Whether the calibration data is known.
    Boot,
    /// The countdown.
    Countdown,
    /// Whether to stop before this leg.
    Check(usize),
    /// How this leg went.
    Drive(usize),
    /// How the settling after this leg went.
    Settle(usize),
    /// The wait after the last leg.
    Finale,
    /// Nothing.
    Over,
}

/// What a test does next: where it stands, its actions and its question.
pub type Next = (At, Seq<Action>, Ask);

/// Drive leg `leg`.
pub open spec fn drive(test: DriveTest, leg: usize, before: Seq<Action>) -> Next {
    (
        At::Drive(leg),
        before.push(
            Action::Phase(
                leg_phase(test, leg),
                Some(activity::percent_before(leg, leg_count(test)) as u8),
            ),
        ),
        Ask::Submit(queue_of(test, leg)),
    )
}

/// Go on to leg `leg`, or to the end after the last one.
pub open spec fn go_on(test: DriveTest, leg: usize, before: Seq<Action>) -> Next {
    if leg < leg_count(test) {
        match test {
            DriveTest::Arc => drive(test, leg, before),
            _ => (At::Check(leg), before, Ask::StopRequested),
        }
    } else {
        match test {
            DriveTest::Straight => (
                At::Over,
                before.push(Action::Drive(DriveAction::Coast)).push(
                    Action::Complete(done_line(test)),
                ),
                Ask::Over,
            ),
            DriveTest::Turns => (At::Finale, before, Ask::WaitOrStop(TURNS_SETTLE_MS)),
            DriveTest::Arc => (At::Over, before.push(Action::Complete(done_line(test))), Ask::Over),
        }
    }
}

/// Leave without a result.
pub open spec fn leave(before: Seq<Action>) -> Next {
    (At::Over, before.push(Action::Release), Ask::Over)
}

/// What follows an answer. An answer to another question ends the test.
pub open spec fn next(test: DriveTest, at: At, answer: Answer) -> Next {
    match (at, answer) {
        (At::Boot, Answer::Yes(initialized)) => (
            At::Countdown,
            if initialized {
                seq![Action::SetFusion(DmpFusionMode::Axis6)]
            } else {
                seq![Action::Raise(Events::Initialize), Action::SetFusion(DmpFusionMode::Axis6)]
            },
            Ask::WaitOrStop(countdown_ms(test)),
        ),
        (At::Countdown, Answer::Yes(false)) => go_on(test, 0, Seq::empty()),
        (At::Check(leg), Answer::Yes(false)) => drive(test, leg, Seq::empty()),
        (At::Drive(leg), Answer::Driven(_)) => match test {
            DriveTest::Straight => (At::Settle(leg), Seq::empty(), Ask::Submit(settle_queue())),
            DriveTest::Turns => go_on(
                test,
                (leg + 1) as usize,
                seq![Action::Drive(DriveAction::Coast)],
            ),
            DriveTest::Arc => go_on(test, (leg + 1) as usize, Seq::empty()),
        },
        (At::Settle(leg), Answer::Driven(_)) => go_on(test, (leg + 1) as usize, Seq::empty()),
        (At::Drive(_), Answer::Refused(reason)) => leave(seq![Action::Fail(reason)]),
        (At::Settle(_), Answer::Refused(reason)) => leave(seq![Action::Fail(reason)]),
        (At::Finale, _) => (At::Over, seq![Action::Complete(done_line(test))], Ask::Over),
        (At::Over, _) => (At::Over, Seq::empty(), Ask::Over),
        _ => leave(Seq::empty()),
    }
}

/// One run of a driving test.
#[derive(Debug)]
pub struct DriveTestRun {
    test: DriveTest,
    at: At,
}

impl DriveTestRun {
    /// Which test runs.
    pub closed spec fn test(&self) -> DriveTest {
        self.test
    }

    /// Where it stands.
    pub closed spec fn view(&self) -> At {
        self.at
    }

    /// It stands at a leg it has.
    pub closed spec fn wf(&self) -> bool {
        reachable(self.test, self.at)
    }

    /// A run at its start; its first question is whether the calibration data is
    /// known.
    pub fn new(test: DriveTest) -> (run: Self)
        ensures
            run.wf(),
            run.test() == test,
            run@ == At::Boot,
    {
        DriveTestRun { test, at: At::Boot }
    }

    /// Take the answer to the last question.
    pub fn answer(&mut self, answer: Answer) -> (turn: Turn)
        requires
            old(self).wf(),
        ensures
            final(self).wf(),
            final(self).test() == old(self).test(),
            ({
                let (at, actions, ask) = next(old(self).test(), old(self)@, answer);
                final(self)@ == at && turn@ == (actions, ask)
            }),
    {
        let mut actions: Vec<Action> = Vec::new();
        match (self.at, answer) {
            (At::Boot, Answer::Yes(initialized)) => {
                if !initialized {
                    actions.push(Action::Raise(Events::Initialize));
                }
                actions.push(Action::SetFusion(DmpFusionMode::Axis6));
                assert(actions@ =~= next(self.test, self.at, answer).1);
                self.at = At::Countdown;
                let countdown: u64 = match self.test {
                    DriveTest::Straight | DriveTest::Turns => 5_000,
                    DriveTest::Arc => 10_000,
                };
                Turn::new(actions, Ask::WaitOrStop(countdown))
            },
            (At::Countdown, Answer::Yes(false)) => self.go_on(0, actions),
            (At::Check(leg), Answer::Yes(false)) => self.drive(leg, actions),
            (At::Drive(leg), Answer::Driven(_)) => match self.test {
                DriveTest::Straight => {
                    self.at = At::Settle(leg);
                    Turn::asking(Ask::Submit(build_settle()))
                },
                DriveTest::Turns => {
                    actions.push(Action::Drive(DriveAction::Coast));
                    assert(actions@ =~= seq![Action::Drive(DriveAction::Coast)]);
                    self.go_on(leg + 1, actions)
                },
                DriveTest::Arc => self.go_on(leg + 1, actions),
            },
            (At::Settle(leg), Answer::Driven(_)) => self.go_on(leg + 1, actions),
            (At::Drive(_), Answer::Refused(reason)) | (At::Settle(_), Answer::Refused(reason)) => {
                actions.push(Action::Fail(reason));
                assert(actions@ =~= seq![Action::Fail(reason)]);
                self.leave(actions)
            },
            (At::Finale, _) => {
                self.at = At::Over;
                actions.push(Action::Complete("Turns complete"));
                assert(actions@ =~= seq![Action::Complete("Turns complete")]);
                Turn::new(actions, Ask::Over)
            },
            (At::Over, _) => Turn::asking(Ask::Over),
            _ => self.leave(actions),
        }
    }

    /// Go on to a leg, or to the end after the last one.
    fn go_on(&mut self, leg: usize, actions: Vec<Action>) -> (turn: Turn)
        requires
            leg <= leg_count(old(self).test()),
        ensures
            final(self).wf(),
            final(self).test() == old(self).test(),
            ({
                let (at, expected, ask) = go_on(old(self).test(), leg, actions@);
                final(self)@ == at && turn@ == (expected, ask)
            }),
    {
        let mut actions = actions;
        match self.test {
            DriveTest::Arc => {
                if leg < 1 {
                    return self.drive(leg, actions);
                }
                self.at = At::Over;
                actions.push(Action::Complete("Arc drive complete"));
                Turn::new(actions, Ask::Over)
            },
            DriveTest::Straight => {
                if leg < 2 {
                    self.at = At::Check(leg);
                    return Turn::new(actions, Ask::StopRequested);
                }
                self.at = At::Over;
                actions.push(Action::Drive(DriveAction::Coast));
                actions.push(Action::Complete("Straight drive complete"));
                Turn::new(actions, Ask::Over)
            },
            DriveTest::Turns => {
                if leg < 4 {
                    self.at = At::Check(leg);
                    return Turn::new(actions, Ask::StopRequested);
                }
                self.at = At::Finale;
                Turn::new(actions, Ask::WaitOrStop(TURNS_SETTLE_MS))
            },
        }
    }

    /// Drive a leg.
    fn drive(&mut self, leg: usize, actions: Vec<Action>) -> (turn: Turn)
        requires
            leg < leg_count(old(self).test()),
        ensures
            final(self).wf(),
            final(self).test() == old(self).test(),
            ({
                let (at, expected, ask) = drive(old(self).test(), leg, actions@);
                final(self)@ == at && turn@ == (expected, ask)
            }),
    {
        let mut actions = actions;
        let (phase, count, queue) = match self.test {
            DriveTest::Straight => if leg == 0 {
                ("Forward 150 cm", 2usize, build_leg(DriveDirection::Forward))
            } else {
                ("Backward 150 cm", 2usize, build_leg(DriveDirection::Backward))
            },
            DriveTest::Turns => if leg == 0 {
                ("90 deg at 40", 4usize, build_turn_queue(40))
            } else if leg == 1 {
                ("90 deg at 60", 4usize, build_turn_queue(60))
            } else if leg == 2 {
                ("90 deg at 80", 4usize, build_turn_queue(80))
            } else {
                ("90 deg at 100", 4usize, build_turn_queue(100))
            },
            DriveTest::Arc => ("360 deg, r=100 cm", 1usize, build_arc_queue()),
        };
        self.at = At::Drive(leg);
        actions.push(Action::Phase(phase, Some(activity::percent_done(leg, count))));
        Turn::new(actions, Ask::Submit(queue))
    }

    /// Leave without a result.
    fn leave(&mut self, actions: Vec<Action>) -> (turn: Turn)
        ensures
            final(self).wf(),
            final(self).test() == old(self).test(),
            ({
                let (at, expected, ask) = leave(actions@);
                final(self)@ == at && turn@ == (expected, ask)
            }),
    {
        let mut actions = actions;
        self.at = At::Over;
        actions.push(Action::Release);
        Turn::new(actions, Ask::Over)
    }
}

/// The run can stand here: the leg exists, and only the turns wait at the end.
pub open spec fn reachable(test: DriveTest, at: At) -> bool {
    match at {
        At::Check(leg) => leg < leg_count(test),
        At::Drive(leg) => leg < leg_count(test),
        At::Settle(leg) => leg < leg_count(test),
        At::Finale => test is Turns,
        _ => true,
    }
}

/// A driving test ends with success only from its last leg: no answer before that
/// one reports completion, so no leg is ever skipped.
pub proof fn law_success_needs_the_last_leg(test: DriveTest, at: At, answer: Answer, done: &'static str)
    requires
        reachable(test, at),
        next(test, at, answer).1.contains(Action::Complete(done)),
    ensures
        at is Finale || (at matches At::Drive(leg) && leg + 1 == leg_count(test)) || (
        at matches At::Settle(leg) && leg + 1 == leg_count(test)),
        at is Drive || at is Settle ==> answer is Driven,
{
}

/// Legs are driven in order: after leg `leg` the next one asked about is the one
/// behind it.
pub proof fn law_legs_in_order(test: DriveTest, leg: usize, answer: Answer)
    requires
        reachable(test, At::Drive(leg)),
    ensures
        ({
            let after = next(test, At::Drive(leg), answer).0;
            &&& after matches At::Check(other) ==> other == leg + 1
            &&& after matches At::Drive(other) ==> other == leg + 1
            &&& after matches At::Settle(other) ==> other == leg
        }),
{
}

/// A stop seen during the countdown or between legs ends the test at once: nothing
/// is driven any more and nothing is reported but the release of the slot.
pub proof fn law_stop_ends_the_test(test: DriveTest, at: At)
    requires
        at is Countdown || at is Check,
    ensures
        next(test, at, Answer::Yes(true)) == (At::Over, seq![Action::Release], Ask::Over),
{
    assert(Seq::<Action>::empty().push(Action::Release) =~= seq![Action::Release]);
}

/// The straight drive ends where it began: its two legs are the same metre and a half
/// at the same speed, first forward, then backward.
pub proof fn law_straight_legs_undo_each_other()
    ensures
        ({
            let out = queue_of(DriveTest::Straight, 0);
            let back = queue_of(DriveTest::Straight, 1);
            &&& leg_count(DriveTest::Straight) == 2
            &&& out.second is None && back.second is None
            &&& out.first matches DriveAction::DriveDistance { kind, direction, speed }
            &&& kind == (DriveDistanceKind::Straight { distance_um: 1_500_000 })
            &&& direction is Forward
            &&& speed == 70
            &&& back.first matches DriveAction::DriveDistance {
                kind: same,
                direction: other,
                speed: as_fast,
            }
            &&& same == kind
            &&& other is Backward
            &&& as_fast == speed
        }),
{
}

/// The turns add up to a full turn clockwise: four quarters, each twenty faster than
/// the one before it, up to full speed.
pub proof fn law_turns_make_a_full_turn(leg: usize)
    requires
        leg < 4,
    ensures
        leg_count(DriveTest::Turns) * TURN_UDEG == 360_000_000,
        queue_of(DriveTest::Turns, leg).second is None,
        queue_of(DriveTest::Turns, leg).first matches DriveAction::RotateExact {
            rotation_udeg,
            towards,
            speed,
        } && rotation_udeg == 90_000_000 && towards is Clockwise && speed == 40 + 20 * leg,
{
}

/// The circle closes: one leg forward to the left whose length is two pi times its
/// radius, to the micrometre.
pub proof fn law_arc_closes_the_circle()
    ensures
        ({
            let queue = queue_of(DriveTest::Arc, 0);
            &&& leg_count(DriveTest::Arc) == 1
            &&& queue.second is None
            &&& queue.first matches DriveAction::DriveDistance { kind, direction, speed }
            &&& direction is Forward
            &&& speed == 60
            &&& kind matches DriveDistanceKind::CurveArc {
                radius_um,
                arc_length_um,
                direction: bend,
            }
            &&& bend is Left
            &&& radius_um == 1_000_000
            &&& 710 * radius_um - 113 < 113 * arc_length_um < 710 * radius_um + 113
        }),
{
}

/// A test begins by making sure the calibration data is asked for, and without the
/// magnetometer; it gives the operator five seconds, the circle ten.
pub proof fn law_countdown_comes_first(test: DriveTest, initialized: bool)
    ensures
        ({
            let (at, actions, ask) = next(test, At::Boot, Answer::Yes(initialized));
            &&& at is Countdown
            &&& actions.last() == Action::SetFusion(DmpFusionMode::Axis6)
            &&& actions.len() == 1 <==> initialized
            &&& !initialized ==> actions.len() == 2 && actions[0] == Action::Raise(
                Events::Initialize,
            )
            &&& ask == Ask::WaitOrStop(
                if test is Arc {
                    10_000
                } else {
                    5_000
                },
            )
        }),
{
}

/// A leg is announced before it is driven, with the share of the legs behind it.
pub proof fn law_leg_is_announced(test: DriveTest, leg: usize)
    requires
        leg < leg_count(test),
        test !is Arc,
    ensures
        ({
            let (at, actions, ask) = next(test, At::Check(leg), Answer::Yes(false));
            &&& at == At::Drive(leg)
            &&& ask == Ask::Submit(queue_of(test, leg))
            &&& actions.len() == 1
            &&& actions[0] matches Action::Phase(_, Some(percent))
            &&& percent * leg_count(test) == 100 * leg
        }),
{
    let total: int = leg_count(test) as int;
    assert((leg * 100) / total * total == 100 * leg && (leg * 100) / total <= 100) by (
        nonlinear_arith)
        requires
            total == 2 || total == 4,
            leg < total,
    ;
}

/// A straight leg is braked and given half a second to settle; a turn is coasted; a
/// queue that cannot be driven fails the test with its reason, and nothing follows.
pub proof fn law_leg_is_followed_up(
    test: DriveTest,
    leg: usize,
    status: CompletionStatus,
    reason: &'static str,
)
    requires
        leg < leg_count(test),
    ensures
        test is Straight ==> {
            let (at, actions, ask) = next(test, At::Drive(leg), Answer::Driven(status));
            &&& at == At::Settle(leg)
            &&& actions.len() == 0
            &&& ask matches Ask::Submit(queue)
            &&& queue.first is Brake
            &&& queue.second == Some(DriveAction::Idle { duration_ms: 500 })
        },
        test is Turns ==> {
            let (at, actions, ask) = next(test, At::Drive(leg), Answer::Driven(status));
            &&& actions == seq![Action::Drive(DriveAction::Coast)]
            &&& leg == 3 <==> at is Finale
            &&& leg < 3 ==> at == At::Check((leg + 1) as usize) && ask is StopRequested
            &&& leg == 3 ==> ask == Ask::WaitOrStop(1_000)
        },
        next(test, At::Drive(leg), Answer::Refused(reason)) == (
            At::Over,
            seq![Action::Fail(reason), Action::Release],
            Ask::Over,
        ),
        next(test, At::Settle(leg), Answer::Refused(reason)) == (
            At::Over,
            seq![Action::Fail(reason), Action::Release],
            Ask::Over,
        ),
{
    assert(seq![Action::Fail(reason)].push(Action::Release) =~= seq![
        Action::Fail(reason),
        Action::Release,
    ]);
}

/// Whatever a test answers before a leg, it drives that leg: the straight test forward and
/// back again, the turns clockwise and ever faster.
pub proof fn law_answer_drives_the_leg(run: &mut DriveTestRun, leg: usize, turn: Turn)
    requires
        old(run)@ == At::Check(leg),
        call_ensures(DriveTestRun::answer, (run, Answer::Yes(false)), turn),
    ensures
        final(run)@ == At::Drive(leg),
        turn.ask is Submit,
        old(run).test() is Straight ==> turn.ask->Submit_0.first == (DriveAction::DriveDistance {
            kind: DriveDistanceKind::Straight { distance_um: 1_500_000 },
            direction: if leg == 0 {
                DriveDirection::Forward
            } else {
                DriveDirection::Backward
            },
            speed: 70,
        }),
        old(run).test() is Turns && leg < 4 ==> turn.ask->Submit_0.first == (
        DriveAction::RotateExact {
            rotation_udeg: 90_000_000,
            towards: RotationDirection::Clockwise,
            speed: (40 + 20 * leg) as u8,
        }),
{
    let (at, actions, ask) = next(old(run).test(), At::Check(leg), Answer::Yes(false));
    assert(turn@ == (actions, ask));
}

/// A leg is shown as what it drives, and a finished test as what it was.
pub proof fn law_legs_are_shown_as_driven(test: DriveTest, leg: usize)
    requires
        leg < leg_count(test),
    ensures
        test is Straight && queue_of(test, leg) == leg_queue(DriveDirection::Forward)
            ==> leg_phase(test, leg) == "Forward 150 cm",
        test is Straight && queue_of(test, leg) == leg_queue(DriveDirection::Backward)
            ==> leg_phase(test, leg) == "Backward 150 cm",
        test is Turns && queue_of(test, leg) == turn_queue(40) ==> leg_phase(test, leg)
            == "90 deg at 40",
        test is Turns && queue_of(test, leg) == turn_queue(60) ==> leg_phase(test, leg)
            == "90 deg at 60",
        test is Turns && queue_of(test, leg) == turn_queue(80) ==> leg_phase(test, leg)
            == "90 deg at 80",
        test is Turns && queue_of(test, leg) == turn_queue(100) ==> leg_phase(test, leg)
            == "90 deg at 100",
        test is Arc ==> leg_phase(test, leg) == "360 deg, r=100 cm",
        test is Straight ==> done_line(test) == "Straight drive complete",
        test is Turns ==> done_line(test) == "Turns complete",
        test is Arc ==> done_line(test) == "Arc drive complete",
{
}

/// A finished test says so after its last leg, the straight one from a coast.
pub proof fn law_finished_test_says_so(status: CompletionStatus, answer: Answer)
    ensures
        next(DriveTest::Straight, At::Settle(1), Answer::Driven(status)) == (
            At::Over,
            seq![
                Action::Drive(DriveAction::Coast),
                Action::Complete("Straight drive complete"),
            ],
            Ask::Over,
        ),
        next(DriveTest::Turns, At::Finale, answer) == (
            At::Over,
            seq![Action::Complete("Turns complete")],
            Ask::Over,
        ),
        next(DriveTest::Arc, At::Drive(0), Answer::Driven(status)) == (
            At::Over,
            seq![Action::Complete("Arc drive complete")],
            Ask::Over,
        ),
{
    assert(Seq::<Action>::empty().push(Action::Drive(DriveAction::Coast)).push(
        Action::Complete("Straight drive complete"),
    ) =~= seq![Action::Drive(DriveAction::Coast), Action::Complete("Straight drive complete")]);
    assert(Seq::<Action>::empty().push(Action::Complete("Arc drive complete")) =~= seq![
        Action::Complete("Arc drive complete"),
    ]);
}

} // verus!
