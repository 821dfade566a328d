//! Coast and avoid: drive forward until something is ahead, back up, turn by a random
//! angle, go on.
//!
//! The sensor is up before the robot drives; a stop that lands while it is still
//! warming abandons the start. Without the LiDAR the mode never drives: the downward
//! rangefinder sees floor drops, not obstacles.

use vstd::prelude::*;

use nanorand::Rng;

use crate::system::event::Events;
use crate::task::dialogue::{Action, Answer, Ask, Turn};
use crate::task::motor_driver::MotorCommand;
use crate::task::sensors::lidar::LidarStatus;

verus! {

/// Speed forward.
pub const FORWARD_SPEED: i8 = 80;

/// Speed backward.
pub const REVERSE_SPEED: i8 = -60;

/// Speed of a turn.
pub const TURN_SPEED: i8 = 60;

/// Smallest random turn, in degrees.
pub const TURN_ANGLE_MIN: u8 = 45;

/// Largest random turn, in degrees.
pub const TURN_ANGLE_MAX: u8 = 180;

/// How long to back up, in milliseconds.
pub const BACKUP_DURATION_MS: u64 = 600;

/// Time between two looks ahead, in milliseconds.
pub const PERCEPTION_CHECK_INTERVAL_MS: u64 = 100;

/// How long a quarter turn takes, in milliseconds.
pub const TURN_90_DEG_MS: u64 = 500;

/// Time between two looks at the LiDAR's status, in milliseconds.
pub const LIDAR_STATUS_POLL_MS: u64 = 50;

/// Why the mode could not start.
#[derive(Debug, Clone, Copy, PartialEq, Eq, Structural)]
pub enum StartError {
    /// Another autonomous mode is active.
    Busy,
    /// The LiDAR could not be enabled.
    LidarUnavailable,
    /// A stop arrived while the LiDAR was warming.
    Cancelled,
}

impl StartError {
    /// A short description for the running screen.
    pub fn label(self) -> (label: &'static str)
        ensures
            label@ == (match self {
                StartError::Busy => "LiDAR busy"@,
                StartError::LidarUnavailable => "LiDAR unavailable"@,
                StartError::Cancelled => "Stopped"@,
            }),
    {
        match self {
            StartError::Busy => "LiDAR busy",
            StartError::LidarUnavailable => "LiDAR unavailable",
            StartError::Cancelled => "Stopped",
        }
    }
}

/// The flags a start and a stop share.
#[derive(Debug, Clone, Copy, PartialEq, Eq, Structural)]
pub struct CoastControl {
    /// Whether the mode runs.
    pub active: bool,
    /// Whether a stop has been asked for since the last start began.
    pub stop_requested: bool,
}

/// Ask the mode to stop: the loop ends, and a start that waits for the LiDAR gives up.
pub fn stop(control: &mut CoastControl)
    ensures
        *final(control) == (CoastControl { active: false, stop_requested: true }),
{
    control.active = false;
    control.stop_requested = true;
}

/// What the start is waiting for.
#[derive(Debug, Clone, Copy, PartialEq, Eq, Structural)]
pub enum StartPhase {
    /// The LiDAR to leave its failed status.
    Resetting,
    /// The LiDAR to stream.
    Warming,
    /// The autonomous slot.
    Requesting,
    /// Nothing.
    Over,
}

/// What to ask of the LiDAR.
#[derive(Debug, Clone, Copy, PartialEq, Eq, Structural)]
pub enum LidarRequest {
    /// Nothing.
    Nothing,
    /// Enable it.
    Enable,
    /// Disable it.
    Disable,
}

/// What to do after that.
#[derive(Debug, Clone, Copy, PartialEq, Eq, Structural)]
pub enum AfterRequest {
    /// Look at the stop flag and the status at once.
    PollNow,
    /// Look at them after the poll interval.
    PollLater,
    /// Ask for the autonomous slot.
    RequestSlot,
    /// Report that the mode runs.
    Started,
    /// Report why it does not.
    Refused(StartError),
}

/// A step of the start.
#[derive(Debug, Clone, Copy, PartialEq, Eq, Structural)]
pub struct StartStep {
    /// What to ask of the LiDAR.
    pub lidar: LidarRequest,
    /// What to do after that.
    pub after: AfterRequest,
}

/// The phase and step a start begins with: a failed LiDAR is reset first.
pub open spec fn start_begins(status: LidarStatus) -> (StartPhase, StartStep) {
    if status is Failed {
        (
            StartPhase::Resetting,
            StartStep { lidar: LidarRequest::Disable, after: AfterRequest::PollNow },
        )
    } else {
        (
            StartPhase::Warming,
            StartStep { lidar: LidarRequest::Enable, after: AfterRequest::PollNow },
        )
    }
}

/// The phase and step after a look at the stop flag and the status.
pub open spec fn start_polled(
    phase: StartPhase,
    stop_requested: bool,
    status: LidarStatus,
) -> (StartPhase, StartStep) {
    match phase {
        StartPhase::Resetting => if stop_requested {
            (
                StartPhase::Over,
                StartStep {
                    lidar: LidarRequest::Nothing,
                    after: AfterRequest::Refused(StartError::Cancelled),
                },
            )
        } else if status !is Failed {
            (
                StartPhase::Warming,
                StartStep { lidar: LidarRequest::Enable, after: AfterRequest::PollNow },
            )
        } else {
            (
                StartPhase::Resetting,
                StartStep { lidar: LidarRequest::Nothing, after: AfterRequest::PollLater },
            )
        },
        StartPhase::Warming => if stop_requested {
            (
                StartPhase::Over,
                StartStep {
                    lidar: LidarRequest::Disable,
                    after: AfterRequest::Refused(StartError::Cancelled),
                },
            )
        } else {
            match status {
                LidarStatus::Streaming => (
                    StartPhase::Requesting,
                    StartStep { lidar: LidarRequest::Nothing, after: AfterRequest::RequestSlot },
                ),
                LidarStatus::Failed => (
                    StartPhase::Over,
                    StartStep {
                        lidar: LidarRequest::Disable,
                        after: AfterRequest::Refused(StartError::LidarUnavailable),
                    },
                ),
                _ => (
                    StartPhase::Warming,
                    StartStep { lidar: LidarRequest::Nothing, after: AfterRequest::PollLater },
                ),
            }
        },
        StartPhase::Requesting => (
            phase,
            StartStep { lidar: LidarRequest::Nothing, after: AfterRequest::RequestSlot },
        ),
        StartPhase::Over => (
            phase,
            StartStep {
                lidar: LidarRequest::Nothing,
                after: AfterRequest::Refused(StartError::Cancelled),
            },
        ),
    }
}

/// One start of the mode.
#[derive(Debug, Clone, Copy, PartialEq, Eq, Structural)]
pub struct CoastStart {
    /// What it is waiting for.
    pub phase: StartPhase,
}

impl CoastStart {
    /// Begin a start: a stop from an earlier run no longer counts.
    pub fn begin(control: &mut CoastControl, status: LidarStatus) -> (begun: (Self, StartStep))
        ensures
            *final(control) == (CoastControl { stop_requested: false, ..*old(control) }),
            (begun.0.phase, begun.1) == start_begins(status),
    {
        control.stop_requested = false;
        match status {
            LidarStatus::Failed => (
                CoastStart { phase: StartPhase::Resetting },
                StartStep { lidar: LidarRequest::Disable, after: AfterRequest::PollNow },
            ),
            _ => (
                CoastStart { phase: StartPhase::Warming },
                StartStep { lidar: LidarRequest::Enable, after: AfterRequest::PollNow },
            ),
        }
    }

    /// Look at the stop flag and the LiDAR's status. The mode becomes active before
    /// its slot is asked for.
    pub fn poll(&mut self, control: &mut CoastControl, status: LidarStatus) -> (step: StartStep)
        ensures
            (final(self).phase, step) == start_polled(
                old(self).phase,
                old(control).stop_requested,
                status,
            ),
            *final(control) == (if old(self).phase is Warming && final(self).phase is Requesting {
                CoastControl { active: true, ..*old(control) }
            } else {
                *old(control)
            }),
    {
        match self.phase {
            StartPhase::Resetting => {
                if control.stop_requested {
                    self.phase = StartPhase::Over;
                    return StartStep {
                        lidar: LidarRequest::Nothing,
                        after: AfterRequest::Refused(StartError::Cancelled),
                    };
                }
                match status {
                    LidarStatus::Failed => StartStep {
                        lidar: LidarRequest::Nothing,
                        after: AfterRequest::PollLater,
                    },
                    _ => {
                        self.phase = StartPhase::Warming;
                        StartStep { lidar: LidarRequest::Enable, after: AfterRequest::PollNow }
                    },
                }
            },
            StartPhase::Warming => {
                if control.stop_requested {
                    self.phase = StartPhase::Over;
                    return StartStep {
                        lidar: LidarRequest::Disable,
                        after: AfterRequest::Refused(StartError::Cancelled),
                    };
                }
                match status {
                    LidarStatus::Streaming => {
                        self.phase = StartPhase::Requesting;
                        control.active = true;
                        StartStep {
                            lidar: LidarRequest::Nothing,
                            after: AfterRequest::RequestSlot,
                        }
                    },
                    LidarStatus::Failed => {
                        self.phase = StartPhase::Over;
                        StartStep {
                            lidar: LidarRequest::Disable,
                            after: AfterRequest::Refused(StartError::LidarUnavailable),
                        }
                    },
                    LidarStatus::Off | LidarStatus::Warming => StartStep {
                        lidar: LidarRequest::Nothing,
                        after: AfterRequest::PollLater,
                    },
                }
            },
            StartPhase::Requesting => StartStep {
                lidar: LidarRequest::Nothing,
                after: AfterRequest::RequestSlot,
            },
            StartPhase::Over => StartStep {
                lidar: LidarRequest::Nothing,
                after: AfterRequest::Refused(StartError::Cancelled),
            },
        }
    }

    /// Learn whether the autonomous slot was granted.
    pub fn on_slot(&mut self, control: &mut CoastControl, granted: bool) -> (step: StartStep)
        ensures
            final(self).phase == StartPhase::Over,
            granted ==> *final(control) == *old(control) && step == (StartStep {
                lidar: LidarRequest::Nothing,
                after: AfterRequest::Started,
            }),
            !granted ==> *final(control) == (CoastControl { active: false, ..*old(control) })
                && step == (StartStep {
                lidar: LidarRequest::Disable,
                after: AfterRequest::Refused(StartError::Busy),
            }),
    {
        self.phase = StartPhase::Over;
        if granted {
            StartStep { lidar: LidarRequest::Nothing, after: AfterRequest::Started }
        } else {
            control.active = false;
            StartStep {
                lidar: LidarRequest::Disable,
                after: AfterRequest::Refused(StartError::Busy),
            }
        }
    }
}

/// A refused start leaves the LiDAR disabled: every refusal comes with a disable,
/// but for a stop while a failed LiDAR was being disabled already.
pub proof fn law_refusal_disables_the_lidar(
    phase: StartPhase,
    stop_requested: bool,
    status: LidarStatus,
)
    requires
        phase is Resetting || phase is Warming,
        start_polled(phase, stop_requested, status).1.after is Refused,
    ensures
        start_polled(phase, stop_requested, status).1.lidar is Disable || phase is Resetting,
{
}

/// The mode asks for its slot only once the LiDAR streams, and never after a stop.
pub proof fn law_never_starts_without_the_lidar(
    phase: StartPhase,
    stop_requested: bool,
    status: LidarStatus,
)
    requires
        phase !is Requesting,
        start_polled(phase, stop_requested, status).1.after is RequestSlot,
    ensures
        status is Streaming,
        !stop_requested,
{
}

/// What the mode is doing.
#[derive(Debug, Clone, Copy, PartialEq, Eq, Structural)]
pub enum State {
    /// Driving forward.
    Forward,
    /// Backing up.
    BackingUp,
    /// Turning.
    Turning,
}

/// Where the mode stands: which question it has asked.
#[derive(Debug, Clone, Copy, PartialEq, Eq, Structural)]
pub enum At {
    /// Whether to stop before this.
    Begin(State),
    /// Whether to stop while driving forward.
    Cruise,
    /// Whether something is ahead.
    Look,
    /// Whether to stop after backing up.
    Backed,
    /// Whether to stop after turning.
    Turned,
    /// The time, for the next random turn.
    Reroll,
    /// Nothing.
    Over,
}

/// The mode as it runs.
#[derive(Debug, Clone, Copy, PartialEq, Eq, Structural)]
pub struct CoastRun {
    /// Where it stands.
    pub at: At,
    /// The next turn, in degrees.
    pub turn_degrees: u8,
    /// Whether the next turn is clockwise.
    pub clockwise: bool,
}

/// How long a turn takes, in milliseconds.
pub open spec fn turn_ms(degrees: u8) -> int {
    degrees * TURN_90_DEG_MS / 90
}

/// The command of a turn.
pub open spec fn turning(clockwise: bool) -> MotorCommand {
    if clockwise {
        MotorCommand::SetTracks { left_speed: TURN_SPEED, right_speed: (-TURN_SPEED) as i8 }
    } else {
        MotorCommand::SetTracks { left_speed: (-TURN_SPEED) as i8, right_speed: TURN_SPEED }
    }
}

/// Brake and stand still.
pub open spec fn braking() -> Seq<Action> {
    seq![Action::Motor(MotorCommand::BrakeAll), Action::Delay(200)]
}

/// What the mode does next.
pub type Next = (CoastRun, Seq<Action>, Ask);

/// Ask whether to stop before a state.
pub open spec fn before(run: CoastRun, state: State, actions: Seq<Action>) -> Next {
    (CoastRun { at: At::Begin(state), ..run }, actions, Ask::StopRequested)
}

/// The mode ends: brake, drivers off, LiDAR off, slot free.
pub open spec fn ended(run: CoastRun) -> Next {
    (
        CoastRun { at: At::Over, ..run },
        braking() + seq![
            Action::Motor(MotorCommand::SetAllDriversEnable { enabled: false }),
            Action::DisableLidar,
            Action::Release,
        ],
        Ask::Over,
    )
}

/// A state begins.
pub open spec fn entered(run: CoastRun, state: State) -> Next {
    match state {
        State::Forward => (
            CoastRun { at: At::Cruise, ..run },
            seq![
                Action::Motor(
                    MotorCommand::SetTracks {
                        left_speed: FORWARD_SPEED,
                        right_speed: FORWARD_SPEED,
                    },
                ),
            ],
            Ask::StopRequested,
        ),
        State::BackingUp => (
            CoastRun { at: At::Backed, ..run },
            seq![
                Action::Motor(
                    MotorCommand::SetTracks {
                        left_speed: REVERSE_SPEED,
                        right_speed: REVERSE_SPEED,
                    },
                ),
                Action::Delay(BACKUP_DURATION_MS),
            ],
            Ask::StopRequested,
        ),
        State::Turning => (
            CoastRun { at: At::Turned, ..run },
            seq![
                Action::Motor(turning(run.clockwise)),
                Action::Delay(turn_ms(run.turn_degrees) as u64),
            ],
            Ask::StopRequested,
        ),
    }
}

/// The mode with another turn, the other way round.
pub open spec fn rerolled(run: CoastRun, degrees: u8) -> Next {
    before(
        CoastRun { turn_degrees: degrees, clockwise: !run.clockwise, ..run },
        State::Forward,
        Seq::empty(),
    )
}

/// What follows an answer, but for the time. An answer to another question ends the
/// mode.
pub open spec fn next(run: CoastRun, answer: Answer) -> Next {
    match (run.at, answer) {
        (At::Begin(_), Answer::Yes(true)) => ended(run),
        (At::Begin(state), Answer::Yes(false)) => entered(run, state),
        (At::Cruise, Answer::Yes(true)) => before(run, State::Forward, Seq::empty()),
        (At::Cruise, Answer::Yes(false)) => (
            CoastRun { at: At::Look, ..run },
            Seq::empty(),
            Ask::Hazard,
        ),
        (At::Look, Answer::Yes(true)) => before(run, State::BackingUp, braking()),
        (At::Look, Answer::Yes(false)) => (
            CoastRun { at: At::Cruise, ..run },
            seq![Action::Delay(PERCEPTION_CHECK_INTERVAL_MS)],
            Ask::StopRequested,
        ),
        (At::Backed, Answer::Yes(true)) => before(run, State::Forward, Seq::empty()),
        (At::Backed, Answer::Yes(false)) => before(run, State::Turning, braking()),
        (At::Turned, Answer::Yes(true)) => (
            CoastRun { at: At::Reroll, ..run },
            Seq::empty(),
            Ask::Micros,
        ),
        (At::Turned, Answer::Yes(false)) => (
            CoastRun { at: At::Reroll, ..run },
            braking().push(Action::Raise(Events::ObstacleAvoidanceAttempted)),
            Ask::Micros,
        ),
        (At::Over, _) => (run, Seq::empty(), Ask::Over),
        _ => ended(run),
    }
}

/// Calls `nanorand`'s `WyRand::new_seed` and `Rng::generate_range` on an inclusive
/// range of bytes. Trusted: the drawn number lies in the range. Which one it is
/// depends on the seed and on the machine's byte order, and is not stated.
#[verifier::external_body]
fn generate_range(seed: u64, low: u8, high: u8) -> (value: u8)
    requires
        low <= high,
    ensures
        (low <= value && value <= high),
{
    let mut rng = nanorand::WyRand::new_seed(seed);
    rng.generate_range(low..=high)
}

/// Draw a random turn, in degrees.
pub fn random_turn_angle(seed: u64) -> (degrees: u8)
    ensures
        TURN_ANGLE_MIN <= degrees <= TURN_ANGLE_MAX,
{
    generate_range(seed, TURN_ANGLE_MIN, TURN_ANGLE_MAX)
}

/// The actions that brake and stand still.
fn brake() -> (actions: Vec<Action>)
    ensures
        actions@ == braking(),
{
    let actions = vec![Action::Motor(MotorCommand::BrakeAll), Action::Delay(200)];
    assert(actions@ =~= braking());
    actions
}

impl CoastRun {
    /// The next turn lies in the range of turns.
    pub open spec fn wf(self) -> bool {
        TURN_ANGLE_MIN <= self.turn_degrees <= TURN_ANGLE_MAX
    }

    /// Begin: the run and its first turn.
    pub fn begin() -> (begun: (Self, Turn))
        ensures
            begun.0.wf(),
            begun.0 == (CoastRun {
                at: At::Begin(State::Forward),
                turn_degrees: TURN_ANGLE_MIN,
                clockwise: true,
            }),
            begun.1@ == (
                braking() + seq![
                    Action::Motor(MotorCommand::SetAllDriversEnable { enabled: true }),
                    Action::Delay(10),
                ],
                Ask::StopRequested,
            ),
    {
        let mut actions = brake();
        actions.push(Action::Motor(MotorCommand::SetAllDriversEnable { enabled: true }));
        actions.push(Action::Delay(10));
        assert(actions@ =~= braking() + seq![
            Action::Motor(MotorCommand::SetAllDriversEnable { enabled: true }),
            Action::Delay(10),
        ]);
        (
            CoastRun {
                at: At::Begin(State::Forward),
                turn_degrees: TURN_ANGLE_MIN,
                clockwise: true,
            },
            Turn::new(actions, Ask::StopRequested),
        )
    }

    /// Take the answer to the last question. The time, where it was asked for, seeds
    /// the next random turn.
    pub fn answer(&mut self, answer: Answer) -> (turn: Turn)
        requires
            old(self).wf(),
        ensures
            final(self).wf(),
            if old(self).at is Reroll && answer is Micros {
                exists|degrees: u8|
                    TURN_ANGLE_MIN <= degrees <= TURN_ANGLE_MAX && (
                    *final(self),
                    turn@.0,
                    turn@.1,
                ) == #[trigger] rerolled(*old(self), degrees)
            } else {
                (*final(self), turn@.0, turn@.1) == next(*old(self), answer)
            },
    {
        match (self.at, answer) {
            (At::Begin(_), Answer::Yes(true)) => self.end(),
            (At::Begin(state), Answer::Yes(false)) => self.enter(state),
            (At::Cruise, Answer::Yes(true)) => self.before(State::Forward, Vec::new()),
            (At::Cruise, Answer::Yes(false)) => {
                self.at = At::Look;
                Turn::asking(Ask::Hazard)
            },
            (At::Look, Answer::Yes(true)) => self.before(State::BackingUp, brake()),
            (At::Look, Answer::Yes(false)) => {
                self.at = At::Cruise;
                let actions = vec![Action::Delay(PERCEPTION_CHECK_INTERVAL_MS)];
                assert(actions@ =~= seq![Action::Delay(PERCEPTION_CHECK_INTERVAL_MS)]);
                Turn::new(actions, Ask::StopRequested)
            },
            (At::Backed, Answer::Yes(true)) => self.before(State::Forward, Vec::new()),
            (At::Backed, Answer::Yes(false)) => self.before(State::Turning, brake()),
            (At::Turned, Answer::Yes(stopped)) => {
                self.at = At::Reroll;
                if stopped {
                    return Turn::asking(Ask::Micros);
                }
                let mut actions = brake();
                actions.push(Action::Raise(Events::ObstacleAvoidanceAttempted));
                Turn::new(actions, Ask::Micros)
            },
            (At::Reroll, Answer::Micros(seed)) => {
                let degrees = random_turn_angle(seed);
                self.reroll(degrees)
            },
            (At::Over, _) => Turn::asking(Ask::Over),
            _ => self.end(),
        }
    }

    /// Take the next turn and flip its direction.
    pub fn reroll(&mut self, degrees: u8) -> (turn: Turn)
        requires
            TURN_ANGLE_MIN <= degrees <= TURN_ANGLE_MAX,
        ensures
            final(self).wf(),
            (*final(self), turn@.0, turn@.1) == rerolled(*old(self), degrees),
    {
        self.turn_degrees = degrees;
        self.clockwise = !self.clockwise;
        self.before(State::Forward, Vec::new())
    }

    /// Ask whether to stop before a state.
    fn before(&mut self, state: State, actions: Vec<Action>) -> (turn: Turn)
        ensures
            (*final(self), turn@.0, turn@.1) == before(*old(self), state, actions@),
    {
        self.at = At::Begin(state);
        Turn::new(actions, Ask::StopRequested)
    }

    /// Begin a state.
    fn enter(&mut self, state: State) -> (turn: Turn)
        requires
            old(self).wf(),
        ensures
            (*final(self), turn@.0, turn@.1) == entered(*old(self), state),
    {
        match state {
            State::Forward => {
                self.at = At::Cruise;
                let actions = vec![
                    Action::Motor(
                        MotorCommand::SetTracks {
                            left_speed: FORWARD_SPEED,
                            right_speed: FORWARD_SPEED,
                        },
                    ),
                ];
                assert(actions@ =~= entered(*old(self), state).1);
                Turn::new(actions, Ask::StopRequested)
            },
            State::BackingUp => {
                self.at = At::Backed;
                let actions = vec![
                    Action::Motor(
                        MotorCommand::SetTracks {
                            left_speed: REVERSE_SPEED,
                            right_speed: REVERSE_SPEED,
                        },
                    ),
                    Action::Delay(BACKUP_DURATION_MS),
                ];
                assert(actions@ =~= entered(*old(self), state).1);
                Turn::new(actions, Ask::StopRequested)
            },
            State::Turning => {
                self.at = At::Turned;
                let command = if self.clockwise {
                    MotorCommand::SetTracks { left_speed: TURN_SPEED, right_speed: -TURN_SPEED }
                } else {
                    MotorCommand::SetTracks { left_speed: -TURN_SPEED, right_speed: TURN_SPEED }
                };
                let duration: u64 = self.turn_degrees as u64 * TURN_90_DEG_MS / 90;
                let actions = vec![Action::Motor(command), Action::Delay(duration)];
                assert(actions@ =~= entered(*old(self), state).1);
                Turn::new(actions, Ask::StopRequested)
            },
        }
    }

    /// End the mode.
    fn end(&mut self) -> (turn: Turn)
        ensures
            (*final(self), turn@.0, turn@.1) == ended(*old(self)),
    {
        self.at = At::Over;
        let mut actions = brake();
        actions.push(Action::Motor(MotorCommand::SetAllDriversEnable { enabled: false }));
        actions.push(Action::DisableLidar);
        actions.push(Action::Release);
        assert(actions@ =~= ended(*old(self)).1);
        Turn::new(actions, Ask::Over)
    }
}

/// The robot never drives on towards something ahead: it brakes at once, and unless it
/// is stopped it backs up next.
pub proof fn law_hazard_brakes(run: CoastRun)
    requires
        run.at is Look,
    ensures
        ({
            let (braked, actions, ask) = next(run, Answer::Yes(true));
            &&& actions[0] == Action::Motor(MotorCommand::BrakeAll)
            &&& ask == Ask::StopRequested
            &&& next(braked, Answer::Yes(false)).1[0] == Action::Motor(
                MotorCommand::SetTracks { left_speed: REVERSE_SPEED, right_speed: REVERSE_SPEED },
            )
            &&& next(braked, Answer::Yes(true)) == ended(braked)
        }),
{
}

/// A stop is final: where the mode asks about it and learns of one, it ends at the next
/// such question at the latest, without a new movement.
pub proof fn law_stop_ends_the_mode(run: CoastRun, degrees: u8)
    requires
        run.at !is Over,
        run.at !is Look,
    ensures
        match run.at {
            At::Begin(_) => next(run, Answer::Yes(true)) == ended(run),
            At::Turned => {
                let turned = next(run, Answer::Yes(true)).0;
                turned.at is Reroll
            },
            At::Reroll => {
                let ready = rerolled(run, degrees).0;
                next(ready, Answer::Yes(true)) == ended(ready)
            },
            _ => {
                let (ready, actions, ask) = next(run, Answer::Yes(true));
                &&& actions.len() == 0
                &&& ask == Ask::StopRequested
                &&& next(ready, Answer::Yes(true)) == ended(ready)
            },
        },
{
}

/// A turn has the sense it is asked for: the tracks run against each other at the same
/// speed, the left one forward exactly for a clockwise turn. A turn the other way commands
/// the opposite speeds for as long.
pub proof fn law_turn_has_its_sense(run: CoastRun)
    requires
        run.at == At::Begin(State::Turning),
        run.wf(),
    ensures
        ({
            let (turned, actions, ask) = next(run, Answer::Yes(false));
            let (_, mirrored, _) = next(
                CoastRun { clockwise: !run.clockwise, ..run },
                Answer::Yes(false),
            );
            &&& ask == Ask::StopRequested
            &&& actions.len() == 2 && mirrored.len() == 2
            &&& actions[0] matches Action::Motor(
                MotorCommand::SetTracks { left_speed, right_speed },
            ) && {
                &&& left_speed + right_speed == 0
                &&& run.clockwise ==> left_speed == 60
                &&& !run.clockwise ==> right_speed == 60
                &&& mirrored[0] == Action::Motor(
                    MotorCommand::SetTracks { left_speed: right_speed, right_speed: left_speed },
                )
            }
            &&& mirrored[1] == actions[1]
            &&& turned.clockwise == run.clockwise
            &&& turned.turn_degrees == run.turn_degrees
        }),
{
}

/// A turn lasts in proportion to its angle: a quarter turn takes half a second, and the
/// duration is the whole milliseconds of the angle's share of it.
pub proof fn law_turn_lasts_as_its_angle(run: CoastRun)
    requires
        run.at == At::Begin(State::Turning),
        run.wf(),
    ensures
        next(run, Answer::Yes(false)).1[1] matches Action::Delay(milliseconds) && milliseconds * 90
            <= run.turn_degrees * 500 < (milliseconds + 1) * 90,
{
}

/// Turns alternate: the avoidance after one has the opposite sense and the newly drawn
/// angle, and the robot drives forward in between.
pub proof fn law_turns_alternate(run: CoastRun, degrees: u8)
    requires
        run.at is Reroll,
        TURN_ANGLE_MIN <= degrees <= TURN_ANGLE_MAX,
    ensures
        ({
            let (ready, actions, ask) = rerolled(run, degrees);
            &&& ready == (CoastRun {
                at: At::Begin(State::Forward),
                turn_degrees: degrees,
                clockwise: !run.clockwise,
            })
            &&& actions.len() == 0
            &&& ask == Ask::StopRequested
        }),
{
}

/// Forward is forward and back is back: both tracks run alike, forward until something is
/// ahead, backward for as long as backing up takes.
pub proof fn law_straight_moves_are_straight(run: CoastRun)
    requires
        run.at == At::Begin(State::Forward) || run.at == At::Begin(State::BackingUp),
    ensures
        ({
            let (moving, actions, ask) = next(run, Answer::Yes(false));
            &&& ask == Ask::StopRequested
            &&& actions[0] matches Action::Motor(
                MotorCommand::SetTracks { left_speed, right_speed },
            ) && left_speed == right_speed && {
                &&& run.at == At::Begin(State::Forward) ==> left_speed == 80 && actions.len() == 1
                    && moving.at is Cruise
                &&& run.at == At::Begin(State::BackingUp) ==> left_speed == -60 && actions.len()
                    == 2 && actions[1] == Action::Delay(600) && moving.at is Backed
            }
        }),
{
}

/// An avoidance runs its course: whatever is ahead, the robot brakes, backs up, brakes,
/// turns, brakes, reports the attempt and draws the next turn, asking about a stop before
/// each movement; with nothing ahead it drives on and looks again in a tenth of a second.
pub proof fn law_avoidance_runs_its_course(run: CoastRun)
    requires
        run.at is Look,
    ensures
        ({
            let halt = seq![Action::Motor(MotorCommand::BrakeAll), Action::Delay(200)];
            let (braked, stop, asked) = next(run, Answer::Yes(true));
            let backing = next(braked, Answer::Yes(false)).0;
            let (backed, stop_again, asked_again) = next(backing, Answer::Yes(false));
            let turning_now = next(backed, Answer::Yes(false)).0;
            let (turned, report, time) = next(turning_now, Answer::Yes(false));
            let (cruising, wait, looked) = next(run, Answer::Yes(false));
            &&& braked.at == At::Begin(State::BackingUp) && stop == halt && asked
                == Ask::StopRequested
            &&& backing.at is Backed
            &&& backed.at == At::Begin(State::Turning) && stop_again == halt && asked_again
                == Ask::StopRequested
            &&& turning_now.at is Turned
            &&& turned.at is Reroll && time == Ask::Micros
            &&& report == halt.push(Action::Raise(Events::ObstacleAvoidanceAttempted))
            &&& turned.clockwise == run.clockwise && turned.turn_degrees == run.turn_degrees
            &&& cruising.at is Cruise && wait == seq![Action::Delay(100)] && looked
                == Ask::StopRequested
            &&& next(cruising, Answer::Yes(false)) == (
                CoastRun { at: At::Look, ..cruising },
                Seq::<Action>::empty(),
                Ask::Hazard,
            )
        }),
{
}

/// The mode leaves the robot at rest: at its end it has braked, switched the drivers and
/// the LiDAR off and freed its slot, in this order, and it does nothing more.
pub proof fn law_end_leaves_the_robot_at_rest(run: CoastRun, answer: Answer)
    requires
        run.at is Begin,
    ensures
        ({
            let (over, actions, ask) = next(run, Answer::Yes(true));
            &&& over.at is Over && ask == Ask::Over
            &&& actions == seq![
                Action::Motor(MotorCommand::BrakeAll),
                Action::Delay(200),
                Action::Motor(MotorCommand::SetAllDriversEnable { enabled: false }),
                Action::DisableLidar,
                Action::Release,
            ]
            &&& next(over, answer) == (over, Seq::<Action>::empty(), Ask::Over)
        }),
{
    assert(next(run, Answer::Yes(true)).1 =~= seq![
        Action::Motor(MotorCommand::BrakeAll),
        Action::Delay(200),
        Action::Motor(MotorCommand::SetAllDriversEnable { enabled: false }),
        Action::DisableLidar,
        Action::Release,
    ]);
}

/// A start goes on as the LiDAR does: a failed one is switched off first and on once it
/// has left that status, a warming one is waited for, a streaming one is enough, and one
/// that fails while it warms is given up. A stop wins over all of them.
pub proof fn law_start_follows_the_lidar(
    phase: StartPhase,
    stop_requested: bool,
    status: LidarStatus,
)
    requires
        phase is Resetting || phase is Warming,
    ensures
        ({
            let (first, begun) = start_begins(status);
            let (after, step) = start_polled(phase, stop_requested, status);
            &&& status is Failed <==> first is Resetting && begun.lidar is Disable
            &&& status !is Failed <==> first is Warming && begun.lidar is Enable
            &&& begun.after is PollNow
            &&& stop_requested <==> step.after == AfterRequest::Refused(StartError::Cancelled)
            &&& !stop_requested && phase is Resetting ==> if status is Failed {
                after is Resetting && step.lidar is Nothing && step.after is PollLater
            } else {
                after is Warming && step.lidar is Enable && step.after is PollNow
            }
            &&& !stop_requested && phase is Warming ==> match status {
                LidarStatus::Streaming => after is Requesting && step.after is RequestSlot
                    && step.lidar is Nothing,
                LidarStatus::Failed => after is Over && step.lidar is Disable && step.after
                    == AfterRequest::Refused(StartError::LidarUnavailable),
                _ => after is Warming && step.lidar is Nothing && step.after is PollLater,
            }
            &&& stop_requested ==> after is Over && (step.lidar is Disable <==> phase is Warming)
        }),
{
}

/// Whatever the mode answers before a turn, the robot turns about itself in the sense the
/// turn has, for as long as its angle takes.
pub proof fn law_answer_turns_with_its_sense(run: &mut CoastRun, turn: Turn)
    requires
        old(run).at == At::Begin(State::Turning),
        old(run).wf(),
        call_ensures(CoastRun::answer, (run, Answer::Yes(false)), turn),
    ensures
        turn.actions@.len() == 2,
        turn.actions@[0] matches Action::Motor(
            MotorCommand::SetTracks { left_speed, right_speed },
        ) && left_speed + right_speed == 0 && left_speed == (if old(run).clockwise {
            60int
        } else {
            -60
        }),
        turn.actions@[1] matches Action::Delay(milliseconds) && milliseconds * 90 <= old(
            run,
        ).turn_degrees * 500 < (milliseconds + 1) * 90,
        turn.ask is StopRequested,
        final(run).clockwise == old(run).clockwise,
{
    let before = *old(run);
    law_turn_has_its_sense(before);
    law_turn_lasts_as_its_angle(before);
    assert(turn@ == (next(before, Answer::Yes(false)).1, next(before, Answer::Yes(false)).2));
}

/// Whatever the mode answers before a straight move, both tracks run alike: forward at
/// eighty, or backward at sixty for six tenths of a second.
pub proof fn law_answer_drives_straight(run: &mut CoastRun, turn: Turn)
    requires
        old(run).at == At::Begin(State::Forward) || old(run).at == At::Begin(State::BackingUp),
        old(run).wf(),
        call_ensures(CoastRun::answer, (run, Answer::Yes(false)), turn),
    ensures
        turn.actions@[0] matches Action::Motor(
            MotorCommand::SetTracks { left_speed, right_speed },
        ) && left_speed == right_speed && left_speed == (if old(run).at == At::Begin(
            State::Forward,
        ) {
            80int
        } else {
            -60
        }),
        old(run).at == At::Begin(State::BackingUp) ==> turn.actions@[1] == Action::Delay(600),
{
    let before = *old(run);
    law_straight_moves_are_straight(before);
    assert(turn@ == (next(before, Answer::Yes(false)).1, next(before, Answer::Yes(false)).2));
}

/// Whatever time it is, the next turn goes the other way round, by an eighth of a turn at
/// the least and half a turn at the most.
pub proof fn law_answer_draws_the_next_turn(run: &mut CoastRun, micros: u64, turn: Turn)
    requires
        old(run).at is Reroll,
        old(run).wf(),
        call_ensures(CoastRun::answer, (run, Answer::Micros(micros)), turn),
    ensures
        final(run).clockwise == !old(run).clockwise,
        45 <= final(run).turn_degrees <= 180,
        final(run).at == At::Begin(State::Forward),
        turn.actions@.len() == 0,
        turn.ask is StopRequested,
{
    let degrees = choose|degrees: u8|
        TURN_ANGLE_MIN <= degrees <= TURN_ANGLE_MAX && (*final(run), turn@.0, turn@.1)
            == #[trigger] rerolled(*old(run), degrees);
    assert(turn@ == (rerolled(*old(run), degrees).1, rerolled(*old(run), degrees).2));
}

/// A stop ends the mode and counts until the next start begins, which forgets it.
pub proof fn law_stop_counts_until_the_next_start(
    stopping: &mut CoastControl,
    starting: &mut CoastControl,
    status: LidarStatus,
    begun: (CoastStart, StartStep),
)
    requires
        call_ensures(stop, (stopping,), ()),
        call_ensures(CoastStart::begin, (starting, status), begun),
    ensures
        !final(stopping).active,
        final(stopping).stop_requested,
        !final(starting).stop_requested,
        final(starting).active == old(starting).active,
        status is Failed <==> begun.1.lidar is Disable,
        status !is Failed <==> begun.1.lidar is Enable,
        begun.1.after is PollNow,
{
}

/// A granted slot starts the mode; a refused one leaves it inactive and the LiDAR off.
pub proof fn law_slot_decides_the_start(
    start: &mut CoastStart,
    control: &mut CoastControl,
    granted: bool,
    step: StartStep,
)
    requires
        call_ensures(CoastStart::on_slot, (start, control, granted), step),
    ensures
        granted ==> step.after is Started && step.lidar is Nothing && final(control).active == old(
            control,
        ).active,
        !granted ==> step.after == AfterRequest::Refused(StartError::Busy) && step.lidar is Disable
            && !final(control).active,
        final(control).stop_requested == old(control).stop_requested,
        final(start).phase is Over,
{
}

/// The mode becomes active with the look that finds the LiDAR streaming, before its slot is
/// asked for, and no other look makes it so or unmakes it.
pub proof fn law_streaming_makes_active(
    start: &mut CoastStart,
    control: &mut CoastControl,
    status: LidarStatus,
    step: StartStep,
)
    requires
        call_ensures(CoastStart::poll, (start, control, status), step),
    ensures
        final(control).stop_requested == old(control).stop_requested,
        final(control).active <==> old(control).active || (old(start).phase is Warming && !old(
            control,
        ).stop_requested && status is Streaming),
        old(start).phase is Warming && !old(control).stop_requested && status is Streaming
            ==> step.after is RequestSlot && final(start).phase is Requesting,
        old(start).phase is Warming && old(control).stop_requested ==> step.after
            == AfterRequest::Refused(StartError::Cancelled) && step.lidar is Disable,
{
}

/// The mode begins at rest with the drivers on, forward, and its first turn is an eighth of
/// a turn clockwise.
pub proof fn law_mode_begins_at_rest(begun: (CoastRun, Turn))
    requires
        call_ensures(CoastRun::begin, (), begun),
    ensures
        begun.0.at == At::Begin(State::Forward),
        begun.0.clockwise,
        begun.0.turn_degrees == 45,
        begun.1.actions@ == seq![
            Action::Motor(MotorCommand::BrakeAll),
            Action::Delay(200),
            Action::Motor(MotorCommand::SetAllDriversEnable { enabled: true }),
            Action::Delay(10),
        ],
        begun.1.ask is StopRequested,
{
    assert(begun.1@.0 =~= seq![
        Action::Motor(MotorCommand::BrakeAll),
        Action::Delay(200),
        Action::Motor(MotorCommand::SetAllDriversEnable { enabled: true }),
        Action::Delay(10),
    ]);
}

} // verus!
