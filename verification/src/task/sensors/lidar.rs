//! The LiDAR task: power on demand, warm-up, streaming.
//!
//! A mode enables the sensor when it needs perception and disables it when it is done.
//! Commands are one-way; the status tells how far the sensor is. A duplicate enable is
//! inert, and a failed bring-up holds until the sensor is disabled, so polling cannot
//! spin retries. A disabled or failed sensor leaves no cloud and no obstacle behind.

use vstd::prelude::*;

use crate::coin_d6::types::Scan;
use crate::lidar_cloud;
use crate::lidar_cloud::Cloud;
use crate::system::event::{Events, ObstacleSource};
use crate::system::state::perception;
use crate::system::state::perception::{ChangeDetected, PerceptionState};

verus! {

/// Bound on one warm-up attempt, in milliseconds.
pub const WARMUP_TIMEOUT_MS: u64 = 5_000;

/// Bound on one streamed revolution, in milliseconds.
pub const STREAM_READ_TIMEOUT_MS: u64 = 2_000;

/// How long the power is off between two attempts, in milliseconds.
pub const POWER_CYCLE_OFF_MS: u64 = 200;

/// How many attempts one bring-up makes.
pub const BRINGUP_ATTEMPTS: u8 = 3;

/// How far the sensor is.
#[derive(Debug, Clone, Copy, PartialEq, Eq, Structural)]
pub enum LidarStatus {
    /// Powered down.
    Off,
    /// Powered on and waiting for the rotor to settle.
    Warming,
    /// Publishing revolutions.
    Streaming,
    /// A bring-up failed; powered down until disabled and enabled again.
    Failed,
}

/// The number a status is stored as.
pub open spec fn encoded(status: LidarStatus) -> u8 {
    match status {
        LidarStatus::Off => 0,
        LidarStatus::Warming => 1,
        LidarStatus::Streaming => 2,
        LidarStatus::Failed => 3,
    }
}

/// The status a stored number means; an unknown one means off.
pub open spec fn decoded(number: u8) -> LidarStatus {
    if number == 1 {
        LidarStatus::Warming
    } else if number == 2 {
        LidarStatus::Streaming
    } else if number == 3 {
        LidarStatus::Failed
    } else {
        LidarStatus::Off
    }
}

/// Store a status as a number.
pub fn set_status(status: LidarStatus) -> (number: u8)
    ensures
        number == encoded(status),
{
    match status {
        LidarStatus::Off => 0,
        LidarStatus::Warming => 1,
        LidarStatus::Streaming => 2,
        LidarStatus::Failed => 3,
    }
}

/// Read a status from its number.
pub fn status(number: u8) -> (status: LidarStatus)
    ensures
        status == decoded(number),
{
    match number {
        1 => LidarStatus::Warming,
        2 => LidarStatus::Streaming,
        3 => LidarStatus::Failed,
        _ => LidarStatus::Off,
    }
}

/// A stored status is read back.
pub proof fn law_status_round_trip(status: LidarStatus)
    ensures
        decoded(encoded(status)) == status,
{
}

/// A command to the LiDAR task.
#[derive(Debug, Clone, Copy, PartialEq, Eq, Structural)]
pub enum LidarCommand {
    /// Power the sensor on and stream.
    Enable,
    /// Stop, power off and clear what is stale.
    Disable,
}

/// The command that enables the sensor.
pub fn enable() -> (command: LidarCommand)
    ensures
        command == LidarCommand::Enable,
{
    LidarCommand::Enable
}

/// The command that disables the sensor.
pub fn disable() -> (command: LidarCommand)
    ensures
        command == LidarCommand::Disable,
{
    LidarCommand::Disable
}

/// What the task is in the middle of.
#[derive(Debug, Clone, Copy, PartialEq, Eq, Structural)]
pub enum Phase {
    /// Off, waiting for an enable.
    Idle,
    /// Bringing the sensor up, in the attempt of this number, counted from one. A
    /// fresh bring-up follows an enable; otherwise it restarts a stream.
    BringUp { attempt: u8, fresh: bool },
    /// Streaming.
    Streaming,
    /// Failed, waiting for a disable.
    Holding,
}

/// What the task does next.
#[derive(Debug, Clone, Copy, PartialEq, Eq, Structural)]
pub enum LidarStep {
    /// Wait for a command.
    WaitCommand,
    /// Power on, send start and warm up, within the warm-up bound.
    Attempt,
    /// Power-cycle, then attempt.
    CycleAndAttempt,
    /// Power-cycle and leave the power off, then wait for a command.
    CycleAndFail,
    /// Take a pending command, or else read a revolution within the read bound.
    Stream,
    /// Send stop and power off, then wait for a command.
    StopAndPowerOff,
}

/// The LiDAR task.
#[derive(Debug, Clone, Copy, PartialEq, Eq, Structural)]
pub struct LidarTask {
    /// What the task is in the middle of.
    pub phase: Phase,
    /// The published status.
    pub status: LidarStatus,
    /// The number of the last published revolution.
    pub sequence: u64,
    /// The obstacle flag last published, while streaming.
    pub last_obstacle: Option<bool>,
}

/// The event of a changed obstacle flag.
pub open spec fn obstacle_event() -> Events {
    Events::ObstacleDetected { source: ObstacleSource::Lidar }
}

/// The number of the next revolution.
pub open spec fn next_number(sequence: u64) -> u64 {
    if sequence == u64::MAX {
        0
    } else {
        (sequence + 1) as u64
    }
}

/// The task after a command, and what it does next.
pub open spec fn after_command(task: LidarTask, command: LidarCommand) -> (LidarTask, LidarStep) {
    match (task.phase, command) {
        (Phase::Idle, LidarCommand::Enable) => (
            LidarTask {
                phase: Phase::BringUp { attempt: 1, fresh: true },
                status: LidarStatus::Warming,
                ..task
            },
            LidarStep::Attempt,
        ),
        (Phase::Idle, LidarCommand::Disable) => (task, LidarStep::WaitCommand),
        (Phase::Streaming, LidarCommand::Disable) => (
            LidarTask {
                phase: Phase::Idle,
                status: LidarStatus::Off,
                last_obstacle: None,
                ..task
            },
            LidarStep::StopAndPowerOff,
        ),
        (Phase::Streaming, LidarCommand::Enable) => (task, LidarStep::Stream),
        (Phase::Holding, LidarCommand::Disable) => (
            LidarTask { phase: Phase::Idle, status: LidarStatus::Off, ..task },
            LidarStep::WaitCommand,
        ),
        (Phase::Holding, LidarCommand::Enable) => (task, LidarStep::WaitCommand),
        (Phase::BringUp { .. }, _) => (task, LidarStep::Attempt),
    }
}

/// The task after a bring-up attempt, and what it does next; the obstacle flag in
/// force is given.
pub open spec fn after_attempt(task: LidarTask, ok: bool, obstacle: bool) -> (LidarTask, LidarStep) {
    match task.phase {
        Phase::BringUp { attempt, fresh } => if ok {
            (
                LidarTask {
                    phase: Phase::Streaming,
                    status: LidarStatus::Streaming,
                    last_obstacle: if fresh {
                        Some(obstacle)
                    } else {
                        task.last_obstacle
                    },
                    ..task
                },
                LidarStep::Stream,
            )
        } else if attempt < BRINGUP_ATTEMPTS {
            (
                LidarTask {
                    phase: Phase::BringUp { attempt: (attempt + 1) as u8, fresh },
                    ..task
                },
                LidarStep::CycleAndAttempt,
            )
        } else {
            (
                LidarTask {
                    phase: Phase::Holding,
                    status: LidarStatus::Failed,
                    last_obstacle: None,
                    ..task
                },
                LidarStep::CycleAndFail,
            )
        },
        _ => (task, waiting(task)),
    }
}

/// What the task is waiting for.
pub open spec fn waiting(task: LidarTask) -> LidarStep {
    match task.phase {
        Phase::Idle => LidarStep::WaitCommand,
        Phase::BringUp { .. } => LidarStep::Attempt,
        Phase::Streaming => LidarStep::Stream,
        Phase::Holding => LidarStep::WaitCommand,
    }
}

/// The task after a revolution with these slots was published.
pub open spec fn after_revolution(task: LidarTask, slots: Seq<Option<u32>>) -> LidarTask {
    LidarTask {
        sequence: next_number(task.sequence),
        last_obstacle: Some(lidar_cloud::blocks_ahead(slots)),
        ..task
    }
}

/// The task after a read that gave no revolution: the sensor is restarted.
pub open spec fn after_silence(task: LidarTask) -> LidarTask {
    LidarTask {
        phase: Phase::BringUp { attempt: 1, fresh: false },
        status: LidarStatus::Warming,
        ..task
    }
}

/// What is stale was cleared: no cloud, no obstacle, and the cleared edge where the
/// flag had been set.
pub open spec fn cleared(
    before: PerceptionState,
    after: PerceptionState,
    event: Option<Events>,
) -> bool {
    &&& after.cloud() is None
    &&& !after.obstacle()
    &&& after.drop_ahead() == before.drop_ahead()
    &&& event == (if before.obstacle() {
        Some(obstacle_event())
    } else {
        None
    })
}

impl LidarTask {
    /// The attempt exists, and the status fits the phase.
    pub open spec fn wf(self) -> bool {
        match self.phase {
            Phase::Idle => self.status is Off,
            Phase::BringUp { attempt, .. } => 1 <= attempt <= BRINGUP_ATTEMPTS
                && self.status is Warming,
            Phase::Streaming => self.status is Streaming,
            Phase::Holding => self.status is Failed,
        }
    }

    /// While streaming, the flag last published is the one in force.
    pub open spec fn agrees(self, perception: PerceptionState) -> bool {
        match self.phase {
            Phase::Streaming => self.last_obstacle == Some(perception.obstacle()),
            Phase::BringUp { fresh, .. } => !fresh ==> self.last_obstacle == Some(
                perception.obstacle(),
            ),
            _ => true,
        }
    }

    /// The task at boot, with the sensor off.
    pub fn new() -> (task: Self)
        ensures
            task.wf(),
            task == (LidarTask {
                phase: Phase::Idle,
                status: LidarStatus::Off,
                sequence: 0,
                last_obstacle: None,
            }),
    {
        LidarTask {
            phase: Phase::Idle,
            status: LidarStatus::Off,
            sequence: 0,
            last_obstacle: None,
        }
    }

    /// What the task is waiting for.
    fn wait(&self) -> (step: LidarStep)
        ensures
            step == waiting(*self),
    {
        match self.phase {
            Phase::Idle | Phase::Holding => LidarStep::WaitCommand,
            Phase::BringUp { .. } => LidarStep::Attempt,
            Phase::Streaming => LidarStep::Stream,
        }
    }

    /// Clear the stale cloud and obstacle flag, returning the cleared edge to raise.
    fn clear_stale_state(&mut self, perception: &mut PerceptionState) -> (event: Option<Events>)
        ensures
            *final(self) == (LidarTask { last_obstacle: None, ..*old(self) }),
            cleared(*old(perception), *final(perception), event),
    {
        self.last_obstacle = None;
        match perception::clear_lidar_state(perception) {
            ChangeDetected::ChangedToCleared => Some(
                Events::ObstacleDetected { source: ObstacleSource::Lidar },
            ),
            _ => None,
        }
    }

    /// Take a command, returning what to do next and the event to raise.
    pub fn on_command(
        &mut self,
        command: LidarCommand,
        perception: &mut PerceptionState,
    ) -> (outcome: (LidarStep, Option<Events>))
        requires
            old(self).wf(),
        ensures
            final(self).wf(),
            old(self).agrees(*old(perception)) ==> final(self).agrees(*final(perception)),
            (*final(self), outcome.0) == after_command(*old(self), command),
            if old(self).phase is Streaming && command is Disable {
                cleared(*old(perception), *final(perception), outcome.1)
            } else {
                outcome.1 is None && *final(perception) == *old(perception)
            },
    {
        match (self.phase, command) {
            (Phase::Idle, LidarCommand::Enable) => {
                self.phase = Phase::BringUp { attempt: 1, fresh: true };
                self.status = LidarStatus::Warming;
                (LidarStep::Attempt, None)
            },
            (Phase::Streaming, LidarCommand::Disable) => {
                let event = self.clear_stale_state(perception);
                self.phase = Phase::Idle;
                self.status = LidarStatus::Off;
                (LidarStep::StopAndPowerOff, event)
            },
            (Phase::Holding, LidarCommand::Disable) => {
                self.phase = Phase::Idle;
                self.status = LidarStatus::Off;
                (LidarStep::WaitCommand, None)
            },
            _ => (self.wait(), None),
        }
    }

    /// Learn how a bring-up attempt went, returning what to do next and the event to
    /// raise.
    pub fn on_attempt(
        &mut self,
        ok: bool,
        perception: &mut PerceptionState,
    ) -> (outcome: (LidarStep, Option<Events>))
        requires
            old(self).wf(),
        ensures
            final(self).wf(),
            old(self).agrees(*old(perception)) ==> final(self).agrees(*final(perception)),
            (*final(self), outcome.0) == after_attempt(*old(self), ok, old(perception).obstacle()),
            if final(self).phase is Holding && old(self).phase is BringUp {
                cleared(*old(perception), *final(perception), outcome.1)
            } else {
                outcome.1 is None && *final(perception) == *old(perception)
            },
    {
        match self.phase {
            Phase::BringUp { attempt, fresh } => {
                if ok {
                    self.phase = Phase::Streaming;
                    self.status = LidarStatus::Streaming;
                    if fresh {
                        self.last_obstacle = Some(perception::is_obstacle_detected(perception));
                    }
                    (LidarStep::Stream, None)
                } else if attempt < BRINGUP_ATTEMPTS {
                    self.phase = Phase::BringUp { attempt: attempt + 1, fresh };
                    (LidarStep::CycleAndAttempt, None)
                } else {
                    let event = self.clear_stale_state(perception);
                    self.phase = Phase::Holding;
                    self.status = LidarStatus::Failed;
                    (LidarStep::CycleAndFail, event)
                }
            },
            _ => (self.wait(), None),
        }
    }

    /// Publish a revolution: the cloud, and the obstacle flag where it changed.
    /// Returns the event to raise.
    pub fn on_revolution<const N: usize>(
        &mut self,
        scan: &Scan<N>,
        perception: &mut PerceptionState,
    ) -> (event: Option<Events>)
        requires
            old(self).wf(),
            old(self).phase is Streaming,
            scan.wf(),
        ensures
            final(self).wf(),
            ({
                let slots = lidar_cloud::spin_slots(scan@);
                let detected = lidar_cloud::blocks_ahead(slots);
                let changed = old(self).last_obstacle != Some(detected);
                &&& *final(self) == after_revolution(*old(self), slots)
                &&& final(perception).cloud() matches Some(cloud) && cloud@ == slots
                    && cloud.number() == next_number(old(self).sequence)
                &&& final(perception).drop_ahead() == old(perception).drop_ahead()
                &&& final(perception).obstacle() == (if changed {
                    detected
                } else {
                    old(perception).obstacle()
                })
                &&& event == (if changed {
                    Some(obstacle_event())
                } else {
                    None
                })
            }),
    {
        self.sequence = if self.sequence == u64::MAX {
            0
        } else {
            self.sequence + 1
        };
        let cloud = Cloud::from_spin(scan, self.sequence);
        let detected = cloud.front_sector_obstacle();
        perception::update_lidar_points(perception, cloud);
        let unchanged = match self.last_obstacle {
            Some(last) => last == detected,
            None => false,
        };
        if unchanged {
            return None;
        }
        let _ = perception::set_lidar_obstacle(perception, detected);
        self.last_obstacle = Some(detected);
        Some(Events::ObstacleDetected { source: ObstacleSource::Lidar })
    }

    /// Learn that no revolution came, through an error or in time.
    pub fn on_silence(&mut self) -> (step: LidarStep)
        requires
            old(self).wf(),
        ensures
            final(self).wf(),
            if old(self).phase is Streaming {
                *final(self) == after_silence(*old(self)) && step == LidarStep::CycleAndAttempt
            } else {
                *final(self) == *old(self) && step == waiting(*old(self))
            },
    {
        match self.phase {
            Phase::Streaming => {
                self.phase = Phase::BringUp { attempt: 1, fresh: false };
                self.status = LidarStatus::Warming;
                LidarStep::CycleAndAttempt
            },
            _ => self.wait(),
        }
    }
}

/// An obstacle event is raised exactly when the flag changes, as long as the flag in
/// force was the one last published, and then the published flag is what the cloud
/// says.
pub proof fn law_edge_is_a_change(task: LidarTask, slots: Seq<Option<u32>>, obstacle: bool)
    requires
        task.last_obstacle == Some(obstacle),
    ensures
        ({
            let detected = lidar_cloud::blocks_ahead(slots);
            &&& after_revolution(task, slots).last_obstacle == Some(detected)
            &&& task.last_obstacle != Some(detected) <==> obstacle != detected
        }),
{
}

/// A duplicate enable is inert in every phase but the one that waits for it.
pub proof fn law_duplicate_enable_is_inert(task: LidarTask)
    requires
        task.wf(),
        task.phase !is Idle,
    ensures
        after_command(task, LidarCommand::Enable).0 == task,
{
}

/// A failed sensor stays failed until it is disabled: no enable and no outcome of an
/// attempt revives it.
pub proof fn law_failure_holds_until_disabled(task: LidarTask, ok: bool, obstacle: bool)
    requires
        task.wf(),
        task.phase is Holding,
    ensures
        after_command(task, LidarCommand::Enable).0.status is Failed,
        after_attempt(task, ok, obstacle).0.status is Failed,
        after_command(task, LidarCommand::Disable).0.status is Off,
{
}

/// The task after a number of failed attempts.
pub open spec fn after_failures(task: LidarTask, count: nat, obstacle: bool) -> LidarTask
    decreases count,
{
    if count == 0 {
        task
    } else {
        after_attempt(after_failures(task, (count - 1) as nat, obstacle), false, obstacle).0
    }
}

/// A bring-up gives up after three failed attempts and not before.
pub proof fn law_bring_up_is_bounded(task: LidarTask, fresh: bool, count: nat, obstacle: bool)
    requires
        task.phase == (Phase::BringUp { attempt: 1, fresh }),
        task.status is Warming,
        count <= BRINGUP_ATTEMPTS,
    ensures
        after_failures(task, count, obstacle).status is Failed <==> count == BRINGUP_ATTEMPTS,
        count < BRINGUP_ATTEMPTS ==> after_failures(task, count, obstacle).phase == (
        Phase::BringUp { attempt: (count + 1) as u8, fresh }),
    decreases count,
{
    if count > 0 {
        law_bring_up_is_bounded(task, fresh, (count - 1) as nat, obstacle);
    }
}

/// The sensor goes through its life in order: an enable begins a fresh bring-up, the first
/// attempt that works streams, a stream that falls silent is restarted from the first
/// attempt, and a disable ends it. Each step says so: only an enabled sensor is powered,
/// only a working one is read.
pub proof fn law_sensor_follows_its_commands(task: LidarTask, obstacle: bool)
    requires
        task.wf(),
    ensures
        ({
            let (on, start) = after_command(task, LidarCommand::Enable);
            let (off, stop) = after_command(task, LidarCommand::Disable);
            let (up, stream) = after_attempt(task, true, obstacle);
            &&& task.status is Off ==> on.status is Warming && start is Attempt && on.phase == (
            Phase::BringUp { attempt: 1, fresh: true })
            &&& task.status is Off ==> off == task && stop is WaitCommand
            &&& task.status is Streaming ==> off.status is Off && stop is StopAndPowerOff
                && off.last_obstacle is None
            &&& task.status is Streaming ==> start is Stream
            &&& task.status is Failed ==> off.status is Off && stop is WaitCommand && start
                is WaitCommand
            &&& task.status is Warming ==> up.status is Streaming && stream is Stream
            &&& task.status is Warming ==> off == task
            &&& task.status is Streaming ==> after_silence(task).status is Warming
                && after_silence(task).phase == (Phase::BringUp { attempt: 1, fresh: false })
                && after_silence(task).last_obstacle == task.last_obstacle
            &&& on.sequence == task.sequence && off.sequence == task.sequence && up.sequence
                == task.sequence
        }),
{
}

/// A fresh bring-up takes the flag in force for the one last published, and a restarted
/// stream keeps the one it had; a failed bring-up powers the sensor down and forgets it.
pub proof fn law_bring_up_keeps_the_flag_straight(
    task: LidarTask,
    attempt: u8,
    fresh: bool,
    obstacle: bool,
)
    requires
        task.phase == (Phase::BringUp { attempt, fresh }),
        task.wf(),
    ensures
        ({
            let up = after_attempt(task, true, obstacle).0;
            let (down, step) = after_attempt(task, false, obstacle);
            &&& fresh ==> up.last_obstacle == Some(obstacle)
            &&& !fresh ==> up.last_obstacle == task.last_obstacle
            &&& attempt < 3 ==> step is CycleAndAttempt && down.status is Warming
            &&& attempt == 3 ==> step is CycleAndFail && down.status is Failed
                && down.last_obstacle is None
        }),
{
}

/// Revolutions are numbered one after the other, from zero again past the last number.
pub proof fn law_revolutions_are_numbered(task: LidarTask, slots: Seq<Option<u32>>)
    ensures
        ({
            let after = after_revolution(task, slots);
            &&& task.sequence < u64::MAX ==> after.sequence == task.sequence + 1
            &&& task.sequence == u64::MAX ==> after.sequence == 0
            &&& after.phase == task.phase && after.status == task.status
        }),
{
}

/// Whatever a revolution shows is published: its cloud under the next number, and the
/// obstacle flag, which is true exactly where something is within thirty centimetres and
/// forty-five degrees of dead ahead, as long as it was the one last published.
pub proof fn law_revolution_is_published<const N: usize>(
    task: &mut LidarTask,
    scan: &Scan<N>,
    perception: &mut PerceptionState,
    event: Option<Events>,
)
    requires
        old(task).last_obstacle == Some(old(perception).obstacle()),
        call_ensures(LidarTask::on_revolution::<N>, (task, scan, perception), event),
    ensures
        final(perception).cloud() is Some,
        ({
            let slots = final(perception).cloud()->0@;
            &&& slots == lidar_cloud::spin_slots(scan@)
            &&& final(perception).obstacle() <==> exists|slot: int|
                (0 <= slot <= 45 || 315 <= slot < 360) && (
                #[trigger] slots[slot] matches Some(distance) && distance <= 300)
        }),
        event is Some <==> final(perception).obstacle() != old(perception).obstacle(),
        final(task).last_obstacle == Some(final(perception).obstacle()),
        final(perception).drop_ahead() == old(perception).drop_ahead(),
        old(task).sequence < u64::MAX ==> final(perception).cloud()->0.number() == old(
            task,
        ).sequence + 1,
{
    lidar_cloud::law_front_sector_is_ahead(lidar_cloud::spin_slots(scan@));
}

/// A number that no status has means off.
pub proof fn law_unknown_numbers_mean_off(number: u8)
    ensures
        number > 3 ==> decoded(number) is Off,
        number <= 3 ==> encoded(decoded(number)) == number,
        decoded(0) is Off,
{
}

/// A sensor that is disabled or fails leaves nothing behind: no cloud and no obstacle, and
/// an obstacle that was there is reported as gone.
pub proof fn law_nothing_stale_is_left(
    task: &mut LidarTask,
    perception: &mut PerceptionState,
    outcome: (LidarStep, Option<Events>),
)
    requires
        old(task).phase is Streaming,
        call_ensures(LidarTask::on_command, (task, LidarCommand::Disable, perception), outcome),
    ensures
        final(perception).cloud() is None,
        !final(perception).obstacle(),
        final(perception).drop_ahead() == old(perception).drop_ahead(),
        outcome.1 is Some <==> old(perception).obstacle(),
        outcome.0 is StopAndPowerOff,
        final(task).status is Off,
{
}

} // verus!
