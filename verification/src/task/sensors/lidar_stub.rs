//! A stand-in for the LiDAR: the same room, over and over.
//!
//! The room is open for two metres all round, with a wall on each side at half a
//! metre.

use vstd::prelude::*;

use crate::lidar_cloud;
use crate::lidar_cloud::{Cloud, SLOTS};
use crate::system::event::{Events, ObstacleSource};
use crate::system::state::perception;
use crate::system::state::perception::PerceptionState;

verus! {

/// Distance of the open room, in tenths of a centimetre.
pub const OPEN_DISTANCE: u32 = 2_000;

/// Distance of the walls, in tenths of a centimetre.
pub const WALL_DISTANCE: u32 = 500;

/// Distance at which something blocks, in tenths of a centimetre.
pub const OBSTACLE_THRESHOLD: u32 = 200;

/// Half of the forward cone, in microdegrees.
pub const CONE_HALF_ANGLE_UDEG: i64 = 45_000_000;

/// Time between two scans, in milliseconds.
pub const SCAN_INTERVAL_MS: u64 = 200;

/// A command to the stand-in.
#[derive(Debug, Clone, Copy, PartialEq, Eq, Structural)]
pub enum LidarStubCommand {
    /// Scan on.
    StartScanning,
    /// Stop and go idle.
    Stop,
}

/// The command that starts the scanning.
pub fn start_lidar_scanning() -> (command: LidarStubCommand)
    ensures
        command == LidarStubCommand::StartScanning,
{
    LidarStubCommand::StartScanning
}

/// The command that stops the scanning.
pub fn stop_lidar() -> (command: LidarStubCommand)
    ensures
        command == LidarStubCommand::Stop,
{
    LidarStubCommand::Stop
}

/// The room: open all round, walled on both sides.
pub open spec fn room() -> Seq<Option<u32>> {
    Seq::new(
        SLOTS as nat,
        |slot: int|
            if slot == 90 || slot == 270 {
                Some(WALL_DISTANCE)
            } else {
                Some(OPEN_DISTANCE)
            },
    )
}

/// Make the cloud of the room.
pub fn generate_default_cloud(sequence: u64) -> (cloud: Cloud)
    ensures
        cloud@ == room(),
        cloud.number() == sequence,
{
    let mut distances: [Option<u32>; SLOTS] = [Some(OPEN_DISTANCE); SLOTS];
    distances[90] = Some(WALL_DISTANCE);
    distances[270] = Some(WALL_DISTANCE);
    let cloud = Cloud::from_slots(distances, sequence);
    assert(cloud@ =~= room());
    cloud
}

/// Whether slots hold something in the forward cone.
pub open spec fn blocked(slots: Seq<Option<u32>>) -> bool {
    lidar_cloud::blocks(slots, 0, CONE_HALF_ANGLE_UDEG as int, OBSTACLE_THRESHOLD)
}

/// Whether a cloud holds something in the forward cone.
pub fn cloud_has_obstacle(cloud: &Cloud) -> (obstacle: bool)
    ensures
        obstacle == blocked(cloud@),
{
    lidar_cloud::front_sector_obstacle(cloud, 0, CONE_HALF_ANGLE_UDEG, OBSTACLE_THRESHOLD)
}

/// The room never blocks the way ahead.
pub proof fn law_room_is_open()
    ensures
        !blocked(room()),
{
}

/// The stand-in.
#[derive(Debug, Clone, Copy, PartialEq, Eq, Structural)]
pub struct LidarStub {
    /// Whether it scans.
    pub scanning: bool,
    /// The number of the last scan.
    pub sequence: u64,
    /// The obstacle flag last published since the last command.
    pub last_obstacle: Option<bool>,
}

impl LidarStub {
    /// Idle at boot.
    pub fn new() -> (stub: Self)
        ensures
            stub == (LidarStub { scanning: false, sequence: 0, last_obstacle: None }),
    {
        LidarStub { scanning: false, sequence: 0, last_obstacle: None }
    }

    /// Take a command: an obstacle published before is cleared. Returns the event to
    /// raise.
    pub fn on_command(
        &mut self,
        command: LidarStubCommand,
        perception: &mut PerceptionState,
    ) -> (event: Option<Events>)
        ensures
            *final(self) == (LidarStub {
                scanning: command is StartScanning,
                last_obstacle: None,
                ..*old(self)
            }),
            final(perception).cloud() == old(perception).cloud(),
            final(perception).drop_ahead() == old(perception).drop_ahead(),
            if old(self).last_obstacle == Some(true) {
                event == Some(Events::ObstacleDetected { source: ObstacleSource::Lidar })
                    && !final(perception).obstacle()
            } else {
                event is None && final(perception).obstacle() == old(perception).obstacle()
            },
    {
        let published = matches!(self.last_obstacle, Some(true));
        self.last_obstacle = None;
        self.scanning = matches!(command, LidarStubCommand::StartScanning);
        if published {
            let _ = perception::set_lidar_obstacle(perception, false);
            Some(Events::ObstacleDetected { source: ObstacleSource::Lidar })
        } else {
            None
        }
    }

    /// Publish a scan. Returns the obstacle event to raise; the event that a scan is
    /// complete follows in any case.
    pub fn on_scan(&mut self, perception: &mut PerceptionState) -> (event: Option<Events>)
        ensures
            ({
                let number = if old(self).sequence == u64::MAX {
                    0
                } else {
                    (old(self).sequence + 1) as u64
                };
                let changed = old(self).last_obstacle != Some(blocked(room()));
                &&& *final(self) == (LidarStub {
                    sequence: number,
                    last_obstacle: Some(blocked(room())),
                    ..*old(self)
                })
                &&& final(perception).cloud() matches Some(cloud) && cloud@ == room()
                    && cloud.number() == number
                &&& final(perception).drop_ahead() == old(perception).drop_ahead()
                &&& final(perception).obstacle() == (if changed {
                    blocked(room())
                } else {
                    old(perception).obstacle()
                })
                &&& event == (if changed {
                    Some(Events::ObstacleDetected { source: ObstacleSource::Lidar })
                } else {
                    None
                })
            }),
    {
        self.sequence = if self.sequence == u64::MAX {
            0
        } else {
            self.sequence + 1
        };
        let cloud = generate_default_cloud(self.sequence);
        let detected = cloud_has_obstacle(&cloud);
        perception::update_lidar_points(perception, cloud);
        let unchanged = match self.last_obstacle {
            Some(last) => last == detected,
            None => false,
        };
        if unchanged {
            return None;
        }
        let _ = perception::set_lidar_obstacle(perception, detected);
        self.last_obstacle = Some(detected);
        Some(Events::ObstacleDetected { source: ObstacleSource::Lidar })
    }
}

/// The room has a wall to the left and one to the right, half a metre away, and two metres
/// of space at every other bearing.
pub proof fn law_room_has_two_walls(slot: int)
    requires
        0 <= slot < 360,
    ensures
        room().len() == 360,
        slot == 90 || slot == 270 <==> room()[slot] == Some(500u32),
        slot != 90 && slot != 270 <==> room()[slot] == Some(2_000u32),
{
}

/// Something blocks exactly within twenty centimetres and forty-five degrees to either side
/// of dead ahead.
pub proof fn law_blocked_means_close_ahead(slots: Seq<Option<u32>>)
    ensures
        blocked(slots) <==> exists|slot: int|
            (0 <= slot <= 45 || 315 <= slot < 360) && (#[trigger] slots[slot] matches Some(distance)
                && distance <= 200),
{
    if blocked(slots) {
        let slot = choose|slot: int|
            0 <= slot < SLOTS && lidar_cloud::in_sector(slot, 0, 45_000_000) && (
            #[trigger] slots[slot] matches Some(distance) && distance <= 200);
        lidar_cloud::law_sector_is_symmetric(slot, 0, 45_000_000);
        assert((slot * 1_000_000 - 0) % 360_000_000 == slot * 1_000_000);
        assert(0 <= slot <= 45 || 315 <= slot < 360);
    }
    if exists|slot: int|
        (0 <= slot <= 45 || 315 <= slot < 360) && (#[trigger] slots[slot] matches Some(distance)
            && distance <= 200) {
        let slot = choose|slot: int|
            (0 <= slot <= 45 || 315 <= slot < 360) && (#[trigger] slots[slot] matches Some(distance)
                && distance <= 200);
        lidar_cloud::law_sector_is_symmetric(slot, 0, 45_000_000);
        assert((slot * 1_000_000 - 0) % 360_000_000 == slot * 1_000_000);
        assert(lidar_cloud::in_sector(slot, 0, 45_000_000));
    }
}

} // verus!
