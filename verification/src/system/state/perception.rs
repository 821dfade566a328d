//! What the robot perceives: the point cloud and two flags.
//!
//! Obstacles come from the LiDAR alone; the downward rangefinder detects floor
//! drops and is not an obstacle sensor.

use vstd::prelude::*;

use crate::lidar_cloud::Cloud;

verus! {

/// Outcome of a setter that may change the obstacle flag.
#[derive(Debug, Clone, Copy, PartialEq, Eq, Structural)]
pub enum ChangeDetected {
    /// The flag did not change.
    NoChange,
    /// The flag went from clear to set.
    ChangedToDetected,
    /// The flag went from set to clear.
    ChangedToCleared,
}

/// How a flag changed from `before` to `after`.
pub open spec fn change(before: bool, after: bool) -> ChangeDetected {
    if before == after {
        ChangeDetected::NoChange
    } else if after {
        ChangeDetected::ChangedToDetected
    } else {
        ChangeDetected::ChangedToCleared
    }
}

/// The perception state.
#[derive(Debug)]
pub struct PerceptionState {
    lidar_obstacle: bool,
    floor_drop: bool,
    lidar: Option<Cloud>,
}

impl PerceptionState {
    /// The obstacle flag.
    pub closed spec fn obstacle(&self) -> bool {
        self.lidar_obstacle
    }

    /// The floor-drop flag.
    pub closed spec fn drop_ahead(&self) -> bool {
        self.floor_drop
    }

    /// The latest cloud.
    pub closed spec fn cloud(&self) -> Option<Cloud> {
        self.lidar
    }

    /// Nothing perceived yet.
    pub fn new() -> (state: Self)
        ensures
            !state.obstacle(),
            !state.drop_ahead(),
            state.cloud() is None,
    {
        PerceptionState { lidar_obstacle: false, floor_drop: false, lidar: None }
    }
}

/// Set the obstacle flag, returning how it changed.
pub fn set_lidar_obstacle(state: &mut PerceptionState, detected: bool) -> (changed: ChangeDetected)
    ensures
        final(state).obstacle() == detected,
        final(state).drop_ahead() == old(state).drop_ahead(),
        final(state).cloud() == old(state).cloud(),
        changed == change(old(state).obstacle(), detected),
{
    let before = state.lidar_obstacle;
    state.lidar_obstacle = detected;
    change_detected(before, detected)
}

/// Set the floor-drop flag.
pub fn set_floor_drop(state: &mut PerceptionState, detected: bool)
    ensures
        final(state).drop_ahead() == detected,
        final(state).obstacle() == old(state).obstacle(),
        final(state).cloud() == old(state).cloud(),
{
    state.floor_drop = detected;
}

/// Whether the LiDAR reports an obstacle.
pub fn is_obstacle_detected(state: &PerceptionState) -> (detected: bool)
    ensures
        detected == state.obstacle(),
{
    state.lidar_obstacle
}

/// Whether a floor drop is detected.
pub fn is_floor_drop_detected(state: &PerceptionState) -> (detected: bool)
    ensures
        detected == state.drop_ahead(),
{
    state.floor_drop
}

/// Replace the stored cloud.
pub fn update_lidar_points(state: &mut PerceptionState, cloud: Cloud)
    ensures
        final(state).cloud() == Some(cloud),
        final(state).obstacle() == old(state).obstacle(),
        final(state).drop_ahead() == old(state).drop_ahead(),
{
    state.lidar = Some(cloud);
}

/// A copy of the stored cloud, if there is one.
pub fn get_lidar_snapshot(state: &PerceptionState) -> (cloud: Option<Cloud>)
    ensures
        cloud == state.cloud(),
{
    match &state.lidar {
        Some(cloud) => Some(cloud.clone()),
        None => None,
    }
}

/// The stored cloud, borrowed.
pub fn with_lidar(state: &PerceptionState) -> (cloud: Option<&Cloud>)
    ensures
        cloud == (match state.cloud() {
            Some(cloud) => Some(&cloud),
            None => None,
        }),
{
    state.lidar.as_ref()
}

/// Forget the cloud and clear its obstacle flag, so stale data cannot outlive a
/// powered-down sensor.
pub fn clear_lidar_state(state: &mut PerceptionState) -> (changed: ChangeDetected)
    ensures
        final(state).cloud() is None,
        !final(state).obstacle(),
        final(state).drop_ahead() == old(state).drop_ahead(),
        changed == change(old(state).obstacle(), false),
{
    let before = state.lidar_obstacle;
    state.lidar_obstacle = false;
    state.lidar = None;
    change_detected(before, false)
}

/// How a flag changed.
pub fn change_detected(before: bool, after: bool) -> (changed: ChangeDetected)
    ensures
        changed == change(before, after),
{
    match (before, after) {
        (false, true) => ChangeDetected::ChangedToDetected,
        (true, false) => ChangeDetected::ChangedToCleared,
        _ => ChangeDetected::NoChange,
    }
}

/// A change is reported exactly when the flag differs, and never in the wrong
/// direction: replaying the report on the old flag gives the new one.
pub proof fn law_change_replays(before: bool, after: bool)
    ensures
        change(before, after) is NoChange <==> before == after,
        after == (match change(before, after) {
            ChangeDetected::NoChange => before,
            ChangeDetected::ChangedToDetected => true,
            ChangeDetected::ChangedToCleared => false,
        }),
{
}

/// A flag that is set is reported as detected and one that is cleared as cleared.
pub proof fn law_change_names_the_new_flag(before: bool, after: bool)
    ensures
        change(before, after) is ChangedToDetected <==> !before && after,
        change(before, after) is ChangedToCleared <==> before && !after,
{
}

/// The flags and the cloud are kept apart: setting one leaves the others, and forgetting
/// the cloud clears its obstacle but not the floor.
pub proof fn law_flags_are_kept_apart(
    obstacle: &mut PerceptionState,
    changed: ChangeDetected,
    floor: &mut PerceptionState,
    cleared: &mut PerceptionState,
    gone: ChangeDetected,
    detected: bool,
)
    requires
        call_ensures(set_lidar_obstacle, (obstacle, detected), changed),
        call_ensures(set_floor_drop, (floor, detected), ()),
        call_ensures(clear_lidar_state, (cleared,), gone),
    ensures
        final(obstacle).obstacle() == detected,
        final(obstacle).drop_ahead() == old(obstacle).drop_ahead(),
        final(obstacle).cloud() == old(obstacle).cloud(),
        changed is ChangedToDetected <==> detected && !old(obstacle).obstacle(),
        changed is ChangedToCleared <==> !detected && old(obstacle).obstacle(),
        final(floor).drop_ahead() == detected,
        final(floor).obstacle() == old(floor).obstacle(),
        final(floor).cloud() == old(floor).cloud(),
        final(cleared).cloud() is None,
        !final(cleared).obstacle(),
        final(cleared).drop_ahead() == old(cleared).drop_ahead(),
        gone is ChangedToCleared <==> old(cleared).obstacle(),
{
}

} // verus!
