//! What the robot does about events.

pub mod floor_drop;
pub mod input;
pub mod obstacle;
