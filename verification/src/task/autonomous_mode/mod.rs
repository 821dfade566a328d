//! Autonomous drive modes.

pub mod attempt_straight_line;
pub mod coast_obstacle_avoid;
pub mod gap_analysis;
pub mod gap_laws;
pub mod gap_list;
