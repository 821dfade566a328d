//! The robot's tasks: what each decides, state by state.

pub mod autonomous_mode;
pub mod behavior;
pub mod control;
pub mod dialogue;
pub mod drive;
pub mod initialization;
pub mod io;
pub mod motor_driver;
pub mod orchestrate;
pub mod procedure;
pub mod pwm;
pub mod sensors;
pub mod testmode;
pub mod ui;
