//! System-wide events and state.

pub mod event;
pub mod state;
