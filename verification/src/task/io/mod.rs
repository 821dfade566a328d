//! Storage, display and panel.

pub mod display;
pub mod flash_storage;
pub mod panel;
