//! The actors of the firmware: their messages and what they decide.

pub mod dispatcher;
pub mod system;
pub mod ui;
pub mod ui_task;
