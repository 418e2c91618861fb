//! Gesture classification for a cluster of buttons.

pub mod config;
pub mod engine;
pub mod event;
pub mod laws;
pub mod model;
pub mod recorder;
