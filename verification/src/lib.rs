//! Input layer of a small appliance: periodically sampled button readings are
//! turned into click and hold gestures, and the gestures are routed between
//! cooperative actors.
//!
//! Every function here carries a contract that Verus proves. Hardware access and
//! async plumbing live outside this crate and hand it plain values.

pub mod actor;
pub mod aw9523b;
pub mod board;
pub mod bsp;
pub mod buttons;
pub mod tasks;
pub mod time;
