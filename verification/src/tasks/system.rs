//! The actor that keeps the device powered and the watchdog fed.

use vstd::prelude::*;

verus! {

pub const QUEUE_SIZE: usize = 3;

pub const IDLE_TIMEOUT_MS: u64 = 1000;

/// What the system actor tells the rest of the firmware.
#[derive(Debug, Clone, Copy, PartialEq, Eq, Structural, Hash)]
pub enum Message {
    PowerOn,
    PowerOff,
}

} // verus!
