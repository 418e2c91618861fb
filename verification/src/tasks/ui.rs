//! The actor that polls the buttons and drives the LEDs.

use vstd::prelude::*;
use crate::buttons::config::{Config, Id, RepeatedPressMode};
use crate::time::Ms;

verus! {

pub const QUEUE_SIZE: usize = 3;

/// The time between two samples of the buttons.
pub const POLL_INTERVAL_MS: u64 = 30;

/// The buttons are sampled whenever the actor has been idle for one poll
/// interval.
pub const IDLE_TIMEOUT_MS: u64 = POLL_INTERVAL_MS;

/// What the user interface actor is told.
#[derive(Debug, Clone, Copy, PartialEq, Eq, Structural, Hash)]
pub enum Message {
    PowerOn,
    PowerOff,
}

/// The id under which the Bluetooth button is reported.
pub open spec fn bt_button_id() -> Id {
    Id(0)
}

/// The settings of the gesture engine on this board: 50 ms of debouncing; a
/// press is medium after 1 s, long after 5 s and very long after 30 s; a hold
/// notification every 100 ms; 500 ms in which a further click counts into the
/// same run; clicks are counted for every button and reported at once; raw
/// presses and releases are reported too.
pub fn buttons_config() -> (config: Config<'static>)
    ensures
        config.short_press_duration == Ms(50),
        config.medium_press_duration == Ms(1000),
        config.long_press_duration == Ms(5000),
        config.very_long_press_duration == Ms(30000),
        config.hold_event_interval == Ms(100),
        config.repeated_press_threshold_duration == Ms(500),
        config.buttons_with_repeated_press_support is None,
        config.repeated_press_mode == RepeatedPressMode::Immediate,
        config.enable_raw_press_release_events,
        config.thresholds_ordered(),
{
    Config {
        short_press_duration: Ms(50),
        medium_press_duration: Ms(1000),
        long_press_duration: Ms(5000),
        very_long_press_duration: Ms(30000),
        hold_event_interval: Ms(100),
        repeated_press_threshold_duration: Ms(500),
        buttons_with_repeated_press_support: None,
        repeated_press_mode: RepeatedPressMode::Immediate,
        enable_raw_press_release_events: true,
    }
}

/// The sample of one tick, from what reading the Bluetooth button gave.
///
/// A reading that failed gives no sample: the tick is skipped and the engine
/// is not updated. Otherwise the sample is the button's id if it is pressed
/// and no button if it is not.
pub fn sample<E>(reading: Result<bool, E>) -> (sample: Option<Option<Id>>)
    ensures
        sample == match reading {
            Ok(true) => Some(Some(bt_button_id())),
            Ok(false) => Some(None::<Id>),
            Err(_) => None::<Option<Id>>,
        },
{
    match reading {
        Ok(true) => Some(Some(Id(0))),
        Ok(false) => Some(None),
        Err(_) => None,
    }
}

} // verus!
