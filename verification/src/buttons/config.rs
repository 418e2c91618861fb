//! Thresholds and switches of the gesture engine.

use vstd::prelude::*;
use crate::time::Ms;

verus! {

/// Identifies one physical button, or one combination of buttons.
#[derive(Debug, Copy, Clone, PartialEq, Eq, Structural, Hash)]
pub struct Id(pub usize);

/// When a run of clicks is reported.
#[derive(Debug, Copy, Clone, PartialEq, Eq, Structural, Hash)]
pub enum RepeatedPressMode {
    /// As soon as the press has passed the debounce window.
    Immediate,
    /// Only once the window for a further click has run out.
    Deferred,
}

/// The engine's settings, fixed for its lifetime.
#[derive(Debug, Copy, Clone)]
pub struct Config<'a> {
    /// Debounce window; zero switches debouncing off.
    pub short_press_duration: Ms,
    /// A press that has lasted this long is `Medium`.
    pub medium_press_duration: Ms,
    /// A press that has lasted this long is `Long`.
    pub long_press_duration: Ms,
    /// A press that has lasted this long is `VeryLong`.
    pub very_long_press_duration: Ms,
    /// Spacing of the `Hold` notifications.
    pub hold_event_interval: Ms,
    /// Window in which a further press counts as part of the same run of clicks,
    /// and the wait before a deferred click is reported.
    pub repeated_press_threshold_duration: Ms,
    /// The buttons whose clicks are counted into runs. Without a list, or with
    /// an empty one, they are counted for all buttons.
    pub buttons_with_repeated_press_support: Option<&'a [Id]>,
    pub repeated_press_mode: RepeatedPressMode,
    /// Whether every press and release is also reported as `Raw`.
    pub enable_raw_press_release_events: bool,
}

impl<'a> Config<'a> {
    /// Whether clicks of `id` are counted into runs: of every button where
    /// the list is absent or empty, else of the buttons on the list.
    pub open spec fn supports_repeated_press(&self, id: Id) -> bool {
        match self.buttons_with_repeated_press_support {
            None => true,
            Some(list) => list@.len() == 0 || list@.contains(id),
        }
    }

    /// Whether the length thresholds rise from medium to very long.
    pub open spec fn thresholds_ordered(&self) -> bool {
        self.medium_press_duration.0 <= self.long_press_duration.0
            <= self.very_long_press_duration.0
    }
}

} // verus!
