//! The engine as a mathematical state machine: one sample in, a new state and
//! the reported events out.

use vstd::prelude::*;
use crate::buttons::config::{Config, Id, RepeatedPressMode};
use crate::buttons::event::{Event, Kind, Length};
use crate::time::Ms;

verus! {

/// Where the engine stands between two samples.
#[derive(Debug, Clone, Copy, PartialEq, Eq, Structural, Hash)]
pub enum PressState {
    /// Nothing is pressed.
    Released,
    /// Something is pressed, but not yet for longer than the debounce window.
    Debouncing,
    /// A press has passed the debounce window and is being classified.
    Pressed,
}

/// Everything the engine remembers from one sample to the next.
#[derive(Debug, Clone, Copy, PartialEq, Eq, Structural)]
pub struct EngineState {
    pub press_state: PressState,
    /// The button of the current press, or of the last one.
    pub last_button_pressed: Option<Id>,
    /// When that press began.
    pub last_press_start_timestamp: Option<Ms>,
    /// When the last `Hold` was reported, or else the first classified press.
    pub last_hold_event_timestamp: Option<Ms>,
    /// The classified press last reported for that press, if any.
    pub last_press_event_sent: Option<Event>,
    /// How many presses the current run of clicks holds, that press included.
    pub consecutive_press_count: u8,
}

/// The events of one update, each with the button it is about, in the order
/// in which the handler receives them.
pub type Reports = Seq<(Id, Event)>;

/// The length of a press that has lasted `elapsed`: the highest threshold that
/// it has reached decides, and a press that is exactly at a threshold has
/// reached it.
pub open spec fn length_for(config: Config, elapsed: Ms) -> Length {
    if elapsed.0 >= config.very_long_press_duration.0 {
        Length::VeryLong
    } else if elapsed.0 >= config.long_press_duration.0 {
        Length::Long
    } else if elapsed.0 >= config.medium_press_duration.0 {
        Length::Medium
    } else {
        Length::Short
    }
}

/// The click family of the `count`-th press of a run, for a count of at least one.
pub open spec fn kind_for(count: u8, length: Length) -> Kind {
    if count == 1 {
        Kind::Single(length)
    } else if count == 2 {
        Kind::Double(length)
    } else if count == 3 {
        Kind::Triple(length)
    } else {
        Kind::Repeated(length, count)
    }
}

/// One report of `event` for `id` if raw events are switched on, else none.
pub open spec fn raw_reports(config: Config, id: Id, event: Event) -> Reports {
    if config.enable_raw_press_release_events {
        seq![(id, event)]
    } else {
        Seq::empty()
    }
}

impl EngineState {
    /// The state of an engine that has seen no sample yet.
    pub open spec fn initial() -> EngineState {
        EngineState {
            press_state: PressState::Released,
            last_button_pressed: None,
            last_press_start_timestamp: None,
            last_hold_event_timestamp: None,
            last_press_event_sent: None,
            consecutive_press_count: 0,
        }
    }

    /// What holds of every state that the engine can reach.
    pub open spec fn wf(self) -> bool {
        &&& self.last_button_pressed is Some <==> self.last_press_start_timestamp is Some
        &&& self.last_button_pressed is Some <==> self.consecutive_press_count >= 1
        &&& self.press_state != PressState::Released ==> self.last_button_pressed is Some
        &&& self.press_state == PressState::Debouncing ==> self.last_press_event_sent is None
        &&& self.last_hold_event_timestamp is Some ==> self.last_press_event_sent is Some
        &&& self.last_press_event_sent matches Some(press) ==> {
            &&& self.last_button_pressed is Some
            &&& press.spec_kind().length() matches Some(length)
            &&& press == Event::Press(kind_for(self.consecutive_press_count, length))
        }
    }

    /// A click that was released before it could be classified and still waits
    /// to be reported.
    pub open spec fn has_pending_click(self) -> bool {
        &&& self.press_state == PressState::Released
        &&& self.last_button_pressed is Some
        &&& self.last_press_event_sent is None
    }

    /// Whether a press of `id` that begins at `now`, with nothing pressed
    /// before, belongs to the run of clicks that the last press belonged to.
    pub open spec fn continues_run(self, config: Config, now: Ms, id: Id) -> bool {
        &&& self.last_button_pressed == Some(id)
        &&& self.last_press_start_timestamp matches Some(start)
        &&& config.supports_repeated_press(id)
        &&& now.spec_elapsed_since(start).0 <= config.repeated_press_threshold_duration.0
    }

    /// The count that such a press gets: one more than the last press where it
    /// continues the run, up to the largest count that fits, else one.
    pub open spec fn next_count(self, config: Config, now: Ms, id: Id) -> u8 {
        if self.continues_run(config, now, id) {
            if self.consecutive_press_count < u8::MAX {
                (self.consecutive_press_count + 1) as u8
            } else {
                u8::MAX
            }
        } else {
            1
        }
    }

    /// The state in which a press of `id`, the `count`-th of its run, has just
    /// begun at `now` and nothing has been reported of it.
    pub open spec fn begin_press(self, press_state: PressState, now: Ms, id: Id, count: u8)
        -> EngineState {
        EngineState {
            press_state,
            last_button_pressed: Some(id),
            last_press_start_timestamp: Some(now),
            last_hold_event_timestamp: None,
            last_press_event_sent: None,
            consecutive_press_count: count,
        }
    }

    /// Whether a press that has lasted `elapsed` may be classified: at once
    /// where clicks of `id` are not counted or the mode is immediate, else when
    /// the window for a further click has run out.
    pub open spec fn may_classify(config: Config, id: Id, elapsed: Ms) -> bool {
        ||| !config.supports_repeated_press(id)
        ||| config.repeated_press_mode == RepeatedPressMode::Immediate
        ||| elapsed.0 > config.repeated_press_threshold_duration.0
    }

    /// The classified press that stands for the current press once it has
    /// lasted `elapsed`: the family stays what it was, the length follows the
    /// time.
    pub open spec fn classified_press(self, config: Config, elapsed: Ms) -> Event {
        let length = length_for(config, elapsed);
        match self.last_press_event_sent {
            Some(previous) => previous.spec_with_length(length),
            None => Event::Press(kind_for(self.consecutive_press_count, length)),
        }
    }

    /// What the engine reports to release the button of the current press: the raw
    /// release if raw events are on, then the release of the classified press if
    /// one was reported.
    pub open spec fn release_reports(self, config: Config) -> Reports {
        let id = self.last_button_pressed.unwrap();
        raw_reports(config, id, Event::Release(Kind::Raw)) + match self.last_press_event_sent {
            Some(press) => seq![(id, press.spec_into_release())],
            None => Seq::empty(),
        }
    }

    /// A sample of `id` while `id` is the button of the current press and the debounce
    /// window is behind it.
    ///
    /// The press is classified if it may be, and reported where that is new: the
    /// first time, and whenever its length has changed. The first classified
    /// press sets the anchor of the hold notifications. A `Hold` with the time
    /// since the press began follows when more than the hold interval has
    /// passed since the anchor, and moves the anchor to `now`.
    pub open spec fn step_held(self, config: Config, now: Ms, id: Id) -> (EngineState, Reports) {
        let elapsed = now.spec_elapsed_since(self.last_press_start_timestamp.unwrap());
        let classify = Self::may_classify(config, id, elapsed);
        let press = self.classified_press(config, elapsed);
        let sent = if classify {
            Some(press)
        } else {
            self.last_press_event_sent
        };
        let anchor = if classify && self.last_press_event_sent is None {
            Some(now)
        } else {
            self.last_hold_event_timestamp
        };
        let hold_due = anchor matches Some(since) && now.spec_elapsed_since(since).0
            > config.hold_event_interval.0;
        let press_reports = if classify && self.last_press_event_sent != Some(press) {
            seq![(id, press)]
        } else {
            Seq::empty()
        };
        let hold_reports = if hold_due {
            seq![(id, Event::Hold(elapsed))]
        } else {
            Seq::empty()
        };
        (
            EngineState {
                press_state: PressState::Pressed,
                last_press_event_sent: sent,
                last_hold_event_timestamp: if hold_due {
                    Some(now)
                } else {
                    anchor
                },
                ..self
            },
            press_reports + hold_reports,
        )
    }

    /// A press of `id` has just begun in state `self`, which already holds it:
    /// the engine debounces it, or handles it at once where debouncing is off.
    pub open spec fn enter_press(self, config: Config, now: Ms, id: Id) -> (EngineState, Reports) {
        if config.short_press_duration.0 > 0 {
            (EngineState { press_state: PressState::Debouncing, ..self }, Seq::empty())
        } else {
            self.step_held(config, now, id)
        }
    }

    /// One sample while nothing was pressed.
    ///
    /// Without a button: a pending click is reported as a short press of its
    /// family once the window for a further click has run out. With a button: a
    /// press begins, is counted, and is reported raw if raw events are on.
    pub open spec fn step_released(self, config: Config, now: Ms, input: Option<Id>) -> (
        EngineState,
        Reports,
    ) {
        match input {
            None => {
                if self.has_pending_click() && now.spec_elapsed_since(
                    self.last_press_start_timestamp.unwrap(),
                ).0 > config.repeated_press_threshold_duration.0 {
                    let press = Event::Press(
                        kind_for(self.consecutive_press_count, Length::Short),
                    );
                    (
                        EngineState { last_press_event_sent: Some(press), ..self },
                        seq![(self.last_button_pressed.unwrap(), press)],
                    )
                } else {
                    (self, Seq::empty())
                }
            },
            Some(id) => {
                let begun = self.begin_press(
                    PressState::Released,
                    now,
                    id,
                    self.next_count(config, now, id),
                );
                let (next, reports) = begun.enter_press(config, now, id);
                (next, raw_reports(config, id, Event::Press(Kind::Raw)) + reports)
            },
        }
    }

    /// One sample during the debounce window.
    ///
    /// Without a button the press is over before it counted as one; only the
    /// raw release is reported. Another button than the debounced one begins a
    /// press of its own, the first of a new run. A press that has lasted longer
    /// than the debounce window is handled as pressed in the same update.
    pub open spec fn step_debouncing(self, config: Config, now: Ms, input: Option<Id>) -> (
        EngineState,
        Reports,
    ) {
        match input {
            None => (
                EngineState { press_state: PressState::Released, ..self },
                raw_reports(config, self.last_button_pressed.unwrap(), Event::Release(Kind::Raw)),
            ),
            Some(id) => {
                let current = if self.last_button_pressed == Some(id) {
                    self
                } else {
                    self.begin_press(PressState::Debouncing, now, id, 1)
                };
                if now.spec_elapsed_since(current.last_press_start_timestamp.unwrap()).0
                    > config.short_press_duration.0 {
                    current.step_held(config, now, id)
                } else {
                    (current, Seq::empty())
                }
            },
        }
    }

    /// One sample while a press is being classified.
    ///
    /// Without a button the press is released. With another button than the
    /// pressed one the pressed button is released and a press of the new one
    /// begins, the first of a new run.
    pub open spec fn step_pressed(self, config: Config, now: Ms, input: Option<Id>) -> (
        EngineState,
        Reports,
    ) {
        match input {
            None => (
                EngineState { press_state: PressState::Released, ..self },
                self.release_reports(config),
            ),
            Some(id) => {
                if self.last_button_pressed == Some(id) {
                    self.step_held(config, now, id)
                } else {
                    let begun = self.begin_press(PressState::Pressed, now, id, 1);
                    let (next, reports) = begun.enter_press(config, now, id);
                    (next, self.release_reports(config) + reports)
                }
            },
        }
    }

    /// The engine's transition: the state after the sample `input` taken at
    /// `now`, and what is reported for it.
    pub open spec fn step(self, config: Config, now: Ms, input: Option<Id>) -> (
        EngineState,
        Reports,
    ) {
        match self.press_state {
            PressState::Released => self.step_released(config, now, input),
            PressState::Debouncing => self.step_debouncing(config, now, input),
            PressState::Pressed => self.step_pressed(config, now, input),
        }
    }
}

} // verus!
