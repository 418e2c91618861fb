//! The engine itself: it reads the clock, follows the state machine of
//! [`EngineState::step`] and hands the reports to its handler.

use vstd::prelude::*;
use crate::buttons::config::{Config, Id, RepeatedPressMode};
use crate::buttons::event::{Event, Kind, Length};
use crate::buttons::model::{kind_for, length_for, EngineState, PressState, Reports};
use crate::time::Ms;

verus! {

/// What the engine needs from its owner: a clock, and a place to report to.
///
/// `received` is the history of reports as the contracts see it. An
/// implementation promises that `on_event` adds exactly the report it is given
/// at the end of that history; nothing is promised of the clock. Only
/// contracts speak of `received`: compiled code never calls it.
pub trait Handler {
    /// Everything reported to this handler so far, oldest first.
    spec fn received(&self) -> Reports;

    /// Takes one report of the engine.
    fn on_event(&mut self, button: Id, event: Event)
        ensures
            final(self).received() == old(self).received().push((button, event)),
    ;

    /// The current reading of a monotonic millisecond counter.
    fn get_current_timestamp(&self) -> Ms;
}

/// A state that the engine can be in: one that is well formed.
struct Reached {
    state: EngineState,
}

impl Reached {
    #[verifier::type_invariant]
    spec fn inv(self) -> bool {
        self.state.wf()
    }
}

/// Turns one sample per tick into click and hold gestures.
pub struct Buttons<'a, T: Handler> {
    handler: T,
    config: Config<'a>,
    reached: Reached,
}

impl<'a, T: Handler> Buttons<'a, T> {
    /// The engine's state between two updates.
    pub closed spec fn state(&self) -> EngineState {
        self.reached.state
    }

    /// The settings the engine was made with.
    pub closed spec fn config(&self) -> Config<'a> {
        self.config
    }

    /// The handler the engine reports to.
    pub closed spec fn spec_handler(&self) -> T {
        self.handler
    }

    /// Whether `self` is `before` after one sample `input` taken at `now`: the
    /// state has made the step, the handler has received its reports after
    /// those it had, and the settings are the same.
    pub open spec fn follows(&self, before: &Self, now: Ms, input: Option<Id>) -> bool {
        let (next, reports) = before.state().step(before.config(), now, input);
        &&& self.state() == next
        &&& self.spec_handler().received() == before.spec_handler().received() + reports
        &&& self.config() == before.config()
    }

    /// An engine that has seen no sample yet.
    pub fn new(handler: T, config: Config<'a>) -> (buttons: Self)
        ensures
            buttons.state() == EngineState::initial(),
            buttons.config() == config,
            buttons.spec_handler() == handler,
    {
        Self {
            handler,
            config,
            reached: Reached {
                state: EngineState {
                    press_state: PressState::Released,
                    last_button_pressed: None,
                    last_press_start_timestamp: None,
                    last_hold_event_timestamp: None,
                    last_press_event_sent: None,
                    consecutive_press_count: 0,
                },
            },
        }
    }

    /// A copy of the engine's state between two updates.
    pub fn snapshot(&self) -> (state: EngineState)
        ensures
            state == self.state(),
            state.wf(),
    {
        proof {
            use_type_invariant(&self.reached);
        }
        self.reached.state
    }

    /// The handler, with what it has received.
    pub fn handler(&self) -> (handler: &T)
        ensures
            *handler == self.spec_handler(),
    {
        &self.handler
    }

    /// The handler, to set it up for the next update or to take out what it
    /// has received.
    pub fn handler_mut(&mut self) -> (handler: &mut T)
        ensures
            *handler == old(self).spec_handler(),
            final(self).spec_handler() == *final(handler),
            final(self).state() == old(self).state(),
            final(self).config() == old(self).config(),
    {
        &mut self.handler
    }

    /// Takes the sample of this tick at the time the handler's clock shows.
    ///
    /// The clock is read once. Whatever it shows, the engine makes the step of
    /// [`EngineState::step`] for that time.
    pub fn update_input(&mut self, input: Option<Id>)
        ensures
            final(self).state().wf(),
            exists|now: Ms| #[trigger] final(self).follows(old(self), now, input),
    {
        let now = self.handler.get_current_timestamp();
        self.update_input_at(now, input);
        assert(self.follows(old(self), now, input));
    }

    /// Takes the sample of this tick as taken at `now`.
    pub fn update_input_at(&mut self, now: Ms, input: Option<Id>)
        ensures
            final(self).state().wf(),
            final(self).follows(old(self), now, input),
    {
        proof {
            use_type_invariant(&self.reached);
        }
        let state = self.reached.state;
        let next = match state.press_state {
            PressState::Released => Self::released_state(
                &mut self.handler,
                &self.config,
                state,
                now,
                input,
            ),
            PressState::Debouncing => Self::debouncing_state(
                &mut self.handler,
                &self.config,
                state,
                now,
                input,
            ),
            PressState::Pressed => Self::pressed_state(
                &mut self.handler,
                &self.config,
                state,
                now,
                input,
            ),
        };
        self.reached = Reached { state: next };
    }

    /// Takes one sample while nothing is pressed: reports a waiting click
    /// whose window has run out, or begins a press.
    pub fn released_state(
        handler: &mut T,
        config: &Config<'a>,
        state: EngineState,
        now: Ms,
        input: Option<Id>,
    ) -> (next: EngineState)
        requires
            state.wf(),
            state.press_state == PressState::Released,
        ensures
            next.wf(),
            next == state.step_released(*config, now, input).0,
            final(handler).received() == old(handler).received() + state.step_released(
                *config,
                now,
                input,
            ).1,
    {
        let Some(id) = input else {
            let mut next = state;
            if let (None, Some(start), Some(button)) = (
                state.last_press_event_sent,
                state.last_press_start_timestamp,
                state.last_button_pressed,
            ) {
                if now.elapsed_since(start).0 > config.repeated_press_threshold_duration.0 {
                    let press = Event::Press(
                        Self::click_kind(state.consecutive_press_count, Length::Short),
                    );
                    next.last_press_event_sent = Some(press);
                    handler.on_event(button, press);
                }
            }
            assert(final(handler).received() =~= old(handler).received() + state.step_released(
                *config,
                now,
                input,
            ).1);
            return next;
        };
        let mut count: u8 = 1;
        if let Some(start) = state.last_press_start_timestamp {
            let same_button = match state.last_button_pressed {
                Some(last) => last == id,
                None => false,
            };
            if same_button && Self::input_supports_repeated_press_detection(config, id)
                && now.elapsed_since(start).0 <= config.repeated_press_threshold_duration.0 {
                count = state.consecutive_press_count.saturating_add(1);
            }
        }
        let begun = Self::start_press(PressState::Released, now, id, count);
        if config.enable_raw_press_release_events {
            handler.on_event(id, Event::Press(Kind::Raw));
        }
        let next = Self::enter_press(handler, config, begun, now, id);
        assert(final(handler).received() =~= old(handler).received() + state.step_released(
            *config,
            now,
            input,
        ).1);
        next
    }

    /// Takes one sample during the debounce window of a press.
    pub fn debouncing_state(
        handler: &mut T,
        config: &Config<'a>,
        state: EngineState,
        now: Ms,
        input: Option<Id>,
    ) -> (next: EngineState)
        requires
            state.wf(),
            state.press_state == PressState::Debouncing,
        ensures
            next.wf(),
            next == state.step_debouncing(*config, now, input).0,
            final(handler).received() == old(handler).received() + state.step_debouncing(
                *config,
                now,
                input,
            ).1,
    {
        let last = state.last_button_pressed.unwrap();
        let Some(id) = input else {
            if config.enable_raw_press_release_events {
                handler.on_event(last, Event::Release(Kind::Raw));
            }
            let mut next = state;
            next.press_state = PressState::Released;
            assert(final(handler).received() =~= old(handler).received() + state.step_debouncing(
                *config,
                now,
                input,
            ).1);
            return next;
        };
        let current = if last == id {
            state
        } else {
            Self::start_press(PressState::Debouncing, now, id, 1)
        };
        if now.elapsed_since(current.last_press_start_timestamp.unwrap()).0
            > config.short_press_duration.0 {
            Self::held(handler, config, current, now, id)
        } else {
            assert(final(handler).received() =~= old(handler).received() + state.step_debouncing(
                *config,
                now,
                input,
            ).1);
            current
        }
    }

    /// Takes one sample while a press is being classified: follows the press,
    /// releases it, or changes over to another button.
    pub fn pressed_state(
        handler: &mut T,
        config: &Config<'a>,
        state: EngineState,
        now: Ms,
        input: Option<Id>,
    ) -> (next: EngineState)
        requires
            state.wf(),
            state.press_state == PressState::Pressed,
        ensures
            next.wf(),
            next == state.step_pressed(*config, now, input).0,
            final(handler).received() == old(handler).received() + state.step_pressed(
                *config,
                now,
                input,
            ).1,
    {
        let last = state.last_button_pressed.unwrap();
        let Some(id) = input else {
            Self::release(handler, config, state);
            let mut next = state;
            next.press_state = PressState::Released;
            return next;
        };
        if last == id {
            return Self::held(handler, config, state, now, id);
        }
        Self::release(handler, config, state);
        let begun = Self::start_press(PressState::Pressed, now, id, 1);
        let next = Self::enter_press(handler, config, begun, now, id);
        assert(final(handler).received() =~= old(handler).received() + state.step_pressed(
            *config,
            now,
            input,
        ).1);
        next
    }

    /// Reports the release of the button of the current press.
    fn release(handler: &mut T, config: &Config<'a>, state: EngineState)
        requires
            state.wf(),
            state.last_button_pressed is Some,
        ensures
            final(handler).received() == old(handler).received() + state.release_reports(*config),
    {
        let last = state.last_button_pressed.unwrap();
        if config.enable_raw_press_release_events {
            handler.on_event(last, Event::Release(Kind::Raw));
        }
        if let Some(press) = state.last_press_event_sent {
            handler.on_event(last, press.into_release());
        }
        assert(final(handler).received() =~= old(handler).received() + state.release_reports(
            *config,
        ));
    }

    /// Debounces a press that has just begun, or handles it at once where
    /// debouncing is off.
    fn enter_press(
        handler: &mut T,
        config: &Config<'a>,
        begun: EngineState,
        now: Ms,
        id: Id,
    ) -> (next: EngineState)
        requires
            begun.wf(),
            begun.last_button_pressed == Some(id),
            begun.last_press_event_sent is None,
        ensures
            next.wf(),
            next == begun.enter_press(*config, now, id).0,
            final(handler).received() == old(handler).received() + begun.enter_press(
                *config,
                now,
                id,
            ).1,
    {
        if config.short_press_duration.0 > 0 {
            let mut next = begun;
            next.press_state = PressState::Debouncing;
            assert(final(handler).received() =~= old(handler).received() + begun.enter_press(
                *config,
                now,
                id,
            ).1);
            next
        } else {
            Self::held(handler, config, begun, now, id)
        }
    }

    /// Handles a sample of the button of the current press once the debounce
    /// window is behind it.
    fn held(handler: &mut T, config: &Config<'a>, state: EngineState, now: Ms, id: Id) -> (next:
        EngineState)
        requires
            state.wf(),
            state.last_button_pressed == Some(id),
            state.press_state == PressState::Debouncing ==> state.last_press_event_sent is None,
        ensures
            next.wf(),
            next == state.step_held(*config, now, id).0,
            final(handler).received() == old(handler).received() + state.step_held(
                *config,
                now,
                id,
            ).1,
    {
        let elapsed = now.elapsed_since(state.last_press_start_timestamp.unwrap());
        let length = Self::press_length(config, elapsed);
        let mut next = state;
        next.press_state = PressState::Pressed;
        let classify = !Self::input_supports_repeated_press_detection(config, id)
            || config.repeated_press_mode == RepeatedPressMode::Immediate || elapsed.0
            > config.repeated_press_threshold_duration.0;
        if classify {
            match state.last_press_event_sent {
                Some(previous) => {
                    let press = previous.with_length(length);
                    if press != previous {
                        next.last_press_event_sent = Some(press);
                        handler.on_event(id, press);
                    }
                },
                None => {
                    // The first classified press is where the hold notifications count from.
                    let press = Event::Press(
                        Self::click_kind(state.consecutive_press_count, length),
                    );
                    next.last_hold_event_timestamp = Some(now);
                    next.last_press_event_sent = Some(press);
                    handler.on_event(id, press);
                },
            }
        }
        if let Some(since) = next.last_hold_event_timestamp {
            if now.elapsed_since(since).0 > config.hold_event_interval.0 {
                handler.on_event(id, Event::Hold(elapsed));
                next.last_hold_event_timestamp = Some(now);
            }
        }
        assert(final(handler).received() =~= old(handler).received() + state.step_held(
            *config,
            now,
            id,
        ).1);
        next
    }

    /// The state in which a press of `id`, the `count`-th of its run, has just begun.
    fn start_press(press_state: PressState, now: Ms, id: Id, count: u8) -> (begun: EngineState)
        requires
            count >= 1,
        ensures
            begun == EngineState::initial().begin_press(press_state, now, id, count),
            forall|s: EngineState| #[trigger] s.begin_press(press_state, now, id, count) == begun,
            press_state != PressState::Pressed ==> begun.wf(),
    {
        EngineState {
            press_state,
            last_button_pressed: Some(id),
            last_press_start_timestamp: Some(now),
            last_hold_event_timestamp: None,
            last_press_event_sent: None,
            consecutive_press_count: count,
        }
    }

    fn press_length(config: &Config<'a>, elapsed: Ms) -> (length: Length)
        ensures
            length == length_for(*config, elapsed),
    {
        if elapsed.0 >= config.very_long_press_duration.0 {
            Length::VeryLong
        } else if elapsed.0 >= config.long_press_duration.0 {
            Length::Long
        } else if elapsed.0 >= config.medium_press_duration.0 {
            Length::Medium
        } else {
            Length::Short
        }
    }

    fn click_kind(count: u8, length: Length) -> (kind: Kind)
        ensures
            kind == kind_for(count, length),
    {
        match count {
            1 => Kind::Single(length),
            2 => Kind::Double(length),
            3 => Kind::Triple(length),
            n => Kind::Repeated(length, n),
        }
    }

    /// Whether clicks of `input` are counted into runs under `config`.
    pub fn input_supports_repeated_press_detection(config: &Config<'a>, input: Id) -> (supported:
        bool)
        ensures
            supported == config.supports_repeated_press(input),
    {
        let Some(list) = config.buttons_with_repeated_press_support else {
            // Without a list every button takes part.
            return true;
        };
        if list.len() == 0 {
            // An empty list names no button to leave out.
            return true;
        }
        let mut i: usize = 0;
        while i < list.len()
            invariant
                config.buttons_with_repeated_press_support == Some(list),
                i <= list.len(),
                forall|j: int| 0 <= j < i ==> list@[j] != input,
            decreases list.len() - i,
        {
            if list[i] == input {
                assert(list@[i as int] == input);
                return true;
            }
            i += 1;
        }
        false
    }
}

} // verus!
