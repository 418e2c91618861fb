use std::cell::Cell;

use ecospeaker::buttons::config::{Config, Id, RepeatedPressMode};
use ecospeaker::buttons::engine::{Buttons, Handler};
use ecospeaker::buttons::event::{Event, Kind, Length};
use ecospeaker::buttons::model::{EngineState, PressState, Reports};
use ecospeaker::time::Ms;

/// Keeps what the engine reports, and shows the time it is told to show.
struct Recorder {
    now: Cell<usize>,
    log: Vec<(Id, Event)>,
}

impl Recorder {
    fn new() -> Self {
        Recorder { now: Cell::new(0), log: Vec::new() }
    }
}

impl Handler for Recorder {
    // Only contracts speak of the history; nothing ever calls this.
    fn received(&self) -> Reports {
        unreachable!()
    }

    fn on_event(&mut self, button: Id, event: Event) {
        self.log.push((button, event));
    }

    fn get_current_timestamp(&self) -> Ms {
        Ms(self.now.get())
    }
}

fn reference_config(mode: RepeatedPressMode, raw: bool) -> Config<'static> {
    Config {
        short_press_duration: Ms(50),
        medium_press_duration: Ms(1000),
        long_press_duration: Ms(5000),
        very_long_press_duration: Ms(30000),
        hold_event_interval: Ms(100),
        repeated_press_threshold_duration: Ms(500),
        buttons_with_repeated_press_support: None,
        repeated_press_mode: mode,
        enable_raw_press_release_events: raw,
    }
}

/// Feeds one sample through the handler's clock.
fn tick(buttons: &mut Buttons<'static, Recorder>, now: usize, input: Option<Id>) {
    buttons.handler().now.set(now);
    buttons.update_input(input);
}

fn log(buttons: &Buttons<'static, Recorder>) -> Vec<(Id, Event)> {
    buttons.handler().log.clone()
}

fn lengths_of_presses(log: &[(Id, Event)]) -> Vec<Length> {
    let mut lengths = Vec::new();
    for (_, event) in log {
        match event {
            Event::Press(Kind::Single(l))
            | Event::Press(Kind::Double(l))
            | Event::Press(Kind::Triple(l))
            | Event::Press(Kind::Repeated(l, _)) => lengths.push(*l),
            _ => {}
        }
    }
    lengths
}

#[test]
fn held_press_of_1200_ms_reports_short_then_medium_then_release() {
    let mut buttons = Buttons::new(Recorder::new(), reference_config(RepeatedPressMode::Immediate, true));
    for i in 0..40 {
        tick(&mut buttons, i * 30, Some(Id(0)));
    }
    tick(&mut buttons, 1200, None);
    let id = Id(0);
    assert_eq!(
        log(&buttons),
        vec![
            (id, Event::Press(Kind::Raw)),
            (id, Event::Press(Kind::Single(Length::Short))),
            (id, Event::Hold(Ms(180))),
            (id, Event::Hold(Ms(300))),
            (id, Event::Hold(Ms(420))),
            (id, Event::Hold(Ms(540))),
            (id, Event::Hold(Ms(660))),
            (id, Event::Hold(Ms(780))),
            (id, Event::Hold(Ms(900))),
            (id, Event::Press(Kind::Single(Length::Medium))),
            (id, Event::Hold(Ms(1020))),
            (id, Event::Hold(Ms(1140))),
            (id, Event::Release(Kind::Raw)),
            (id, Event::Release(Kind::Single(Length::Medium))),
        ]
    );
}

#[test]
fn raw_press_comes_on_the_first_tick_and_the_classified_press_after_debounce() {
    let mut buttons = Buttons::new(Recorder::new(), reference_config(RepeatedPressMode::Immediate, true));
    tick(&mut buttons, 0, Some(Id(0)));
    assert_eq!(log(&buttons), vec![(Id(0), Event::Press(Kind::Raw))]);
    tick(&mut buttons, 30, Some(Id(0)));
    assert_eq!(log(&buttons).len(), 1);
    tick(&mut buttons, 60, Some(Id(0)));
    assert_eq!(log(&buttons).len(), 2);
    assert_eq!(log(&buttons)[1], (Id(0), Event::Press(Kind::Single(Length::Short))));
}

#[test]
fn press_exactly_as_long_as_the_debounce_window_is_still_debounced() {
    let mut buttons = Buttons::new(Recorder::new(), reference_config(RepeatedPressMode::Immediate, false));
    tick(&mut buttons, 0, Some(Id(0)));
    tick(&mut buttons, 50, Some(Id(0)));
    assert_eq!(log(&buttons), vec![]);
    tick(&mut buttons, 51, Some(Id(0)));
    assert_eq!(log(&buttons), vec![(Id(0), Event::Press(Kind::Single(Length::Short)))]);
}

#[test]
fn no_sample_on_a_new_engine_reports_nothing() {
    let mut buttons = Buttons::new(Recorder::new(), reference_config(RepeatedPressMode::Deferred, true));
    for i in 0..100 {
        tick(&mut buttons, i * 30, None);
    }
    assert_eq!(log(&buttons), vec![]);
}

#[test]
fn release_after_a_classified_press_is_final() {
    let mut buttons = Buttons::new(Recorder::new(), reference_config(RepeatedPressMode::Immediate, true));
    tick(&mut buttons, 0, Some(Id(3)));
    tick(&mut buttons, 60, Some(Id(3)));
    tick(&mut buttons, 90, None);
    let after_release = log(&buttons);
    assert_eq!(
        after_release,
        vec![
            (Id(3), Event::Press(Kind::Raw)),
            (Id(3), Event::Press(Kind::Single(Length::Short))),
            (Id(3), Event::Release(Kind::Raw)),
            (Id(3), Event::Release(Kind::Single(Length::Short))),
        ]
    );
    for i in 0..200 {
        tick(&mut buttons, 120 + i * 30, None);
    }
    assert_eq!(log(&buttons), after_release);
}

#[test]
fn lengths_escalate_short_medium_long_very_long() {
    let mut buttons = Buttons::new(Recorder::new(), reference_config(RepeatedPressMode::Immediate, false));
    let mut t = 0;
    while t <= 31_000 {
        tick(&mut buttons, t, Some(Id(0)));
        t += 30;
    }
    assert_eq!(
        lengths_of_presses(&log(&buttons)),
        vec![Length::Short, Length::Medium, Length::Long, Length::VeryLong]
    );
}

#[test]
fn press_exactly_at_a_threshold_has_the_longer_length() {
    let mut buttons = Buttons::new(Recorder::new(), reference_config(RepeatedPressMode::Immediate, false));
    tick(&mut buttons, 0, Some(Id(0)));
    tick(&mut buttons, 999, Some(Id(0)));
    tick(&mut buttons, 1000, Some(Id(0)));
    tick(&mut buttons, 4999, Some(Id(0)));
    tick(&mut buttons, 5000, Some(Id(0)));
    tick(&mut buttons, 29_999, Some(Id(0)));
    tick(&mut buttons, 30_000, Some(Id(0)));
    let presses: Vec<(Id, Event)> = log(&buttons)
        .into_iter()
        .filter(|(_, e)| matches!(e, Event::Press(_)))
        .collect();
    assert_eq!(
        presses,
        vec![
            (Id(0), Event::Press(Kind::Single(Length::Short))),
            (Id(0), Event::Press(Kind::Single(Length::Medium))),
            (Id(0), Event::Press(Kind::Single(Length::Long))),
            (Id(0), Event::Press(Kind::Single(Length::VeryLong))),
        ]
    );
}

#[test]
fn three_quick_clicks_are_one_deferred_triple() {
    let mut buttons = Buttons::new(Recorder::new(), reference_config(RepeatedPressMode::Deferred, false));
    let mut t = 0;
    for _ in 0..3 {
        for _ in 0..3 {
            tick(&mut buttons, t, Some(Id(0)));
            t += 30;
        }
        for _ in 0..2 {
            tick(&mut buttons, t, None);
            t += 30;
        }
    }
    assert_eq!(log(&buttons), vec![]);
    // The third press began at 300; the window runs out after 800.
    while t <= 800 {
        tick(&mut buttons, t, None);
        t += 30;
    }
    assert_eq!(log(&buttons), vec![]);
    while t <= 3000 {
        tick(&mut buttons, t, None);
        t += 30;
    }
    assert_eq!(log(&buttons), vec![(Id(0), Event::Press(Kind::Triple(Length::Short)))]);
}

#[test]
fn fifth_click_of_a_run_is_repeated_with_its_count() {
    let mut buttons = Buttons::new(Recorder::new(), reference_config(RepeatedPressMode::Deferred, false));
    let mut t = 0;
    for _ in 0..5 {
        tick(&mut buttons, t, Some(Id(7)));
        tick(&mut buttons, t + 30, None);
        t += 60;
    }
    tick(&mut buttons, 2000, None);
    assert_eq!(log(&buttons), vec![(Id(7), Event::Press(Kind::Repeated(Length::Short, 5)))]);
}

#[test]
fn click_after_the_window_starts_a_new_run() {
    let mut buttons = Buttons::new(Recorder::new(), reference_config(RepeatedPressMode::Deferred, false));
    tick(&mut buttons, 0, Some(Id(0)));
    tick(&mut buttons, 30, None);
    tick(&mut buttons, 501, None);
    tick(&mut buttons, 600, Some(Id(0)));
    tick(&mut buttons, 630, None);
    tick(&mut buttons, 1101, None);
    assert_eq!(
        log(&buttons),
        vec![
            (Id(0), Event::Press(Kind::Single(Length::Short))),
            (Id(0), Event::Press(Kind::Single(Length::Short))),
        ]
    );
}

#[test]
fn click_of_another_button_starts_a_new_run() {
    let mut buttons = Buttons::new(Recorder::new(), reference_config(RepeatedPressMode::Deferred, false));
    tick(&mut buttons, 0, Some(Id(0)));
    tick(&mut buttons, 30, None);
    tick(&mut buttons, 60, Some(Id(1)));
    tick(&mut buttons, 90, None);
    tick(&mut buttons, 561, None);
    assert_eq!(log(&buttons), vec![(Id(1), Event::Press(Kind::Single(Length::Short)))]);
}

#[test]
fn button_outside_the_list_is_classified_at_once_and_never_counted() {
    let list: &'static [Id] = &[Id(1)];
    let mut config = reference_config(RepeatedPressMode::Deferred, false);
    config.buttons_with_repeated_press_support = Some(list);
    let mut buttons = Buttons::new(Recorder::new(), config);
    tick(&mut buttons, 0, Some(Id(0)));
    tick(&mut buttons, 60, Some(Id(0)));
    tick(&mut buttons, 90, None);
    tick(&mut buttons, 120, Some(Id(0)));
    tick(&mut buttons, 180, Some(Id(0)));
    assert_eq!(
        log(&buttons),
        vec![
            (Id(0), Event::Press(Kind::Single(Length::Short))),
            (Id(0), Event::Release(Kind::Single(Length::Short))),
            (Id(0), Event::Press(Kind::Single(Length::Short))),
        ]
    );
}

#[test]
fn button_in_the_list_waits_in_deferred_mode() {
    let list: &'static [Id] = &[Id(1)];
    let mut config = reference_config(RepeatedPressMode::Deferred, false);
    config.buttons_with_repeated_press_support = Some(list);
    let mut buttons = Buttons::new(Recorder::new(), config);
    tick(&mut buttons, 0, Some(Id(1)));
    tick(&mut buttons, 60, Some(Id(1)));
    tick(&mut buttons, 500, Some(Id(1)));
    assert_eq!(log(&buttons), vec![]);
    tick(&mut buttons, 501, Some(Id(1)));
    assert_eq!(log(&buttons), vec![(Id(1), Event::Press(Kind::Single(Length::Short)))]);
}

#[test]
fn switching_buttons_without_release_releases_the_first_and_presses_the_second() {
    let mut buttons = Buttons::new(Recorder::new(), reference_config(RepeatedPressMode::Immediate, true));
    tick(&mut buttons, 0, Some(Id(0)));
    tick(&mut buttons, 60, Some(Id(0)));
    tick(&mut buttons, 90, Some(Id(1)));
    assert_eq!(
        log(&buttons),
        vec![
            (Id(0), Event::Press(Kind::Raw)),
            (Id(0), Event::Press(Kind::Single(Length::Short))),
            (Id(0), Event::Release(Kind::Raw)),
            (Id(0), Event::Release(Kind::Single(Length::Short))),
        ]
    );
    assert_eq!(buttons.snapshot().consecutive_press_count, 1);
    assert_eq!(buttons.snapshot().last_button_pressed, Some(Id(1)));
    assert_eq!(buttons.snapshot().press_state, PressState::Debouncing);
    tick(&mut buttons, 120, Some(Id(1)));
    tick(&mut buttons, 150, Some(Id(1)));
    assert_eq!(log(&buttons).len(), 5);
    assert_eq!(log(&buttons)[4], (Id(1), Event::Press(Kind::Single(Length::Short))));
    assert_eq!(buttons.snapshot().consecutive_press_count, 1);
    assert_eq!(buttons.snapshot().press_state, PressState::Pressed);
}

#[test]
fn switching_buttons_after_a_double_click_counts_from_one() {
    let mut buttons = Buttons::new(Recorder::new(), reference_config(RepeatedPressMode::Immediate, false));
    tick(&mut buttons, 0, Some(Id(0)));
    tick(&mut buttons, 30, None);
    tick(&mut buttons, 60, Some(Id(0)));
    tick(&mut buttons, 120, Some(Id(0)));
    tick(&mut buttons, 150, Some(Id(1)));
    tick(&mut buttons, 210, Some(Id(1)));
    assert_eq!(
        log(&buttons),
        vec![
            (Id(0), Event::Press(Kind::Double(Length::Short))),
            (Id(0), Event::Release(Kind::Double(Length::Short))),
            (Id(1), Event::Press(Kind::Single(Length::Short))),
        ]
    );
}

#[test]
fn hold_events_come_every_101_ms_from_the_first_classified_press() {
    let mut buttons = Buttons::new(Recorder::new(), reference_config(RepeatedPressMode::Immediate, false));
    for t in 0..=2350 {
        tick(&mut buttons, t, Some(Id(0)));
    }
    let holds: Vec<usize> = log(&buttons)
        .iter()
        .filter_map(|(_, e)| match e {
            Event::Hold(Ms(elapsed)) => Some(*elapsed),
            _ => None,
        })
        .collect();
    // The press is classified at 51; a hold is due when more than 100 ms have passed.
    assert_eq!(holds.len(), 22);
    assert_eq!(holds[0], 152);
    for pair in holds.windows(2) {
        assert_eq!(pair[1] - pair[0], 101);
    }
    assert_eq!(holds[21], 51 + 22 * 101);
}

#[test]
fn without_debouncing_a_press_is_classified_in_the_tick_it_begins() {
    let mut config = reference_config(RepeatedPressMode::Immediate, true);
    config.short_press_duration = Ms(0);
    let mut buttons = Buttons::new(Recorder::new(), config);
    tick(&mut buttons, 10, Some(Id(2)));
    assert_eq!(
        log(&buttons),
        vec![(Id(2), Event::Press(Kind::Raw)), (Id(2), Event::Press(Kind::Single(Length::Short)))]
    );
    tick(&mut buttons, 20, Some(Id(4)));
    assert_eq!(
        log(&buttons)[2..].to_vec(),
        vec![
            (Id(2), Event::Release(Kind::Raw)),
            (Id(2), Event::Release(Kind::Single(Length::Short))),
            (Id(4), Event::Press(Kind::Single(Length::Short))),
        ]
    );
}

#[test]
fn release_during_debounce_reports_only_the_raw_release() {
    let mut buttons = Buttons::new(Recorder::new(), reference_config(RepeatedPressMode::Immediate, true));
    tick(&mut buttons, 0, Some(Id(0)));
    tick(&mut buttons, 30, None);
    assert_eq!(
        log(&buttons),
        vec![(Id(0), Event::Press(Kind::Raw)), (Id(0), Event::Release(Kind::Raw))]
    );
}

#[test]
fn click_too_short_to_classify_is_reported_after_the_window_without_release() {
    let mut buttons = Buttons::new(Recorder::new(), reference_config(RepeatedPressMode::Immediate, true));
    tick(&mut buttons, 0, Some(Id(0)));
    tick(&mut buttons, 30, None);
    tick(&mut buttons, 500, None);
    assert_eq!(log(&buttons).len(), 2);
    tick(&mut buttons, 501, None);
    tick(&mut buttons, 5000, None);
    assert_eq!(
        log(&buttons)[2..].to_vec(),
        vec![(Id(0), Event::Press(Kind::Single(Length::Short)))]
    );
}

#[test]
fn another_button_during_debounce_starts_its_own_debounce() {
    let mut buttons = Buttons::new(Recorder::new(), reference_config(RepeatedPressMode::Immediate, false));
    tick(&mut buttons, 0, Some(Id(0)));
    tick(&mut buttons, 40, Some(Id(1)));
    tick(&mut buttons, 60, Some(Id(1)));
    assert_eq!(log(&buttons), vec![]);
    tick(&mut buttons, 91, Some(Id(1)));
    assert_eq!(log(&buttons), vec![(Id(1), Event::Press(Kind::Single(Length::Short)))]);
}

#[test]
fn timestamps_that_wrap_around_are_measured_correctly() {
    let mut buttons = Buttons::new(Recorder::new(), reference_config(RepeatedPressMode::Immediate, false));
    let start = usize::MAX - 20;
    buttons.update_input_at(Ms(start), Some(Id(0)));
    buttons.update_input_at(Ms(start.wrapping_add(51)), Some(Id(0)));
    assert_eq!(log(&buttons), vec![(Id(0), Event::Press(Kind::Single(Length::Short)))]);
    buttons.update_input_at(Ms(start.wrapping_add(152)), Some(Id(0)));
    assert_eq!(log(&buttons)[1], (Id(0), Event::Hold(Ms(152))));
}

#[test]
fn elapsed_since_subtracts_and_wraps() {
    assert_eq!(Ms(1200).elapsed_since(Ms(200)), Ms(1000));
    assert_eq!(Ms(7).elapsed_since(Ms(7)), Ms(0));
    assert_eq!(Ms(5).elapsed_since(Ms(usize::MAX - 4)), Ms(10));
    assert_eq!(Ms(0).elapsed_since(Ms(1)), Ms(usize::MAX));
}

#[test]
fn timestamps_add_and_subtract() {
    assert_eq!(Ms(40).add(Ms(2)), Ms(42));
    assert_eq!(Ms(40).sub(Ms(2)), Ms(38));
}

#[test]
fn press_turns_into_release_of_the_same_kind() {
    assert_eq!(
        Event::Press(Kind::Double(Length::Long)).into_release(),
        Event::Release(Kind::Double(Length::Long))
    );
    assert_eq!(Event::Press(Kind::Raw).into_release(), Event::Release(Kind::Raw));
    assert_eq!(
        Event::Release(Kind::Single(Length::Short)).into_release(),
        Event::Release(Kind::Single(Length::Short))
    );
}

#[test]
fn with_length_keeps_the_click_family() {
    assert_eq!(Kind::Single(Length::Short).with_length(Length::Long), Kind::Single(Length::Long));
    assert_eq!(Kind::Double(Length::Short).with_length(Length::Medium), Kind::Double(Length::Medium));
    assert_eq!(Kind::Triple(Length::Long).with_length(Length::Short), Kind::Triple(Length::Short));
    assert_eq!(
        Kind::Repeated(Length::Short, 9).with_length(Length::VeryLong),
        Kind::Repeated(Length::VeryLong, 9)
    );
    assert_eq!(
        Event::Press(Kind::Triple(Length::Short)).with_length(Length::Medium),
        Event::Press(Kind::Triple(Length::Medium))
    );
    assert_eq!(
        Event::Release(Kind::Single(Length::Short)).with_length(Length::Long),
        Event::Release(Kind::Single(Length::Long))
    );
}

#[test]
fn kind_of_a_press_or_release() {
    assert_eq!(Event::Press(Kind::Raw).kind(), Kind::Raw);
    assert_eq!(Event::Release(Kind::Repeated(Length::Long, 4)).kind(), Kind::Repeated(Length::Long, 4));
}

#[test]
fn new_engine_is_released_and_remembers_nothing() {
    let buttons = Buttons::new(Recorder::new(), reference_config(RepeatedPressMode::Immediate, true));
    assert_eq!(
        buttons.snapshot(),
        EngineState {
            press_state: PressState::Released,
            last_button_pressed: None,
            last_press_start_timestamp: None,
            last_hold_event_timestamp: None,
            last_press_event_sent: None,
            consecutive_press_count: 0,
        }
    );
}

#[test]
fn state_follows_a_press_through_debounce_hold_and_release() {
    let mut buttons = Buttons::new(Recorder::new(), reference_config(RepeatedPressMode::Immediate, false));
    tick(&mut buttons, 100, Some(Id(5)));
    assert_eq!(
        buttons.snapshot(),
        EngineState {
            press_state: PressState::Debouncing,
            last_button_pressed: Some(Id(5)),
            last_press_start_timestamp: Some(Ms(100)),
            last_hold_event_timestamp: None,
            last_press_event_sent: None,
            consecutive_press_count: 1,
        }
    );
    tick(&mut buttons, 160, Some(Id(5)));
    let pressed = EngineState {
        press_state: PressState::Pressed,
        last_button_pressed: Some(Id(5)),
        last_press_start_timestamp: Some(Ms(100)),
        last_hold_event_timestamp: Some(Ms(160)),
        last_press_event_sent: Some(Event::Press(Kind::Single(Length::Short))),
        consecutive_press_count: 1,
    };
    assert_eq!(buttons.snapshot(), pressed);
    tick(&mut buttons, 261, Some(Id(5)));
    assert_eq!(
        buttons.snapshot(),
        EngineState { last_hold_event_timestamp: Some(Ms(261)), ..pressed }
    );
    tick(&mut buttons, 300, None);
    assert_eq!(
        buttons.snapshot(),
        EngineState {
            press_state: PressState::Released,
            last_hold_event_timestamp: Some(Ms(261)),
            ..pressed
        }
    );
}

#[test]
fn count_of_a_run_stops_at_255() {
    let mut buttons = Buttons::new(Recorder::new(), reference_config(RepeatedPressMode::Deferred, false));
    let mut t = 0;
    for _ in 0..300 {
        tick(&mut buttons, t, Some(Id(0)));
        tick(&mut buttons, t + 30, None);
        t += 60;
    }
    assert_eq!(buttons.snapshot().consecutive_press_count, 255);
    tick(&mut buttons, t + 1000, None);
    assert_eq!(log(&buttons), vec![(Id(0), Event::Press(Kind::Repeated(Length::Short, 255)))]);
}

#[test]
fn release_before_classification_in_deferred_mode_reports_no_release() {
    let mut buttons = Buttons::new(Recorder::new(), reference_config(RepeatedPressMode::Deferred, true));
    tick(&mut buttons, 0, Some(Id(0)));
    tick(&mut buttons, 60, Some(Id(0)));
    tick(&mut buttons, 300, Some(Id(0)));
    tick(&mut buttons, 330, None);
    assert_eq!(
        log(&buttons),
        vec![(Id(0), Event::Press(Kind::Raw)), (Id(0), Event::Release(Kind::Raw))]
    );
    tick(&mut buttons, 501, None);
    assert_eq!(log(&buttons)[2..].to_vec(), vec![(Id(0), Event::Press(Kind::Single(Length::Short)))]);
}

#[test]
fn long_press_in_deferred_mode_is_classified_after_the_window() {
    let mut buttons = Buttons::new(Recorder::new(), reference_config(RepeatedPressMode::Deferred, false));
    tick(&mut buttons, 0, Some(Id(0)));
    tick(&mut buttons, 60, Some(Id(0)));
    tick(&mut buttons, 500, Some(Id(0)));
    assert_eq!(log(&buttons), vec![]);
    tick(&mut buttons, 510, Some(Id(0)));
    tick(&mut buttons, 1200, Some(Id(0)));
    tick(&mut buttons, 1230, None);
    assert_eq!(
        log(&buttons),
        vec![
            (Id(0), Event::Press(Kind::Single(Length::Short))),
            (Id(0), Event::Press(Kind::Single(Length::Medium))),
            (Id(0), Event::Hold(Ms(1200))),
            (Id(0), Event::Release(Kind::Single(Length::Medium))),
        ]
    );
}

#[test]
fn empty_list_counts_clicks_of_every_button() {
    let list: &'static [Id] = &[];
    let mut config = reference_config(RepeatedPressMode::Deferred, false);
    config.buttons_with_repeated_press_support = Some(list);
    assert!(Buttons::<Recorder>::input_supports_repeated_press_detection(&config, Id(0)));
    assert!(Buttons::<Recorder>::input_supports_repeated_press_detection(&config, Id(9)));
    let mut buttons = Buttons::new(Recorder::new(), config);
    // In deferred mode a counted button is not classified before the window has run out.
    tick(&mut buttons, 0, Some(Id(0)));
    tick(&mut buttons, 60, Some(Id(0)));
    tick(&mut buttons, 90, None);
    tick(&mut buttons, 120, Some(Id(0)));
    tick(&mut buttons, 180, Some(Id(0)));
    tick(&mut buttons, 210, None);
    assert_eq!(log(&buttons), vec![]);
    tick(&mut buttons, 621, None);
    assert_eq!(log(&buttons), vec![(Id(0), Event::Press(Kind::Double(Length::Short)))]);
}

#[test]
fn empty_list_without_debouncing_waits_in_deferred_mode() {
    let list: &'static [Id] = &[];
    let mut config = reference_config(RepeatedPressMode::Deferred, false);
    config.buttons_with_repeated_press_support = Some(list);
    config.short_press_duration = Ms(0);
    let mut buttons = Buttons::new(Recorder::new(), config);
    tick(&mut buttons, 0, Some(Id(3)));
    tick(&mut buttons, 500, Some(Id(3)));
    assert_eq!(log(&buttons), vec![]);
    tick(&mut buttons, 501, Some(Id(3)));
    assert_eq!(log(&buttons), vec![(Id(3), Event::Press(Kind::Single(Length::Short)))]);
}

#[test]
fn list_decides_which_buttons_are_counted() {
    let list: &'static [Id] = &[Id(1), Id(4)];
    let mut config = reference_config(RepeatedPressMode::Deferred, false);
    config.buttons_with_repeated_press_support = Some(list);
    assert!(Buttons::<Recorder>::input_supports_repeated_press_detection(&config, Id(1)));
    assert!(Buttons::<Recorder>::input_supports_repeated_press_detection(&config, Id(4)));
    assert!(!Buttons::<Recorder>::input_supports_repeated_press_detection(&config, Id(0)));
    config.buttons_with_repeated_press_support = None;
    assert!(Buttons::<Recorder>::input_supports_repeated_press_detection(&config, Id(0)));
}
