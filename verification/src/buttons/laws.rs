//! What holds of the engine over whole runs of samples.

use vstd::prelude::*;
use crate::buttons::config::{Config, Id};
use crate::buttons::event::{Event, Kind, Length};
use crate::buttons::model::{kind_for, length_for, EngineState, PressState, Reports};
use crate::time::{lemma_elapsed_ignores_a_common_shift, Ms};

verus! {

/// One tick: when the sample was taken, and which button it showed, if any.
pub type Sample = (Ms, Option<Id>);

/// The state after the engine has taken `samples` one after the other, and
/// everything it has reported on the way.
pub open spec fn run(state: EngineState, config: Config, samples: Seq<Sample>) -> (
    EngineState,
    Reports,
)
    decreases samples.len(),
{
    if samples.len() == 0 {
        (state, Seq::empty())
    } else {
        let (before, reports) = run(state, config, samples.drop_last());
        let (after, more) = before.step(config, samples.last().0, samples.last().1);
        (after, reports + more)
    }
}

/// The lengths that the classified presses among `reports` carry, in order.
pub open spec fn press_lengths(reports: Reports) -> Seq<Length>
    decreases reports.len(),
{
    if reports.len() == 0 {
        Seq::empty()
    } else {
        let earlier = press_lengths(reports.drop_last());
        match reports.last().1 {
            Event::Press(kind) => match kind.length() {
                Some(length) => earlier.push(length),
                None => earlier,
            },
            _ => earlier,
        }
    }
}

/// Every length is longer than all before it.
pub open spec fn rising(lengths: Seq<Length>) -> bool {
    forall|i: int, j: int| 0 <= i < j < lengths.len() ==> lengths[i].rank() < lengths[j].rank()
}

/// A press that has lasted longer is never classified as shorter.
pub proof fn lemma_length_never_regresses(config: Config, earlier: Ms, later: Ms)
    requires
        earlier.0 <= later.0,
    ensures
        length_for(config, earlier).rank() <= length_for(config, later).rank(),
{
}

/// Changing the length of a classified kind keeps its family: the count from
/// which it was made gives the same kind with the new length.
pub proof fn lemma_with_length_keeps_family(count: u8, old_length: Length, new_length: Length)
    ensures
        kind_for(count, old_length).spec_with_length(new_length) == kind_for(count, new_length),
        kind_for(count, new_length).length() == Some(new_length),
        kind_for(count, new_length) != Kind::Raw,
{
}

/// Every step leads from a well-formed state to a well-formed state.
pub proof fn lemma_step_keeps_wf(state: EngineState, config: Config, now: Ms, input: Option<Id>)
    requires
        state.wf(),
    ensures
        state.step(config, now, input).0.wf(),
{
}

/// Every state that the engine reaches from its initial state is well formed.
pub proof fn lemma_run_keeps_wf(state: EngineState, config: Config, samples: Seq<Sample>)
    requires
        state.wf(),
    ensures
        run(state, config, samples).0.wf(),
    decreases samples.len(),
{
    if samples.len() > 0 {
        lemma_run_keeps_wf(state, config, samples.drop_last());
        let before = run(state, config, samples.drop_last()).0;
        lemma_step_keeps_wf(before, config, samples.last().0, samples.last().1);
    }
}

/// The count of consecutive presses is zero only before the first press: in
/// the released state with no click waiting to be reported.
pub proof fn lemma_count_is_zero_only_before_the_first_press(state: EngineState)
    requires
        state.wf(),
        state.consecutive_press_count == 0,
    ensures
        state.press_state == PressState::Released,
        !state.has_pending_click(),
        state.last_press_event_sent is None,
{
}

/// A press that begins with nothing pressed before counts one more than the
/// last press if it continues its run of clicks, as long as the count fits,
/// and is the first of a new run if it does not.
pub proof fn lemma_new_press_is_counted(state: EngineState, config: Config, now: Ms, id: Id)
    requires
        state.wf(),
        state.press_state == PressState::Released,
    ensures
        ({
            let next = state.step(config, now, Some(id)).0;
            &&& next.last_button_pressed == Some(id)
            &&& next.last_press_start_timestamp == Some(now)
            &&& state.continues_run(config, now, id) && state.consecutive_press_count < u8::MAX
                ==> next.consecutive_press_count == state.consecutive_press_count + 1
            &&& !state.continues_run(config, now, id) ==> next.consecutive_press_count == 1
        }),
{
}

/// No update reports the same event twice, and none reports more than three
/// events.
pub proof fn lemma_step_reports_no_event_twice(
    state: EngineState,
    config: Config,
    now: Ms,
    input: Option<Id>,
)
    requires
        state.wf(),
    ensures
        ({
            let reports = state.step(config, now, input).1;
            &&& reports.len() <= 3
            &&& forall|i: int, j: int| 0 <= i < j < reports.len() ==> reports[i] != reports[j]
        }),
{
    let reports = state.step(config, now, input).1;
    assert forall|i: int, j: int| 0 <= i < j < reports.len() implies reports[i] != reports[j] by {
        lemma_step_keeps_wf(state, config, now, input);
    }
}

/// Once a press has been released after it was classified, or before any
/// button was ever pressed, samples without a button report nothing and
/// change nothing, however many there are and whenever they are taken.
pub proof fn lemma_released_engine_stays_silent(
    state: EngineState,
    config: Config,
    samples: Seq<Sample>,
)
    requires
        state.wf(),
        state.press_state == PressState::Released,
        !state.has_pending_click(),
        forall|k: int| 0 <= k < samples.len() ==> samples[k].1 is None,
    ensures
        run(state, config, samples) == (state, Reports::empty()),
    decreases samples.len(),
{
    if samples.len() > 0 {
        lemma_released_engine_stays_silent(state, config, samples.drop_last());
        assert(samples.last().1 is None);
        assert(Reports::empty() + Reports::empty() =~= Reports::empty());
    }
}

/// Idempotence of release: when a press that was classified is released, the
/// release is reported, and the samples without a button that follow report
/// nothing more and change nothing.
pub proof fn lemma_release_is_final(
    state: EngineState,
    config: Config,
    now: Ms,
    samples: Seq<Sample>,
)
    requires
        state.wf(),
        state.press_state == PressState::Pressed,
        state.last_press_event_sent is Some,
        forall|k: int| 0 <= k < samples.len() ==> samples[k].1 is None,
    ensures
        ({
            let (released, reports) = state.step(config, now, None);
            &&& released.press_state == PressState::Released
            &&& reports == state.release_reports(config)
            &&& reports.len() >= 1
            &&& reports.last() == (
                state.last_button_pressed.unwrap(),
                state.last_press_event_sent.unwrap().spec_into_release(),
            )
            &&& run(released, config, samples) == (released, Reports::empty())
        }),
{
    let released = state.step(config, now, None).0;
    lemma_step_keeps_wf(state, config, now, None);
    lemma_released_engine_stays_silent(released, config, samples);
}

/// A click that was released before it was classified is reported at most
/// once by the samples without a button that follow, as a short press of its
/// family and for its button; after that report the engine stays silent.
pub proof fn lemma_pending_click_is_reported_at_most_once(
    state: EngineState,
    config: Config,
    samples: Seq<Sample>,
)
    requires
        state.wf(),
        state.has_pending_click(),
        forall|k: int| 0 <= k < samples.len() ==> samples[k].1 is None,
    ensures
        ({
            let (after, reports) = run(state, config, samples);
            let press = Event::Press(kind_for(state.consecutive_press_count, Length::Short));
            ||| after == state && reports == Reports::empty()
            ||| after == (EngineState { last_press_event_sent: Some(press), ..state }) && reports
                == seq![(state.last_button_pressed.unwrap(), press)]
        }),
    decreases samples.len(),
{
    if samples.len() > 0 {
        lemma_pending_click_is_reported_at_most_once(state, config, samples.drop_last());
        let (before, reports) = run(state, config, samples.drop_last());
        let (after, more) = before.step(config, samples.last().0, samples.last().1);
        assert(samples.last().1 is None);
        let press = Event::Press(kind_for(state.consecutive_press_count, Length::Short));
        if before == state {
            assert(reports + more =~= more);
        } else {
            assert(more =~= Reports::empty());
            assert(reports + more =~= reports);
        }
    }
}

/// A classified press is remembered only when it is reported: where a step
/// leads from a state that remembers none to one that remembers one, that
/// press is among its reports, for the button of the press.
pub proof fn lemma_press_is_remembered_when_reported(
    state: EngineState,
    config: Config,
    now: Ms,
    input: Option<Id>,
)
    requires
        state.wf(),
        state.last_press_event_sent is None,
    ensures
        ({
            let (next, reports) = state.step(config, now, input);
            next.last_press_event_sent matches Some(press) ==> reports.contains(
                (next.last_button_pressed.unwrap(), press),
            )
        }),
{
    let (next, reports) = state.step(config, now, input);
    if next.last_press_event_sent is Some {
        let press = next.last_press_event_sent.unwrap();
        let report = (next.last_button_pressed.unwrap(), press);
        assert(exists|i: int| 0 <= i < reports.len() && reports[i] == report) by {
            if reports.len() >= 1 && reports[0] == report {
            } else if reports.len() >= 2 && reports[1] == report {
            } else if reports.len() >= 3 && reports[2] == report {
            }
        }
    }
}

/// The first classified press of a press is where its hold notifications
/// count from: the step that reports it sets the anchor to the time of the
/// step and reports no hold.
pub proof fn lemma_first_classified_press_anchors_holds(
    state: EngineState,
    config: Config,
    now: Ms,
    id: Id,
)
    requires
        state.wf(),
        state.last_button_pressed == Some(id),
        state.last_press_event_sent is None,
        EngineState::may_classify(
            config,
            id,
            now.spec_elapsed_since(state.last_press_start_timestamp.unwrap()),
        ),
    ensures
        ({
            let (next, reports) = state.step_held(config, now, id);
            &&& next.last_hold_event_timestamp == Some(now)
            &&& reports == seq![(id, next.last_press_event_sent.unwrap())]
        }),
{
    let (next, reports) = state.step_held(config, now, id);
    assert(reports =~= seq![(id, next.last_press_event_sent.unwrap())]);
}

/// Hold cadence: a hold is reported exactly when more than the hold interval
/// has passed since the anchor, which is the first classified press or the
/// last hold. It carries the time since the press began, comes last in its
/// update, and moves the anchor to the time of the update; so two holds are
/// always more than the interval apart.
pub proof fn lemma_hold_is_due_after_the_interval(
    state: EngineState,
    config: Config,
    now: Ms,
    id: Id,
)
    requires
        state.wf(),
        state.last_button_pressed == Some(id),
        state.last_hold_event_timestamp is Some,
    ensures
        ({
            let (next, reports) = state.step_held(config, now, id);
            let anchor = state.last_hold_event_timestamp.unwrap();
            let hold = (
                id,
                Event::Hold(now.spec_elapsed_since(state.last_press_start_timestamp.unwrap())),
            );
            if now.spec_elapsed_since(anchor).0 > config.hold_event_interval.0 {
                &&& reports.len() >= 1
                &&& reports.last() == hold
                &&& next.last_hold_event_timestamp == Some(now)
            } else {
                &&& !reports.contains(hold)
                &&& next.last_hold_event_timestamp == Some(anchor)
            }
        }),
{
}

/// Click counting: a click that was released before it was classified is
/// reported by the samples without a button that follow it exactly once, as
/// soon as one of them is taken after the window for a further click has run
/// out: as a short press of the family that its count gives, for its button,
/// with no release and no hold. Until then nothing is reported.
pub proof fn lemma_pending_click_is_reported_when_the_window_runs_out(
    state: EngineState,
    config: Config,
    samples: Seq<Sample>,
)
    requires
        state.wf(),
        state.has_pending_click(),
        forall|k: int| 0 <= k < samples.len() ==> samples[k].1 is None,
    ensures
        ({
            let began = state.last_press_start_timestamp.unwrap();
            let press = Event::Press(kind_for(state.consecutive_press_count, Length::Short));
            let window_ran_out = exists|k: int|
                0 <= k < samples.len() && (#[trigger] samples[k]).0.spec_elapsed_since(began).0
                    > config.repeated_press_threshold_duration.0;
            &&& state.consecutive_press_count >= 1
            &&& window_ran_out ==> run(state, config, samples) == (
                EngineState { last_press_event_sent: Some(press), ..state },
                seq![(state.last_button_pressed.unwrap(), press)],
            )
            &&& !window_ran_out ==> run(state, config, samples) == (state, Reports::empty())
        }),
    decreases samples.len(),
{
    let began = state.last_press_start_timestamp.unwrap();
    let threshold = config.repeated_press_threshold_duration.0;
    if samples.len() > 0 {
        let earlier = samples.drop_last();
        lemma_pending_click_is_reported_when_the_window_runs_out(state, config, earlier);
        let (before, reports) = run(state, config, earlier);
        let (after, more) = before.step(config, samples.last().0, samples.last().1);
        assert(samples.last().1 is None);
        let ran_out_earlier = exists|k: int|
            0 <= k < earlier.len() && (#[trigger] earlier[k]).0.spec_elapsed_since(began).0
                > threshold;
        let ran_out = exists|k: int|
            0 <= k < samples.len() && (#[trigger] samples[k]).0.spec_elapsed_since(began).0
                > threshold;
        if ran_out_earlier {
            let k = choose|k: int|
                0 <= k < earlier.len() && (#[trigger] earlier[k]).0.spec_elapsed_since(began).0
                    > threshold;
            assert(samples[k] == earlier[k]);
            assert(ran_out);
            assert(more =~= Reports::empty());
            assert(reports + more =~= reports);
        } else {
            assert(before == state);
            assert(reports + more =~= more);
            if samples.last().0.spec_elapsed_since(began).0 > threshold {
                assert(samples[samples.len() - 1] == samples.last());
                assert(ran_out);
            } else {
                if ran_out {
                    let k = choose|k: int|
                        0 <= k < samples.len() && (#[trigger] samples[k]).0.spec_elapsed_since(
                            began,
                        ).0 > threshold;
                    if k < earlier.len() {
                        assert(earlier[k] == samples[k]);
                    }
                }
                assert(!ran_out);
            }
        }
    }
}

/// A classified release answers the classified press last reported: where a
/// step reports the release of a kind other than `Raw`, the press of that kind
/// was the last one reported for the same button, and the step ends the press.
pub proof fn lemma_classified_release_answers_the_press(
    state: EngineState,
    config: Config,
    now: Ms,
    input: Option<Id>,
    i: int,
)
    requires
        state.wf(),
        0 <= i < state.step(config, now, input).1.len(),
        state.step(config, now, input).1[i].1 matches Event::Release(kind) && kind != Kind::Raw,
    ensures
        state.press_state == PressState::Pressed,
        input != state.last_button_pressed,
        state.last_press_event_sent == Some(
            Event::Press(state.step(config, now, input).1[i].1.spec_kind()),
        ),
        state.step(config, now, input).1[i].0 == state.last_button_pressed.unwrap(),
{
}

/// Whether every report is for `id` and is either a hold or the press of a
/// single click.
pub open spec fn only_single_presses_and_holds(reports: Reports, id: Id) -> bool {
    forall|i: int|
        0 <= i < reports.len() ==> {
            &&& (#[trigger] reports[i]).0 == id
            &&& reports[i].1 is Hold || (reports[i].1 matches Event::Press(Kind::Single(_)))
        }
}

/// While the first press of a run is held, it is reported as a single click
/// and as nothing else: every report is for its button and is a hold or the
/// press of a single click, and the count stays one.
pub proof fn lemma_first_press_of_a_run_is_single(
    state: EngineState,
    config: Config,
    id: Id,
    samples: Seq<Sample>,
)
    requires
        state.wf(),
        state.press_state != PressState::Released,
        state.last_button_pressed == Some(id),
        state.consecutive_press_count == 1,
        forall|k: int| 0 <= k < samples.len() ==> (#[trigger] samples[k]).1 == Some(id),
    ensures
        only_single_presses_and_holds(run(state, config, samples).1, id),
        run(state, config, samples).0.wf(),
        run(state, config, samples).0.press_state != PressState::Released,
        run(state, config, samples).0.last_button_pressed == Some(id),
        run(state, config, samples).0.consecutive_press_count == 1,
    decreases samples.len(),
{
    if samples.len() > 0 {
        let earlier = samples.drop_last();
        lemma_first_press_of_a_run_is_single(state, config, id, earlier);
        let (before, reports) = run(state, config, earlier);
        assert(samples.last().1 == Some(id));
        let (after, more) = before.step(config, samples.last().0, Some(id));
        lemma_step_keeps_wf(before, config, samples.last().0, Some(id));
        lemma_with_length_keeps_family(1, Length::Short, Length::Short);
        assert(only_single_presses_and_holds(more, id));
        assert(only_single_presses_and_holds(reports + more, id));
    }
}

/// Combo switch: when another button is sampled while one is pressed, the
/// pressed button is released first, raw if raw events are on and classified
/// if its press was, and the press of the other button begins as the first of
/// a new run. The new press is debounced, or handled at once where debouncing
/// is off; while it is held, it is reported as a single click.
pub proof fn lemma_switch_releases_then_counts_from_one(
    state: EngineState,
    config: Config,
    now: Ms,
    other: Id,
    samples: Seq<Sample>,
)
    requires
        state.wf(),
        state.press_state == PressState::Pressed,
        state.last_button_pressed != Some(other),
        forall|k: int| 0 <= k < samples.len() ==> (#[trigger] samples[k]).1 == Some(other),
    ensures
        ({
            let (switched, reports) = state.step(config, now, Some(other));
            let releases = state.release_reports(config);
            let (held, later) = run(switched, config, samples);
            &&& reports.len() >= releases.len()
            &&& reports.subrange(0, releases.len() as int) == releases
            &&& forall|i: int|
                0 <= i < releases.len() ==> (#[trigger] releases[i]).0
                    == state.last_button_pressed.unwrap() && releases[i].1 is Release
            &&& only_single_presses_and_holds(
                reports.subrange(releases.len() as int, reports.len() as int),
                other,
            )
            &&& switched.last_button_pressed == Some(other)
            &&& switched.last_press_start_timestamp == Some(now)
            &&& switched.consecutive_press_count == 1
            &&& config.short_press_duration.0 > 0 ==> switched.press_state
                == PressState::Debouncing && reports == releases
            &&& config.short_press_duration.0 == 0 ==> switched.press_state == PressState::Pressed
            &&& only_single_presses_and_holds(later, other)
            &&& held.consecutive_press_count == 1
        }),
{
    let (switched, reports) = state.step(config, now, Some(other));
    let releases = state.release_reports(config);
    lemma_step_keeps_wf(state, config, now, Some(other));
    lemma_with_length_keeps_family(1, Length::Short, Length::Short);
    let rest = reports.subrange(releases.len() as int, reports.len() as int);
    assert(reports.subrange(0, releases.len() as int) =~= releases);
    if config.short_press_duration.0 > 0 {
        assert(reports =~= releases);
        assert(rest =~= Reports::empty());
    } else {
        let begun = state.begin_press(PressState::Pressed, now, other, 1);
        assert(rest =~= begun.step_held(config, now, other).1);
    }
    assert(only_single_presses_and_holds(rest, other));
    lemma_first_press_of_a_run_is_single(switched, config, other, samples);
}

/// The state in which everything happened `by` later on the clock.
pub open spec fn state_later_by(state: EngineState, by: Ms) -> EngineState {
    EngineState {
        last_press_start_timestamp: match state.last_press_start_timestamp {
            Some(start) => Some(start.later_by(by)),
            None => None,
        },
        last_hold_event_timestamp: match state.last_hold_event_timestamp {
            Some(anchor) => Some(anchor.later_by(by)),
            None => None,
        },
        ..state
    }
}

/// The same samples, each taken `by` later on the clock.
pub open spec fn samples_later_by(samples: Seq<Sample>, by: Ms) -> Seq<Sample> {
    Seq::new(samples.len(), |k: int| (samples[k].0.later_by(by), samples[k].1))
}

/// Only spans of time matter to the engine, not where the clock stands: a
/// step taken `by` later from a state in which everything happened `by` later
/// reports the same, whether or not the clock wraps in between.
pub proof fn lemma_step_ignores_a_shift_of_the_clock(
    state: EngineState,
    config: Config,
    now: Ms,
    input: Option<Id>,
    by: Ms,
)
    requires
        state.wf(),
    ensures
        state_later_by(state, by).step(config, now.later_by(by), input) == (
            state_later_by(state.step(config, now, input).0, by),
            state.step(config, now, input).1,
        ),
{
    if state.last_press_start_timestamp is Some {
        lemma_elapsed_ignores_a_common_shift(now, state.last_press_start_timestamp.unwrap(), by);
    }
    if state.last_hold_event_timestamp is Some {
        lemma_elapsed_ignores_a_common_shift(now, state.last_hold_event_timestamp.unwrap(), by);
    }
    lemma_elapsed_ignores_a_common_shift(now, now, by);
}

/// The same holds of whole runs of samples.
pub proof fn lemma_run_ignores_a_shift_of_the_clock(
    state: EngineState,
    config: Config,
    samples: Seq<Sample>,
    by: Ms,
)
    requires
        state.wf(),
    ensures
        run(state_later_by(state, by), config, samples_later_by(samples, by)) == (
            state_later_by(run(state, config, samples).0, by),
            run(state, config, samples).1,
        ),
    decreases samples.len(),
{
    if samples.len() > 0 {
        lemma_run_ignores_a_shift_of_the_clock(state, config, samples.drop_last(), by);
        lemma_run_keeps_wf(state, config, samples.drop_last());
        let before = run(state, config, samples.drop_last()).0;
        lemma_step_ignores_a_shift_of_the_clock(
            before,
            config,
            samples.last().0,
            samples.last().1,
            by,
        );
        assert(samples_later_by(samples, by).drop_last() =~= samples_later_by(
            samples.drop_last(),
            by,
        ));
        assert(samples_later_by(samples, by).last() == (
            samples.last().0.later_by(by),
            samples.last().1,
        ));
    }
}

/// The lengths among reports that follow one another are the lengths among
/// the first, then those among the second.
pub proof fn lemma_press_lengths_of_concatenation(first: Reports, second: Reports)
    ensures
        press_lengths(first + second) == press_lengths(first) + press_lengths(second),
    decreases second.len(),
{
    if second.len() == 0 {
        assert(first + second =~= first);
        assert(press_lengths(first) + press_lengths(second) =~= press_lengths(first));
    } else {
        lemma_press_lengths_of_concatenation(first, second.drop_last());
        assert((first + second).drop_last() =~= first + second.drop_last());
        assert((first + second).last() == second.last());
        let earlier = press_lengths(first) + press_lengths(second.drop_last());
        match second.last().1 {
            Event::Press(kind) => match kind.length() {
                Some(length) => {
                    assert(earlier.push(length) =~= press_lengths(first) + press_lengths(
                        second.drop_last(),
                    ).push(length));
                },
                None => {},
            },
            _ => {},
        }
    }
}

/// What a run of samples of one held button keeps true, sample by sample.
spec fn held_invariant(
    start: EngineState,
    config: Config,
    id: Id,
    samples: Seq<Sample>,
    state: EngineState,
    reports: Reports,
) -> bool {
    let began = start.last_press_start_timestamp.unwrap();
    let lengths = press_lengths(reports);
    &&& state.wf()
    &&& state.press_state != PressState::Released
    &&& state.last_button_pressed == Some(id)
    &&& state.last_press_start_timestamp == Some(began)
    &&& state.consecutive_press_count == start.consecutive_press_count
    &&& rising(lengths)
    &&& state.last_press_event_sent is None ==> lengths.len() == 0
    &&& state.last_press_event_sent matches Some(press) ==> {
        &&& samples.len() > 0
        &&& lengths.len() > 0
        &&& press == Event::Press(kind_for(state.consecutive_press_count, lengths.last()))
        &&& lengths.last().rank() <= length_for(
            config,
            samples.last().0.spec_elapsed_since(began),
        ).rank()
    }
}

/// Monotonic length escalation: while one button stays pressed, the lengths
/// of the classified presses that are reported for it only rise. Each report
/// carries a longer length than the one before it, so none is repeated and
/// none goes back.
///
/// The samples are taken at times that do not run backwards and lie within one
/// wrap of the clock after the press began. Where they are close enough to
/// meet every length, the lengths reported are Short, Medium, Long and
/// VeryLong, in this order.
pub proof fn lemma_lengths_of_a_held_press_rise(
    state: EngineState,
    config: Config,
    id: Id,
    samples: Seq<Sample>,
)
    requires
        state.wf(),
        state.press_state != PressState::Released,
        state.last_button_pressed == Some(id),
        state.last_press_event_sent is None,
        forall|k: int| 0 <= k < samples.len() ==> (#[trigger] samples[k]).1 == Some(id),
        forall|i: int, j: int|
            0 <= i <= j < samples.len() ==> samples[i].0.spec_elapsed_since(
                state.last_press_start_timestamp.unwrap(),
            ).0 <= samples[j].0.spec_elapsed_since(state.last_press_start_timestamp.unwrap()).0,
    ensures
        rising(press_lengths(run(state, config, samples).1)),
        run(state, config, samples).0.press_state != PressState::Released,
        run(state, config, samples).0.consecutive_press_count == state.consecutive_press_count,
{
    lemma_held_run_keeps_invariant(state, config, id, samples);
}

proof fn lemma_held_run_keeps_invariant(
    state: EngineState,
    config: Config,
    id: Id,
    samples: Seq<Sample>,
)
    requires
        state.wf(),
        state.press_state != PressState::Released,
        state.last_button_pressed == Some(id),
        state.last_press_event_sent is None,
        forall|k: int| 0 <= k < samples.len() ==> (#[trigger] samples[k]).1 == Some(id),
        forall|i: int, j: int|
            0 <= i <= j < samples.len() ==> samples[i].0.spec_elapsed_since(
                state.last_press_start_timestamp.unwrap(),
            ).0 <= samples[j].0.spec_elapsed_since(state.last_press_start_timestamp.unwrap()).0,
    ensures
        held_invariant(
            state,
            config,
            id,
            samples,
            run(state, config, samples).0,
            run(state, config, samples).1,
        ),
    decreases samples.len(),
{
    let began = state.last_press_start_timestamp.unwrap();
    if samples.len() == 0 {
    } else {
        let earlier = samples.drop_last();
        lemma_held_run_keeps_invariant(state, config, id, earlier);
        let (before, reports) = run(state, config, earlier);
        let now = samples.last().0;
        assert(samples.last().1 == Some(id));
        let (after, more) = before.step(config, now, Some(id));
        let elapsed = now.spec_elapsed_since(began);
        let length = length_for(config, elapsed);
        lemma_step_keeps_wf(before, config, now, Some(id));
        lemma_press_lengths_of_concatenation(reports, more);
        let lengths = press_lengths(reports);
        if earlier.len() > 0 {
            assert(earlier.last() == samples[samples.len() - 2]);
            lemma_length_never_regresses(config, earlier.last().0.spec_elapsed_since(began), elapsed);
        }
        if more.len() == 0 {
            assert(press_lengths(more) =~= Seq::<Length>::empty());
            assert(lengths + press_lengths(more) =~= lengths);
        } else {
            // Only a sample handled as pressed reports anything.
            let (held, held_reports) = before.step_held(config, now, id);
            assert(after == held && more == held_reports);
            let press = before.classified_press(config, elapsed);
            lemma_with_length_keeps_family(before.consecutive_press_count, length, length);
            if before.last_press_event_sent is Some {
                lemma_with_length_keeps_family(
                    before.consecutive_press_count,
                    lengths.last(),
                    length,
                );
            }
            assert(press == Event::Press(kind_for(before.consecutive_press_count, length)));
            let hold = (id, Event::Hold(elapsed));
            let reported = EngineState::may_classify(config, id, elapsed)
                && before.last_press_event_sent != Some(press);
            if reported {
                assert(more == seq![(id, press)] || more == seq![(id, press), hold]) by {
                    assert(more =~= seq![(id, press)] || more =~= seq![(id, press), hold]);
                }
                lemma_press_lengths_of_pair(id, press, elapsed);
                assert(press_lengths(more) == seq![length]);
                assert(lengths + seq![length] =~= lengths.push(length));
                if before.last_press_event_sent is Some {
                    assert(lengths.last() != length);
                    assert(lengths.last().rank() < length.rank());
                }
                assert(rising(lengths.push(length)));
            } else {
                assert(more =~= seq![hold]);
                lemma_press_lengths_of_hold(id, elapsed);
                assert(lengths + press_lengths(more) =~= lengths);
            }
        }
    }
}

proof fn lemma_press_lengths_of_pair(id: Id, press: Event, elapsed: Ms)
    requires
        press matches Event::Press(kind) && kind.length() is Some,
    ensures
        press_lengths(seq![(id, press)]) == seq![press.spec_kind().length().unwrap()],
        press_lengths(seq![(id, press), (id, Event::Hold(elapsed))]) == seq![
            press.spec_kind().length().unwrap(),
        ],
{
    let one = seq![(id, press)];
    let two = seq![(id, press), (id, Event::Hold(elapsed))];
    assert(one.drop_last() =~= Reports::empty());
    assert(press_lengths(one.drop_last()) =~= Seq::<Length>::empty());
    assert(press_lengths(one) =~= seq![press.spec_kind().length().unwrap()]);
    assert(two.drop_last() =~= one);
}

proof fn lemma_press_lengths_of_hold(id: Id, elapsed: Ms)
    ensures
        press_lengths(seq![(id, Event::Hold(elapsed))]) == Seq::<Length>::empty(),
{
    let one = seq![(id, Event::Hold(elapsed))];
    assert(one.drop_last() =~= Reports::empty());
    assert(press_lengths(one.drop_last()) =~= Seq::<Length>::empty());
    assert(one.last().1 == Event::Hold(elapsed));
}

} // verus!
