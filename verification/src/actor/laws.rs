//! What holds of an actor's run loop over whole runs of decisions.

use vstd::prelude::*;
use crate::actor::run_loop::{waited, ActorState, Step};

verus! {

/// The decisions of the run loop when it is asked at each of `times` in turn,
/// and the state after the last.
pub open spec fn decisions<M>(state: ActorState<M>, idle_timeout: u64, times: Seq<u64>) -> (
    ActorState<M>,
    Seq<Step<M>>,
)
    decreases times.len(),
{
    if times.len() == 0 {
        (state, Seq::empty())
    } else {
        let (before, steps) = decisions(state, idle_timeout, times.drop_last());
        let (after, step) = before.next(idle_timeout, times.last());
        (after, steps.push(step))
    }
}

/// The time `span` milliseconds after `from` on a clock that wraps at
/// `u64::MAX`.
pub open spec fn later(from: u64, span: u64) -> u64 {
    if from + span > u64::MAX {
        (from + span - u64::MAX - 1) as u64
    } else {
        (from + span) as u64
    }
}

/// Whether the loop, asked at `began` with an empty mailbox and asked again
/// exactly when each wait is over, spends each of its next `turns` turns the
/// same way: it waits for the whole idle timeout, decides `Idle` at the end of
/// it, and is then in the state in which the turn began.
pub open spec fn idles_every_interval<M>(
    state: ActorState<M>,
    idle_timeout: u64,
    began: u64,
    turns: nat,
) -> bool
    decreases turns,
{
    turns == 0 || {
        let (waiting, first) = state.next(idle_timeout, began);
        let fires_at = later(began, idle_timeout);
        let (after, second) = waiting.next(idle_timeout, fires_at);
        &&& first == Step::<M>::Wait(idle_timeout)
        &&& second == Step::<M>::Idle
        &&& after == state
        &&& idles_every_interval(after, idle_timeout, fires_at, (turns - 1) as nat)
    }
}

/// The decision at position `i` of a run is the decision of the state that
/// the decisions before it led to.
pub proof fn lemma_decision_at<M>(state: ActorState<M>, idle_timeout: u64, times: Seq<u64>, i: int)
    requires
        0 <= i < times.len(),
    ensures
        decisions(state, idle_timeout, times).1.len() == times.len(),
        decisions(state, idle_timeout, times).1[i] == decisions(
            state,
            idle_timeout,
            times.take(i),
        ).0.next(idle_timeout, times[i]).1,
    decreases times.len(),
{
    lemma_decisions_len(state, idle_timeout, times);
    lemma_decisions_len(state, idle_timeout, times.drop_last());
    if i == times.len() - 1 {
        assert(times.take(i) =~= times.drop_last());
    } else {
        lemma_decision_at(state, idle_timeout, times.drop_last(), i);
        assert(times.drop_last().take(i) =~= times.take(i));
    }
}

/// The loop makes one decision each time it is asked.
pub proof fn lemma_decisions_len<M>(state: ActorState<M>, idle_timeout: u64, times: Seq<u64>)
    ensures
        decisions(state, idle_timeout, times).1.len() == times.len(),
    decreases times.len(),
{
    if times.len() > 0 {
        lemma_decisions_len(state, idle_timeout, times.drop_last());
    }
}

/// Sending messages and making decisions never undo the initialization.
pub proof fn lemma_stays_initialized<M>(state: ActorState<M>, idle_timeout: u64, times: Seq<u64>)
    requires
        state.initialized,
    ensures
        decisions(state, idle_timeout, times).0.initialized,
    decreases times.len(),
{
    if times.len() > 0 {
        lemma_stays_initialized(state, idle_timeout, times.drop_last());
    }
}

/// `on_init` is called exactly once and before any other callback: the first
/// decision of an actor that has not run is `Init`, whatever waits in its
/// mailbox, and no later decision is.
pub proof fn lemma_init_comes_first_and_once<M>(
    state: ActorState<M>,
    idle_timeout: u64,
    times: Seq<u64>,
)
    requires
        !state.initialized,
        times.len() > 0,
    ensures
        decisions(state, idle_timeout, times).1.len() == times.len(),
        decisions(state, idle_timeout, times).1[0] == Step::<M>::Init,
        forall|i: int| 1 <= i < times.len() ==> decisions(state, idle_timeout, times).1[i] != Step::<M>::Init,
{
    lemma_decision_at(state, idle_timeout, times, 0);
    assert(times.take(0) =~= Seq::<u64>::empty());
    assert forall|i: int| 1 <= i < times.len() implies decisions(state, idle_timeout, times).1[i]
        != Step::<M>::Init by {
        lemma_decision_at(state, idle_timeout, times, i);
        let before = decisions(state, idle_timeout, times.take(i)).0;
        // The state before decision `i` has made the first decision already.
        let first = times.take(i).take(1);
        lemma_decisions_split(state, idle_timeout, times.take(i), 1);
        let started = decisions(state, idle_timeout, first).0;
        assert(first.drop_last() =~= Seq::<u64>::empty());
        assert(started.initialized);
        lemma_stays_initialized(started, idle_timeout, times.take(i).skip(1));
    }
}

/// A run can be made in two parts: the decisions up to `n`, then the rest
/// from the state that those led to.
pub proof fn lemma_decisions_split<M>(
    state: ActorState<M>,
    idle_timeout: u64,
    times: Seq<u64>,
    n: int,
)
    requires
        0 <= n <= times.len(),
    ensures
        ({
            let (middle, first) = decisions(state, idle_timeout, times.take(n));
            let (end, second) = decisions(middle, idle_timeout, times.skip(n));
            decisions(state, idle_timeout, times) == (end, first + second)
        }),
    decreases times.len(),
{
    let (middle, first) = decisions(state, idle_timeout, times.take(n));
    if n == times.len() {
        assert(times.take(n) =~= times);
        assert(times.skip(n) =~= Seq::<u64>::empty());
        assert(first + Seq::<Step<M>>::empty() =~= first);
    } else {
        lemma_decisions_split(state, idle_timeout, times.drop_last(), n);
        assert(times.drop_last().take(n) =~= times.take(n));
        assert(times.drop_last().skip(n) =~= times.skip(n).drop_last());
        assert(times.skip(n).last() == times.last());
        let (before, second) = decisions(middle, idle_timeout, times.skip(n).drop_last());
        let step = before.next(idle_timeout, times.last()).1;
        assert((first + second).push(step) =~= first + second.push(step));
    }
}

/// Messages are delivered in the order in which they arrived: an actor that
/// has been initialized and is asked as often as messages wait decides to
/// deliver each of them, oldest first, and its mailbox is empty after that.
pub proof fn lemma_messages_are_delivered_in_order<M>(
    state: ActorState<M>,
    idle_timeout: u64,
    times: Seq<u64>,
)
    requires
        state.initialized,
        times.len() <= state.mailbox.len(),
    ensures
        decisions(state, idle_timeout, times).1 == Seq::new(
            times.len(),
            |i: int| Step::Message(state.mailbox[i]),
        ),
        decisions(state, idle_timeout, times).0.mailbox == state.mailbox.skip(times.len() as int),
        decisions(state, idle_timeout, times).0.initialized,
    decreases times.len(),
{
    if times.len() == 0 {
        assert(state.mailbox.skip(0) =~= state.mailbox);
        assert(decisions(state, idle_timeout, times).1 =~= Seq::new(
            times.len(),
            |i: int| Step::Message(state.mailbox[i]),
        ));
    } else {
        lemma_messages_are_delivered_in_order(state, idle_timeout, times.drop_last());
        let (before, steps) = decisions(state, idle_timeout, times.drop_last());
        let n = times.len() - 1;
        assert(before.mailbox == state.mailbox.skip(n));
        assert(before.mailbox.len() > 0);
        assert(before.mailbox.first() == state.mailbox[n]);
        assert(before.mailbox.drop_first() =~= state.mailbox.skip(n + 1));
        assert(steps.push(Step::Message(state.mailbox[n])) =~= Seq::new(
            times.len(),
            |i: int| Step::Message(state.mailbox[i]),
        ));
    }
}

/// Waiting for the idle timeout and measuring back gives the idle timeout,
/// whether or not the clock wrapped in between.
pub proof fn lemma_waited_after_later(from: u64, span: u64)
    ensures
        waited(later(from, span), from) == span,
{
}

/// While nothing waits in the mailbox and the idle timeout has not passed,
/// the loop waits for the rest of it, and asking does not move the moment at
/// which the idle callback is due.
pub proof fn lemma_waiting_keeps_the_deadline<M>(
    state: ActorState<M>,
    idle_timeout: u64,
    began: u64,
    now: u64,
)
    requires
        state.initialized,
        state.mailbox.len() == 0,
        state.waiting_since == Some(began),
    ensures
        waited(now, began) < idle_timeout ==> state.next(idle_timeout, now) == (
            state,
            Step::<M>::Wait((idle_timeout - waited(now, began)) as u64),
        ),
        waited(now, began) >= idle_timeout ==> state.next(idle_timeout, now) == (
            ActorState { waiting_since: None, ..state },
            Step::<M>::Idle,
        ),
{
}

/// A message that waits wins the race against the idle timeout, however long
/// the loop has waited.
pub proof fn lemma_message_wins_the_race<M>(state: ActorState<M>, idle_timeout: u64, now: u64)
    requires
        state.initialized,
        state.mailbox.len() > 0,
    ensures
        state.next(idle_timeout, now).1 == Step::Message(state.mailbox.first()),
        state.next(idle_timeout, now).0.mailbox == state.mailbox.drop_first(),
        state.next(idle_timeout, now).0.waiting_since is None,
{
}

/// With an idle timeout of zero the idle callback is due whenever nothing
/// waits in the mailbox.
pub proof fn lemma_zero_timeout_idles_at_once<M>(state: ActorState<M>, now: u64)
    requires
        state.initialized,
        state.mailbox.len() == 0,
    ensures
        state.next(0, now).1 == Step::<M>::Idle,
        state.next(0, now).0 == (ActorState { waiting_since: None, ..state }),
{
}

/// Idle firing: as long as no message arrives, the idle callback is due once
/// per idle timeout, turn after turn without end. Each turn waits for the
/// whole timeout, counted from the moment the turn began, so the turns do not
/// drift.
pub proof fn lemma_idle_fires_once_per_interval<M>(
    state: ActorState<M>,
    idle_timeout: u64,
    began: u64,
    turns: nat,
)
    requires
        state.initialized,
        state.mailbox.len() == 0,
        state.waiting_since is None,
        idle_timeout > 0,
    ensures
        idles_every_interval(state, idle_timeout, began, turns),
    decreases turns,
{
    if turns > 0 {
        let (waiting, first) = state.next(idle_timeout, began);
        let fires_at = later(began, idle_timeout);
        lemma_waited_after_later(began, idle_timeout);
        let (after, second) = waiting.next(idle_timeout, fires_at);
        assert(after == state);
        lemma_idle_fires_once_per_interval(after, idle_timeout, fires_at, (turns - 1) as nat);
    }
}

} // verus!
