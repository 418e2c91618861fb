//! The run loop of an actor, one decision at a time.
//!
//! The loop alternates between waiting and calling the component it hosts. It
//! calls `on_init` once, before anything else. After that, each turn is a
//! race between the next message and the idle timeout, both counted from the
//! moment the turn began: a message that waits wins and is delivered;
//! otherwise the idle callback is due once the timeout has passed. Here the
//! loop is a state machine that is asked, at a given time, what to do next;
//! its caller makes the call or waits, and asks again.

use vstd::prelude::*;
use crate::actor::mailbox::{after_send, Mailbox};

verus! {

/// What the run loop does next.
#[derive(Debug, PartialEq, Eq)]
pub enum Step<M> {
    /// Call `on_init`.
    Init,
    /// Call `on_message_received` with the message.
    Message(M),
    /// Call `on_idle`.
    Idle,
    /// Wait until a message arrives, but no longer than this many
    /// milliseconds, and ask again.
    Wait(u64),
}

/// An actor's mailbox and the state of its run loop.
///
/// `QUEUE_SIZE` is the room in the mailbox, `IDLE_TIMEOUT_MS` the silence
/// after which the idle callback is due.
pub struct Actor<M, const QUEUE_SIZE: usize, const IDLE_TIMEOUT_MS: u64> {
    mailbox: Mailbox<M, QUEUE_SIZE>,
    initialized: bool,
    waiting_since: Option<u64>,
}

/// The run loop as contracts see it.
pub struct ActorState<M> {
    /// The messages that wait, oldest first.
    pub mailbox: Seq<M>,
    /// Whether `on_init` has been called.
    pub initialized: bool,
    /// When the current turn began, if it has begun: the reading of the
    /// millisecond clock at the first `Wait` of the turn.
    pub waiting_since: Option<u64>,
}

/// The span from `since` to `now` on a millisecond clock that wraps at
/// `u64::MAX`.
pub open spec fn waited(now: u64, since: u64) -> u64 {
    if now >= since {
        (now - since) as u64
    } else {
        (now - since + u64::MAX + 1) as u64
    }
}

impl<M> ActorState<M> {
    /// An actor that has not run yet and has been sent nothing.
    pub open spec fn initial() -> Self {
        ActorState { mailbox: Seq::empty(), initialized: false, waiting_since: None }
    }

    /// When the current turn began, if the loop is asked at `now`: earlier if
    /// it has waited in this turn already, else now.
    pub open spec fn turn_began(self, now: u64) -> u64 {
        match self.waiting_since {
            Some(since) => since,
            None => now,
        }
    }

    /// The decision of the run loop at the time `now`, and the state after it.
    ///
    /// Every decision but `Wait` ends the turn: the next turn, and its idle
    /// timeout, begin when the loop is asked again.
    pub open spec fn next(self, idle_timeout: u64, now: u64) -> (Self, Step<M>) {
        if !self.initialized {
            (ActorState { initialized: true, waiting_since: None, ..self }, Step::Init)
        } else if self.mailbox.len() > 0 {
            (
                ActorState { mailbox: self.mailbox.drop_first(), waiting_since: None, ..self },
                Step::Message(self.mailbox.first()),
            )
        } else {
            let since = self.turn_began(now);
            let silence = waited(now, since);
            if silence >= idle_timeout {
                (ActorState { waiting_since: None, ..self }, Step::Idle)
            } else {
                (
                    ActorState { waiting_since: Some(since), ..self },
                    Step::Wait((idle_timeout - silence) as u64),
                )
            }
        }
    }

    /// The state after `message` was sent to the actor's mailbox, which has
    /// room for `capacity` messages.
    pub open spec fn sent(self, capacity: nat, message: M) -> Self {
        ActorState { mailbox: after_send(self.mailbox, capacity, message), ..self }
    }
}

impl<M, const QUEUE_SIZE: usize, const IDLE_TIMEOUT_MS: u64> View for Actor<
    M,
    QUEUE_SIZE,
    IDLE_TIMEOUT_MS,
> {
    type V = ActorState<M>;

    closed spec fn view(&self) -> ActorState<M> {
        ActorState {
            mailbox: self.mailbox@,
            initialized: self.initialized,
            waiting_since: self.waiting_since,
        }
    }
}

impl<M, const QUEUE_SIZE: usize, const IDLE_TIMEOUT_MS: u64> Actor<M, QUEUE_SIZE, IDLE_TIMEOUT_MS> {
    /// The mailbox never holds more than it has room for. This holds of every
    /// actor that [`Self::new`] has made, whatever was done with it since.
    pub open spec fn wf(&self) -> bool {
        self@.mailbox.len() <= QUEUE_SIZE
    }

    pub fn new() -> (actor: Self)
        ensures
            actor.wf(),
            actor@ == ActorState::<M>::initial(),
    {
        Self { mailbox: Mailbox::new(), initialized: false, waiting_since: None }
    }

    /// Sends a message to the actor if its mailbox has room; else the message
    /// comes back, and the sender has to wait until the actor has taken one.
    pub fn try_send(&mut self, message: M) -> (refused: Result<(), M>)
        requires
            old(self).wf(),
        ensures
            final(self).wf(),
            final(self)@ == old(self)@.sent(QUEUE_SIZE as nat, message),
            old(self)@.mailbox.len() < QUEUE_SIZE ==> refused is Ok,
            old(self)@.mailbox.len() >= QUEUE_SIZE ==> refused == Err::<(), M>(message),
    {
        self.mailbox.try_send(message)
    }

    /// The number of messages that wait in the mailbox.
    pub fn pending(&self) -> (pending: usize)
        ensures
            pending == self@.mailbox.len(),
    {
        self.mailbox.len()
    }

    /// Asks the run loop what to do at the time `now`, a reading of a clock
    /// that counts milliseconds.
    pub fn run(&mut self, now: u64) -> (step: Step<M>)
        requires
            old(self).wf(),
        ensures
            final(self).wf(),
            (final(self)@, step) == old(self)@.next(IDLE_TIMEOUT_MS, now),
    {
        if !self.initialized {
            self.initialized = true;
            self.waiting_since = None;
            return Step::Init;
        }
        if let Some(message) = self.mailbox.try_receive() {
            self.waiting_since = None;
            return Step::Message(message);
        }
        let since = match self.waiting_since {
            Some(since) => since,
            None => now,
        };
        let silence = now.wrapping_sub(since);
        if silence >= IDLE_TIMEOUT_MS {
            self.waiting_since = None;
            Step::Idle
        } else {
            self.waiting_since = Some(since);
            Step::Wait(IDLE_TIMEOUT_MS - silence)
        }
    }
}

} // verus!
