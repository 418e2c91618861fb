//! A bounded first-in, first-out queue of messages.

use std::collections::VecDeque;
use vstd::prelude::*;

verus! {

/// The messages sent to one actor that it has not taken yet, at most `N` of
/// them.
pub struct Mailbox<M, const N: usize> {
    queue: VecDeque<M>,
}

impl<M, const N: usize> View for Mailbox<M, N> {
    type V = Seq<M>;

    /// The waiting messages, oldest first.
    closed spec fn view(&self) -> Seq<M> {
        self.queue@
    }
}

/// The mailbox after `message` was sent to one that holds `waiting` and has
/// room for `capacity` messages: the message is queued behind the others if
/// there is room, else nothing changes.
pub open spec fn after_send<M>(waiting: Seq<M>, capacity: nat, message: M) -> Seq<M> {
    if waiting.len() < capacity {
        waiting.push(message)
    } else {
        waiting
    }
}

/// The mailbox after every message of `messages` was sent to it in turn.
pub open spec fn after_sends<M>(waiting: Seq<M>, capacity: nat, messages: Seq<M>) -> Seq<M>
    decreases messages.len(),
{
    if messages.len() == 0 {
        waiting
    } else {
        after_send(after_sends(waiting, capacity, messages.drop_last()), capacity, messages.last())
    }
}

impl<M, const N: usize> Mailbox<M, N> {
    /// The mailbox never holds more than it has room for. This holds of every
    /// mailbox that [`Self::new`] has made, whatever was done with it since.
    pub open spec fn wf(&self) -> bool {
        self@.len() <= N
    }

    /// A mailbox in which nothing waits.
    pub fn new() -> (mailbox: Self)
        ensures
            mailbox.wf(),
            mailbox@ == Seq::<M>::empty(),
    {
        Mailbox { queue: VecDeque::new() }
    }

    /// Returns the maximum number of messages the mailbox can hold.
    pub fn capacity(&self) -> (capacity: usize)
        ensures
            capacity == N,
    {
        N
    }

    /// Returns the number of messages that wait.
    pub fn len(&self) -> (len: usize)
        ensures
            len == self@.len(),
    {
        self.queue.len()
    }

    pub fn is_empty(&self) -> (empty: bool)
        ensures
            empty == (self@.len() == 0),
    {
        self.queue.len() == 0
    }

    pub fn is_full(&self) -> (full: bool)
        ensures
            full == (self@.len() >= N),
    {
        self.queue.len() >= N
    }

    /// Queues the message behind those that wait, if there is room; else the
    /// message comes back and the sender has to wait for the actor to take one.
    pub fn try_send(&mut self, message: M) -> (refused: Result<(), M>)
        requires
            old(self).wf(),
        ensures
            final(self).wf(),
            final(self)@ == after_send(old(self)@, N as nat, message),
            old(self)@.len() < N ==> refused is Ok,
            old(self)@.len() >= N ==> refused == Err::<(), M>(message),
    {
        if self.queue.len() >= N {
            return Err(message);
        }
        self.queue.push_back(message);
        Ok(())
    }

    /// Takes the message that has waited longest, if any waits.
    pub fn try_receive(&mut self) -> (message: Option<M>)
        requires
            old(self).wf(),
        ensures
            final(self).wf(),
            old(self)@.len() == 0 ==> message is None && final(self)@ == old(self)@,
            old(self)@.len() > 0 ==> message == Some(old(self)@.first()) && final(self)@ == old(
                self,
            )@.drop_first(),
    {
        let message = self.queue.pop_front();
        assert(old(self)@.len() > 0 ==> self@ =~= old(self)@.drop_first());
        message
    }
}

/// A mailbox with room for `capacity` messages takes that many without anyone
/// receiving, and keeps them in the order sent.
pub proof fn lemma_sends_up_to_capacity_are_queued<M>(capacity: nat, messages: Seq<M>)
    requires
        messages.len() <= capacity,
    ensures
        after_sends(Seq::<M>::empty(), capacity, messages) == messages,
    decreases messages.len(),
{
    if messages.len() > 0 {
        lemma_sends_up_to_capacity_are_queued(capacity, messages.drop_last());
        assert(messages.drop_last().push(messages.last()) =~= messages);
    }
}

/// Backpressure: once a mailbox holds as many messages as it has room for, a
/// further message is refused and changes nothing, and stays refused until a
/// message has been taken out; then it is queued last.
pub proof fn lemma_full_mailbox_refuses_until_received<M>(
    capacity: nat,
    messages: Seq<M>,
    extra: M,
)
    requires
        messages.len() == capacity,
        capacity > 0,
    ensures
        after_send(after_sends(Seq::<M>::empty(), capacity, messages), capacity, extra)
            == messages,
        after_send(
            after_sends(Seq::<M>::empty(), capacity, messages).drop_first(),
            capacity,
            extra,
        ) == messages.drop_first().push(extra),
{
    lemma_sends_up_to_capacity_are_queued(capacity, messages);
}

} // verus!
