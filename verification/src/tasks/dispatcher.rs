//! The actor that passes messages on between the others.

use vstd::prelude::*;
use crate::tasks::{system, ui};

verus! {

pub const QUEUE_SIZE: usize = 10;

pub const IDLE_TIMEOUT_MS: u64 = 1000;

/// A message to the dispatcher, marked with the actor it comes from.
#[derive(Debug, Clone, Copy, PartialEq, Eq, Structural, Hash)]
pub enum Message {
    System(system::Message),
    Ui(ui::Message),
}

/// What the user interface is told when the system actor says `message`.
pub open spec fn spec_on_system_message(message: system::Message) -> ui::Message {
    match message {
        system::Message::PowerOn => ui::Message::PowerOn,
        system::Message::PowerOff => ui::Message::PowerOff,
    }
}

/// What the dispatcher sends to the user interface for `message`: a message of
/// the system actor is passed on, one of the user interface itself is not.
pub open spec fn spec_on_message_received(message: Message) -> Option<ui::Message> {
    match message {
        Message::System(m) => Some(spec_on_system_message(m)),
        Message::Ui(_) => None,
    }
}

pub fn on_system_message(message: system::Message) -> (forwarded: ui::Message)
    ensures
        forwarded == spec_on_system_message(message),
{
    match message {
        system::Message::PowerOn => ui::Message::PowerOn,
        system::Message::PowerOff => ui::Message::PowerOff,
    }
}

pub fn on_message_received(message: Message) -> (forwarded: Option<ui::Message>)
    ensures
        forwarded == spec_on_message_received(message),
{
    match message {
        Message::System(m) => Some(on_system_message(m)),
        Message::Ui(_) => None,
    }
}

} // verus!
