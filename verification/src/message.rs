//! The messages that the presentation side sends to the notifier.

use crate::scheduler::Event;
use crate::time::Span;
use vstd::prelude::*;

verus! {

/// Message variants between notifier and event loop.
#[derive(Clone, Copy, Debug, PartialEq, Eq)]
#[non_exhaustive]
pub enum Message {
    /// Message to let the notifier know the break has ended.
    EndBreak(u128),
    /// Message to make the notifier pause sending notifications for a given
    /// time.
    PauseReminders(Span),
    /// Message to change the time between reminders.
    SetInterval(Span),
    /// Message to print the current status of the notifier.
    PrintDebug,
}

impl View for Message {
    type V = Event;

    open spec fn view(&self) -> Event {
        match *self {
            Message::EndBreak(id) => Event::EndBreak(id),
            Message::PauseReminders(duration) => Event::PauseReminders(duration@),
            Message::SetInterval(interval) => Event::SetInterval(interval@),
            Message::PrintDebug => Event::PrintDebug,
        }
    }
}

/// The events that a sequence of messages stands for, in order.
pub open spec fn events_of(messages: Seq<Message>) -> Seq<Event> {
    messages.map_values(|message: Message| message@)
}

} // verus!
