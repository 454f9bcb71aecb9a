//! The notifier: the executable scheduler.
//!
//! A notifier holds the interval, the last pause and the last break. Its
//! driver wakes on a fixed tick, drains the inbound channel into an
//! [`Inbox`], and calls [`Notifier::tick`]; the [`Tick`] that comes back says
//! what to log and whether to sleep, to signal the presenter or to stop.

use crate::args::{interval_of_args, parse_minutes};
use crate::break_reminder::{is_random_id, lemma_random_id_is_not_nil, random_id, Break};
use crate::message::{events_of, Message};
use crate::pause::Pause;
use crate::scheduler::{BreakRecord, Cause, Event, Note, Scheduler, Step};
use crate::time::{Clock, Span, Timestamp, NANOS_PER_MILLI, NANOS_PER_MINUTE};
use vstd::prelude::*;

verus! {

/// The time a driver sleeps between two ticks, in milliseconds.
pub const TICK_MILLIS: u64 = 100;

/// The interval between reminders where none was asked for, in minutes.
pub const DEFAULT_INTERVAL_MINUTES: u64 = 20;

/// What one drain of the inbound channel brought.
#[derive(Clone, Debug, PartialEq, Eq)]
pub struct Inbox {
    /// The messages that were queued, oldest first.
    pub messages: Vec<Message>,
    /// Whether the drain ended because every sender is gone.
    pub closed: bool,
}

/// What one poll of the inbound channel gave.
#[derive(Clone, Copy, Debug, PartialEq, Eq)]
pub enum Polled {
    /// A message was queued.
    Message(Message),
    /// Nothing is queued right now.
    Empty,
    /// Nothing is queued and every sender is gone.
    Disconnected,
}

impl Inbox {
    /// An inbox before the first poll: no message, not closed.
    pub fn new() -> (inbox: Inbox)
        ensures
            inbox.messages@ == Seq::<Message>::empty(),
            !inbox.closed,
    {
        Inbox { messages: Vec::new(), closed: false }
    }

    /// Takes the result of one poll and says whether to poll again. A
    /// message is queued behind the ones before it, and the drain goes on.
    /// An empty channel ends the drain. A disconnected channel ends it too,
    /// and marks the inbox closed. So a drain takes every message that is
    /// queued and never waits for one.
    pub fn accept(&mut self, polled: Polled) -> (again: bool)
        ensures
            again == (polled is Message),
            final(self).messages@ == (match polled {
                Polled::Message(message) => old(self).messages@.push(message),
                _ => old(self).messages@,
            }),
            final(self).closed == (old(self).closed || polled is Disconnected),
    {
        match polled {
            Polled::Message(message) => {
                self.messages.push(message);
                true
            },
            Polled::Empty => false,
            Polled::Disconnected => {
                self.closed = true;
                false
            },
        }
    }
}

/// Something the notifier wants written to the log.
#[derive(Clone, Copy, Debug, PartialEq, Eq)]
pub enum Notice {
    /// The notifier as it was when a `PrintDebug` was handled at `at`.
    Status { state: Notifier, at: Timestamp },
    /// An `EndBreak` arrived whose id is not the last break's.
    StaleAcknowledgement { received: u128, last: u128 },
}

impl View for Notice {
    type V = Note;

    open spec fn view(&self) -> Note {
        match *self {
            Notice::Status { state, at } => Note::Status { state: state@, at: at@ },
            Notice::StaleAcknowledgement { received, last } => Note::StaleAcknowledgement {
                received,
                last,
            },
        }
    }
}

/// The note that an optional notice stands for.
pub open spec fn note_of(notice: Option<Notice>) -> Option<Note> {
    match notice {
        Some(notice) => Some(notice@),
        None => None,
    }
}

/// The notes that a sequence of notices stands for, in order.
pub open spec fn notes_of(notices: Seq<Notice>) -> Seq<Note> {
    notices.map_values(|notice: Notice| notice@)
}

/// The id of the reminder that a step asks to signal; the nil id where the
/// step asks for no signal.
pub open spec fn issued_id(step: Step) -> u128 {
    match step {
        Step::Notify(id) => id,
        _ => BreakRecord::nil_id(),
    }
}

/// What a tick asks of the driver.
#[derive(Clone, Debug, PartialEq, Eq)]
pub struct Tick {
    /// What to do before the next tick.
    pub step: Step,
    /// What to write to the log, in order.
    pub notices: Vec<Notice>,
}

/// The notifier's state. Its view is the scheduler of the model.
#[derive(Clone, Copy, Debug, PartialEq, Eq)]
pub struct Notifier {
    /// The interval between notifications.
    interval: Span,
    /// The paused details of the notifier.
    paused: Option<Pause>,
    /// The last break.
    last_break: Break,
}

impl View for Notifier {
    type V = Scheduler;

    closed spec fn view(&self) -> Scheduler {
        Scheduler {
            interval: self.interval@,
            paused: match self.paused {
                Some(pause) => Some(pause@),
                None => None,
            },
            last_break: self.last_break@,
        }
    }
}

impl Notifier {
    /// A notifier that is created now, by `clock`: no pause, and a last break
    /// that is already finished, so that the first reminder is due one
    /// `interval` from now.
    pub fn new(clock: &mut Clock, interval: Span) -> (notifier: Notifier)
        ensures
            final(clock)@ >= old(clock)@,
            notifier@ == Scheduler::initial(interval@, final(clock)@),
    {
        let now = clock.now();
        Notifier::new_at(interval, now)
    }

    /// The notifier that is created at `now`.
    pub fn new_at(interval: Span, now: Timestamp) -> (notifier: Notifier)
        ensures
            notifier@ == Scheduler::initial(interval@, now@),
    {
        Notifier { interval, paused: None, last_break: Break::settled_at(now) }
    }

    /// Tries to load the interval from the program arguments: the last of
    /// them, read as a count of minutes in decimal.
    pub fn interval_from_args(args: &Vec<String>) -> (interval: Option<Span>)
        ensures
            match interval {
                Some(span) => interval_of_args(args@) == Some(span@),
                None => interval_of_args(args@) is None,
            },
    {
        if args.len() == 0 {
            return None;
        }
        match parse_minutes(args[args.len() - 1].as_str()) {
            Some(minutes) => Some(Span::from_minutes(minutes)),
            None => None,
        }
    }

    /// The interval to start with: the one that the program arguments ask
    /// for, and twenty minutes where they ask for none.
    pub fn interval_or_default(args: &Vec<String>) -> (interval: Span)
        ensures
            interval@ == match interval_of_args(args@) {
                Some(asked) => asked,
                None => DEFAULT_INTERVAL_MINUTES as nat * NANOS_PER_MINUTE as nat,
            },
    {
        match Notifier::interval_from_args(args) {
            Some(interval) => interval,
            None => Span::from_minutes(DEFAULT_INTERVAL_MINUTES),
        }
    }

    /// The interval between notifications.
    pub fn interval(&self) -> (interval: Span)
        ensures
            interval@ == self@.interval,
    {
        self.interval
    }

    /// The last pause that was asked for, expired or not.
    pub fn paused(&self) -> (paused: Option<Pause>)
        ensures
            match paused {
                Some(pause) => self@.paused == Some(pause@),
                None => self@.paused is None,
            },
    {
        self.paused
    }

    /// The last break.
    pub fn last_break(&self) -> (last_break: Break)
        ensures
            last_break@ == self@.last_break,
    {
        self.last_break
    }

    /// The time a driver sleeps between two ticks.
    pub fn tick_period() -> (period: Span)
        ensures
            period@ == TICK_MILLIS * NANOS_PER_MILLI,
    {
        Span::from_millis(TICK_MILLIS)
    }

    /// Handles one message that arrived at `now`.
    ///
    /// `EndBreak` finishes the last break at `now` where the id is its id;
    /// where it is not, nothing changes and the mismatch is reported.
    /// `PauseReminders` replaces the pause by one that starts at `now`.
    /// `SetInterval` replaces the interval. `PrintDebug` changes nothing and
    /// reports the state.
    pub fn handle_message_at(&mut self, message: Message, now: Timestamp) -> (notice: Option<
        Notice,
    >)
        ensures
            final(self)@ == old(self)@.receive(message@, now@),
            note_of(notice) == old(self)@.note_for(message@, now@),
    {
        match message {
            Message::EndBreak(id) => {
                let last: u128 = self.last_break.id;
                if self.last_break.acknowledge_at(id, now) {
                    None
                } else {
                    Some(Notice::StaleAcknowledgement { received: id, last })
                }
            },
            Message::PauseReminders(duration) => {
                self.paused = Some(Pause::new_at(duration, now));
                None
            },
            Message::SetInterval(interval) => {
                self.interval = interval;
                None
            },
            Message::PrintDebug => Some(Notice::Status { state: *self, at: now }),
        }
    }

    /// Handles all of `messages`, oldest first, as they arrived at `now`, and
    /// returns what is to be logged, in order.
    pub fn handle_events_at(&mut self, messages: &Vec<Message>, now: Timestamp) -> (notices: Vec<
        Notice,
    >)
        ensures
            final(self)@ == old(self)@.receive_all(events_of(messages@), now@),
            notes_of(notices@) == old(self)@.notes(events_of(messages@), now@),
    {
        let ghost start = self@;
        let ghost events = events_of(messages@);
        let mut notices: Vec<Notice> = Vec::new();
        let mut i: usize = 0;
        assert(events.take(0) =~= Seq::<Event>::empty());
        assert(notes_of(notices@) =~= Seq::<Note>::empty());
        while i < messages.len()
            invariant
                i <= messages.len(),
                events == events_of(messages@),
                self@ == start.receive_all(events.take(i as int), now@),
                notes_of(notices@) == start.notes(events.take(i as int), now@),
            decreases messages.len() - i,
        {
            let ghost logged = notices@;
            let message = messages[i];
            let notice = self.handle_message_at(message, now);
            match notice {
                Some(notice) => {
                    notices.push(notice);
                    assert(notes_of(notices@) =~= notes_of(logged).push(notice@));
                },
                None => {},
            }
            proof {
                let next = events.take(i + 1);
                assert(next.drop_last() =~= events.take(i as int));
                assert(next.last() == message@);
            }
            i += 1;
        }
        assert(events.take(i as int) =~= events);
        notices
    }

    /// Returns if the notifier is paused at `now`.
    pub fn is_paused_at(&self, now: Timestamp) -> (paused: bool)
        ensures
            paused == self@.is_paused(now@),
    {
        match self.paused {
            Some(pause) => pause.is_active_at(now),
            None => false,
        }
    }

    /// Returns if the notifier should send a break notification at `now`:
    /// if and only if it is not paused, the last break is finished, and the
    /// interval has passed since it was.
    pub fn should_notify_at(&self, now: Timestamp) -> (due: bool)
        ensures
            due == self@.should_fire(now@),
    {
        if self.is_paused_at(now) {
            return false;
        }
        match self.last_break.finished {
            Some(finished_at) => finished_at.elapsed_at(now).nanos >= self.interval.nanos,
            None => false,
        }
    }

    /// Issues a reminder at `now` under `id`: the last break is replaced by a
    /// new one that is outstanding. Returns the id to signal the presenter
    /// with.
    pub fn send_reminder_at(&mut self, id: u128, now: Timestamp) -> (sent: u128)
        ensures
            sent == id,
            final(self)@ == old(self)@.fire(id, now@),
    {
        self.last_break = Break::new_at(id, now);
        self.last_break.id
    }

    /// One tick at `now`. Every message of `inbox` is handled first, so that
    /// a pause or a new interval that came just in time counts. Where the
    /// inbox is closed the tick ends there and asks for shutdown. Else the
    /// fire decision is taken: where a reminder is due, it is issued under
    /// `fresh` and the driver is asked to signal the presenter.
    pub fn tick_at(&mut self, inbox: &Inbox, now: Timestamp, fresh: u128) -> (tick: Tick)
        ensures
            final(self)@ == old(self)@.tick(events_of(inbox.messages@), inbox.closed, now@, fresh),
            tick.step == old(self)@.tick_step(
                events_of(inbox.messages@),
                inbox.closed,
                now@,
                fresh,
            ),
            notes_of(tick.notices@) == old(self)@.notes(events_of(inbox.messages@), now@),
    {
        let notices = self.handle_events_at(&inbox.messages, now);
        if inbox.closed {
            return Tick { step: Step::Shutdown(Cause::InboxClosed), notices };
        }
        if self.should_notify_at(now) {
            let id = self.send_reminder_at(fresh, now);
            Tick { step: Step::Notify(id), notices }
        } else {
            Tick { step: Step::Sleep, notices }
        }
    }

    /// One tick at the moment of the call, by `clock`: the tick that
    /// `tick_at` makes for the clock's reading. Where it issues a reminder,
    /// the reminder's id is drawn at random and is never the nil id.
    pub fn tick(&mut self, clock: &mut Clock, inbox: &Inbox) -> (tick: Tick)
        ensures
            final(clock)@ >= old(clock)@,
            final(self)@ == old(self)@.tick(
                events_of(inbox.messages@),
                inbox.closed,
                final(clock)@,
                issued_id(tick.step),
            ),
            tick.step == old(self)@.tick_step(
                events_of(inbox.messages@),
                inbox.closed,
                final(clock)@,
                issued_id(tick.step),
            ),
            notes_of(tick.notices@) == old(self)@.notes(events_of(inbox.messages@), final(clock)@),
            tick.step is Notify ==> is_random_id(issued_id(tick.step)) && issued_id(tick.step)
                != BreakRecord::nil_id(),
    {
        let now = clock.now();
        let notices = self.handle_events_at(&inbox.messages, now);
        if inbox.closed {
            return Tick { step: Step::Shutdown(Cause::InboxClosed), notices };
        }
        if self.should_notify_at(now) {
            let fresh = random_id();
            proof {
                lemma_random_id_is_not_nil(fresh);
            }
            let id = self.send_reminder_at(fresh, now);
            Tick { step: Step::Notify(id), notices }
        } else {
            Tick { step: Step::Sleep, notices }
        }
    }

    /// What the driver does once it has tried to signal the presenter: it
    /// sleeps until the next tick where the signal was delivered, and shuts
    /// down where it was not, since nobody is left to show a reminder.
    pub fn step_after_send(delivered: bool) -> (step: Step)
        ensures
            step == crate::scheduler::step_after_send(delivered),
    {
        if delivered {
            Step::Sleep
        } else {
            Step::Shutdown(Cause::PresenterGone)
        }
    }
}

} // verus!
