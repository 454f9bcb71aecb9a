//! The scheduler as a mathematical state machine.
//!
//! What is here is specification: times are natural numbers of nanoseconds
//! on the monotonic clock, reminder ids are 128-bit numbers, and each
//! transition is a function from state to state. The executable types of the
//! crate are views onto this model, and their contracts are stated over it.
//! Only [`Step`] and [`Cause`] are handed out at run time as they stand.

use crate::time::elapsed;
use vstd::prelude::*;

verus! {

/// One reminder's life: when it was issued and, once the user has dismissed
/// it, when that happened.
pub struct BreakRecord {
    /// Fresh for each reminder; ties an acknowledgement to its reminder.
    pub id: u128,
    /// When the reminder was issued.
    pub started: nat,
    /// When it was acknowledged; `None` while it is still outstanding.
    pub finished: Option<nat>,
}

impl BreakRecord {
    /// The id of the record that stands for "no reminder owed yet".
    pub open spec fn nil_id() -> u128 {
        0
    }

    /// The record a scheduler starts with: already finished at `now`, so
    /// that the first interval is measured from the start.
    pub open spec fn settled(now: nat) -> BreakRecord {
        BreakRecord { id: Self::nil_id(), started: now, finished: Some(now) }
    }

    /// A reminder issued at `now` under `id`, not yet acknowledged.
    pub open spec fn issued(id: u128, now: nat) -> BreakRecord {
        BreakRecord { id, started: now, finished: None }
    }

    /// Whether the reminder still waits for its acknowledgement.
    pub open spec fn is_outstanding(self) -> bool {
        self.finished is None
    }

    /// The record after an acknowledgement for `id` arrived at `now`: finished
    /// at `now` where the id is this record's, unchanged where it is not.
    pub open spec fn acknowledge(self, id: u128, now: nat) -> BreakRecord {
        if id == self.id {
            BreakRecord { finished: Some(now), ..self }
        } else {
            self
        }
    }
}

/// A request to hold reminders back for `duration`, made at `started`.
pub struct PauseWindow {
    pub duration: nat,
    pub started: nat,
}

impl PauseWindow {
    /// A window is active while less than its duration has passed since it
    /// was requested.
    pub open spec fn is_active(self, now: nat) -> bool {
        elapsed(self.started, now) < self.duration
    }
}

/// What the presentation side can tell the scheduler.
pub enum Event {
    /// The reminder with this id was dismissed.
    EndBreak(u128),
    /// Hold reminders back for this long, from now.
    PauseReminders(nat),
    /// Use this interval from now on.
    SetInterval(nat),
    /// Report the current state.
    PrintDebug,
}

/// The four situations a scheduler can be in at a given time.
pub enum Phase {
    /// The last reminder was acknowledged and the interval has not passed.
    IdleWaiting,
    /// The last reminder was acknowledged and the interval has passed.
    PendingFire,
    /// A reminder is shown and waits for its acknowledgement.
    Outstanding,
    /// A pause window is active, whatever the state of the last reminder.
    Paused,
}

/// Why the scheduler gives up.
#[derive(Clone, Copy, Debug, PartialEq, Eq, Structural)]
pub enum Cause {
    /// Every sender of the inbound channel is gone.
    InboxClosed,
    /// The presenter no longer takes reminder signals.
    PresenterGone,
}

/// What the driver of the scheduler has to do after a tick.
#[derive(Clone, Copy, Debug, PartialEq, Eq, Structural)]
pub enum Step {
    /// Nothing is due: sleep until the next tick.
    Sleep,
    /// A reminder with this id was issued: signal the presenter.
    Notify(u128),
    /// Stop ticking for good.
    Shutdown(Cause),
}

/// Something the scheduler wants written to the log.
pub enum Note {
    /// The state at the moment a `PrintDebug` was handled.
    Status { state: Scheduler, at: nat },
    /// An acknowledgement arrived for a reminder other than the last one.
    StaleAcknowledgement { received: u128, last: u128 },
}

/// The scheduler's state.
pub struct Scheduler {
    /// The time between an acknowledgement and the next reminder.
    pub interval: nat,
    /// The last pause that was requested, expired or not.
    pub paused: Option<PauseWindow>,
    /// The last reminder that was issued.
    pub last_break: BreakRecord,
}

impl Scheduler {
    /// The state of a scheduler created at `now`.
    pub open spec fn initial(interval: nat, now: nat) -> Scheduler {
        Scheduler { interval, paused: None, last_break: BreakRecord::settled(now) }
    }

    /// Whether the last reminder still waits for its acknowledgement.
    pub open spec fn is_outstanding(self) -> bool {
        self.last_break.is_outstanding()
    }

    /// Whether reminders are held back at `now`. An expired window counts as
    /// none.
    pub open spec fn is_paused(self, now: nat) -> bool {
        self.paused matches Some(window) && window.is_active(now)
    }

    /// Whether the interval has passed at `now` since the last reminder was
    /// acknowledged. False while it is outstanding.
    pub open spec fn interval_passed(self, now: nat) -> bool {
        self.last_break.finished matches Some(finished) && elapsed(finished, now)
            >= self.interval
    }

    /// The fire decision: a reminder is due at `now` if and only if none is
    /// outstanding, no pause is active and the interval has passed.
    pub open spec fn should_fire(self, now: nat) -> bool {
        !self.is_paused(now) && self.interval_passed(now)
    }

    /// The situation at `now`.
    pub open spec fn phase(self, now: nat) -> Phase {
        if self.is_paused(now) {
            Phase::Paused
        } else if self.is_outstanding() {
            Phase::Outstanding
        } else if self.interval_passed(now) {
            Phase::PendingFire
        } else {
            Phase::IdleWaiting
        }
    }

    /// Whether the scheduler remembers only the past at `now`: the last break
    /// started, and finished if it did, no later than `now`, it did not
    /// finish before it started, and the last pause started no later than
    /// `now`.
    pub open spec fn remembers_only_the_past(self, now: nat) -> bool {
        &&& self.last_break.started <= now
        &&& self.last_break.finished matches Some(finished) ==> self.last_break.started
            <= finished <= now
        &&& self.paused matches Some(window) ==> window.started <= now
    }

    /// The state after one message that arrived at `now`.
    pub open spec fn receive(self, event: Event, now: nat) -> Scheduler {
        match event {
            Event::EndBreak(id) => Scheduler {
                last_break: self.last_break.acknowledge(id, now),
                ..self
            },
            Event::PauseReminders(duration) => Scheduler {
                paused: Some(PauseWindow { duration, started: now }),
                ..self
            },
            Event::SetInterval(interval) => Scheduler { interval, ..self },
            Event::PrintDebug => self,
        }
    }

    /// What handling one message writes to the log, if anything.
    pub open spec fn note_for(self, event: Event, now: nat) -> Option<Note> {
        match event {
            Event::EndBreak(id) => if id == self.last_break.id {
                None
            } else {
                Some(Note::StaleAcknowledgement { received: id, last: self.last_break.id })
            },
            Event::PrintDebug => Some(Note::Status { state: self, at: now }),
            _ => None,
        }
    }

    /// The state after all of `events`, handled in order at `now`.
    pub open spec fn receive_all(self, events: Seq<Event>, now: nat) -> Scheduler
        decreases events.len(),
    {
        if events.len() == 0 {
            self
        } else {
            self.receive_all(events.drop_last(), now).receive(events.last(), now)
        }
    }

    /// What handling all of `events` writes to the log, in order.
    pub open spec fn notes(self, events: Seq<Event>, now: nat) -> Seq<Note>
        decreases events.len(),
    {
        if events.len() == 0 {
            Seq::empty()
        } else {
            let before = self.receive_all(events.drop_last(), now);
            let earlier = self.notes(events.drop_last(), now);
            match before.note_for(events.last(), now) {
                Some(note) => earlier.push(note),
                None => earlier,
            }
        }
    }

    /// The state after a reminder was issued at `now` under `id`.
    pub open spec fn fire(self, id: u128, now: nat) -> Scheduler {
        Scheduler { last_break: BreakRecord::issued(id, now), ..self }
    }

    /// What a tick at `now` tells its driver. `events` is what was drained
    /// from the inbound channel, `closed` whether the drain found the channel
    /// closed, and `fresh` the id that a new reminder would get.
    pub open spec fn tick_step(self, events: Seq<Event>, closed: bool, now: nat, fresh: u128)
        -> Step {
        if closed {
            Step::Shutdown(Cause::InboxClosed)
        } else if self.receive_all(events, now).should_fire(now) {
            Step::Notify(fresh)
        } else {
            Step::Sleep
        }
    }

    /// The state after a tick at `now`: every drained message is handled
    /// first, then the fire decision is taken on the result.
    pub open spec fn tick(self, events: Seq<Event>, closed: bool, now: nat, fresh: u128)
        -> Scheduler {
        let drained = self.receive_all(events, now);
        if !closed && drained.should_fire(now) {
            drained.fire(fresh, now)
        } else {
            drained
        }
    }

    /// The state after a run of ticks on an open channel, the first of them
    /// first.
    pub open spec fn run(self, wakes: Seq<Wake>) -> Scheduler
        decreases wakes.len(),
    {
        if wakes.len() == 0 {
            self
        } else {
            self.run(wakes.drop_last()).tick(
                wakes.last().events,
                false,
                wakes.last().now,
                wakes.last().fresh,
            )
        }
    }

    /// Whether tick `i` of a run issues a reminder.
    pub open spec fn fires_in_run(self, wakes: Seq<Wake>, i: int) -> bool {
        self.run(wakes.take(i)).receive_all(wakes[i].events, wakes[i].now).should_fire(
            wakes[i].now,
        )
    }
}

/// What one tick of a run is given.
pub struct Wake {
    /// The messages that the tick drains, oldest first.
    pub events: Seq<Event>,
    /// The time of the tick.
    pub now: nat,
    /// The id under which the tick issues its reminder, if it issues one.
    pub fresh: u128,
}

impl Wake {
    /// Whether the tick drains an acknowledgement for the reminder `id`.
    pub open spec fn acknowledges(self, id: u128) -> bool {
        self.events.contains(Event::EndBreak(id))
    }
}

/// What the driver does once it has tried to signal the presenter: it goes
/// on where the signal was delivered and gives up where it was not.
pub open spec fn step_after_send(delivered: bool) -> Step {
    if delivered {
        Step::Sleep
    } else {
        Step::Shutdown(Cause::PresenterGone)
    }
}

} // verus!
