//! What holds of every scheduler: the laws of the model, proved.

use crate::scheduler::{BreakRecord, Cause, Event, PauseWindow, Phase, Scheduler, Step, Wake};
use crate::time::elapsed;
use vstd::prelude::*;

verus! {

/// A reminder fires in exactly one phase: the fire decision is taken if and
/// only if the scheduler is pending fire.
pub proof fn law_fires_exactly_when_pending(s: Scheduler, now: nat)
    ensures
        s.should_fire(now) <==> s.phase(now) == Phase::PendingFire,
{
}

/// No reminder is issued while one is outstanding: as long as the last break
/// is not finished, the fire decision is false at every time.
pub proof fn law_no_fire_while_outstanding(s: Scheduler, now: nat)
    requires
        s.last_break.finished is None,
    ensures
        !s.should_fire(now),
{
}

/// Only its own acknowledgement ends an outstanding reminder: whatever
/// messages a tick drains, if none of them is an `EndBreak` under the
/// outstanding reminder's id then it stays outstanding, the same record, and
/// the tick does not fire.
pub proof fn law_outstanding_until_acknowledged(
    s: Scheduler,
    events: Seq<Event>,
    closed: bool,
    now: nat,
    fresh: u128,
)
    requires
        s.is_outstanding(),
        !events.contains(Event::EndBreak(s.last_break.id)),
    ensures
        s.receive_all(events, now).last_break == s.last_break,
        s.tick(events, closed, now, fresh).last_break == s.last_break,
        !(s.tick_step(events, closed, now, fresh) is Notify),
    decreases events.len(),
{
    if events.len() > 0 {
        let earlier = events.drop_last();
        assert forall|i: int| 0 <= i < earlier.len() implies earlier[i] != Event::EndBreak(
            s.last_break.id,
        ) by {
            assert(events[i] == earlier[i]);
            assert(events.contains(events[i]));
        }
        assert(events.contains(events.last())) by {
            assert(events[events.len() - 1] == events.last());
        }
        law_outstanding_until_acknowledged(s, earlier, closed, now, fresh);
    }
}

/// A tick that fires leaves exactly one reminder outstanding: the new one,
/// issued at the time of the tick under the fresh id. A tick that does not
/// fire issues nothing: the state is the one the drained messages left.
pub proof fn law_fire_issues_the_fresh_reminder(
    s: Scheduler,
    events: Seq<Event>,
    closed: bool,
    now: nat,
    fresh: u128,
)
    ensures
        s.tick_step(events, closed, now, fresh) is Notify ==> {
            &&& s.tick_step(events, closed, now, fresh) == Step::Notify(fresh)
            &&& !s.receive_all(events, now).is_outstanding()
            &&& s.tick(events, closed, now, fresh).last_break == BreakRecord::issued(fresh, now)
            &&& s.tick(events, closed, now, fresh).phase(now) == Phase::Outstanding
        },
        !(s.tick_step(events, closed, now, fresh) is Notify) ==> s.tick(
            events,
            closed,
            now,
            fresh,
        ) == s.receive_all(events, now),
{
}

/// In a run of ticks that bring no message, with no pause, a scheduler whose
/// last break finished at `finished` fires exactly once: at the first tick at
/// which the interval has passed since `finished`, and at no other.
pub proof fn law_quiet_run_fires_once(s: Scheduler, finished: nat, wakes: Seq<Wake>, i: int)
    requires
        s.paused is None,
        s.last_break.finished == Some(finished),
        forall|k: int| 0 <= k < wakes.len() ==> (#[trigger] wakes[k]).events.len() == 0,
        0 <= i < wakes.len(),
    ensures
        s.fires_in_run(wakes, i) <==> {
            &&& elapsed(finished, wakes[i].now) >= s.interval
            &&& forall|j: int| 0 <= j < i ==> elapsed(finished, (#[trigger] wakes[j]).now) < s.interval
        },
{
    let before = wakes.take(i);
    lemma_quiet_run(s, finished, before);
    assert(wakes[i].events =~= Seq::<Event>::empty());
    assert(s.run(before).receive_all(wakes[i].events, wakes[i].now) == s.run(before));
    if passed_in(s, finished, before) {
        let j = choose|j: int|
            0 <= j < before.len() && elapsed(finished, (#[trigger] before[j]).now) >= s.interval;
        assert(before[j] == wakes[j]);
    } else {
        assert forall|j: int| 0 <= j < i implies elapsed(finished, (#[trigger] wakes[j]).now)
            < s.interval by {
            assert(before[j] == wakes[j]);
        }
    }
}

/// Whether the interval has passed since `finished` at one tick of `wakes`
/// at least.
spec fn passed_in(s: Scheduler, finished: nat, wakes: Seq<Wake>) -> bool {
    exists|j: int| 0 <= j < wakes.len() && elapsed(finished, (#[trigger] wakes[j]).now) >= s.interval
}

/// The state that a quiet run leaves: once one of its ticks has come when the
/// interval had passed, a reminder is outstanding; until then nothing has
/// changed.
proof fn lemma_quiet_run(s: Scheduler, finished: nat, wakes: Seq<Wake>)
    requires
        s.paused is None,
        s.last_break.finished == Some(finished),
        forall|k: int| 0 <= k < wakes.len() ==> (#[trigger] wakes[k]).events.len() == 0,
    ensures
        s.run(wakes).interval == s.interval,
        s.run(wakes).paused is None,
        passed_in(s, finished, wakes) ==> s.run(wakes).is_outstanding(),
        !passed_in(s, finished, wakes) ==> s.run(wakes) == s,
    decreases wakes.len(),
{
    if wakes.len() > 0 {
        let earlier = wakes.drop_last();
        let last = wakes.last();
        assert forall|k: int| 0 <= k < earlier.len() implies (#[trigger] earlier[k]).events.len()
            == 0 by {
            assert(earlier[k] == wakes[k]);
        }
        lemma_quiet_run(s, finished, earlier);
        let before = s.run(earlier);
        assert(last == wakes[wakes.len() - 1]);
        assert(last.events =~= Seq::<Event>::empty());
        assert(before.receive_all(last.events, last.now) == before);
        if passed_in(s, finished, earlier) {
            let j = choose|j: int|
                0 <= j < earlier.len() && elapsed(finished, (#[trigger] earlier[j]).now)
                    >= s.interval;
            assert(wakes[j] == earlier[j]);
        } else if elapsed(finished, last.now) >= s.interval {
        } else {
            if passed_in(s, finished, wakes) {
                let j = choose|j: int|
                    0 <= j < wakes.len() && elapsed(finished, (#[trigger] wakes[j]).now)
                        >= s.interval;
                if j < earlier.len() {
                    assert(earlier[j] == wakes[j]);
                }
            }
        }
    }
}

/// Reminders and acknowledgements take turns: where two ticks of a run both
/// issue a reminder, a tick after the first and no later than the second has
/// drained the acknowledgement of the first reminder. So no reminder is ever
/// issued while another waits for its acknowledgement.
pub proof fn law_reminders_wait_for_acknowledgement(
    s: Scheduler,
    wakes: Seq<Wake>,
    first: int,
    second: int,
)
    requires
        0 <= first < second < wakes.len(),
        s.fires_in_run(wakes, first),
        s.fires_in_run(wakes, second),
    ensures
        exists|k: int| first < k <= second && (#[trigger] wakes[k]).acknowledges(wakes[first].fresh),
{
    let id = wakes[first].fresh;
    if !(exists|k: int| first < k <= second && (#[trigger] wakes[k]).acknowledges(id)) {
        let issued = s.run(wakes.take(first + 1));
        assert(wakes.take(first + 1).drop_last() =~= wakes.take(first));
        assert(wakes.take(first + 1).last() == wakes[first]);
        assert(issued.last_break == BreakRecord::issued(id, wakes[first].now));
        let between = wakes.subrange(first + 1, second);
        assert forall|k: int| 0 <= k < between.len() implies !(#[trigger] between[k]).acknowledges(
            id,
        ) by {
            assert(between[k] == wakes[first + 1 + k]);
        }
        lemma_run_keeps_outstanding(issued, between);
        lemma_run_of_two(s, wakes.take(first + 1), between);
        assert(wakes.take(first + 1) + between =~= wakes.take(second));
        let before = s.run(wakes.take(second));
        assert(before.last_break == issued.last_break);
        assert(!wakes[second].acknowledges(id));
        law_outstanding_until_acknowledged(
            before,
            wakes[second].events,
            false,
            wakes[second].now,
            wakes[second].fresh,
        );
    }
}

/// A run in two parts is the run of the second part from where the first
/// part ends.
proof fn lemma_run_of_two(s: Scheduler, head: Seq<Wake>, tail: Seq<Wake>)
    ensures
        s.run(head + tail) == s.run(head).run(tail),
    decreases tail.len(),
{
    if tail.len() == 0 {
        assert(head + tail =~= head);
    } else {
        lemma_run_of_two(s, head, tail.drop_last());
        assert((head + tail).drop_last() =~= head + tail.drop_last());
        assert((head + tail).last() == tail.last());
    }
}

/// A run that drains no acknowledgement of the outstanding reminder leaves
/// that reminder outstanding.
proof fn lemma_run_keeps_outstanding(s: Scheduler, wakes: Seq<Wake>)
    requires
        s.is_outstanding(),
        forall|k: int| 0 <= k < wakes.len() ==> !(#[trigger] wakes[k]).acknowledges(s.last_break.id),
    ensures
        s.run(wakes).last_break == s.last_break,
    decreases wakes.len(),
{
    if wakes.len() > 0 {
        let earlier = wakes.drop_last();
        assert forall|k: int| 0 <= k < earlier.len() implies !(#[trigger] earlier[k]).acknowledges(
            s.last_break.id,
        ) by {
            assert(earlier[k] == wakes[k]);
        }
        lemma_run_keeps_outstanding(s, earlier);
        let last = wakes.last();
        assert(last == wakes[wakes.len() - 1]);
        law_outstanding_until_acknowledged(s.run(earlier), last.events, false, last.now, last.fresh);
    }
}

/// A pause requested at `at` for `duration` holds reminders back for exactly
/// that long: at every later time before `at + duration` the fire decision
/// is false, and from `at + duration` on it is what it would be with no
/// pause at all, so firing resumes as soon as the interval has passed too.
pub proof fn law_pause_suppresses_for_its_duration(
    s: Scheduler,
    duration: nat,
    at: nat,
    now: nat,
)
    requires
        at <= now,
    ensures
        now < at + duration ==> !s.receive(Event::PauseReminders(duration), at).should_fire(now),
        now >= at + duration ==> s.receive(Event::PauseReminders(duration), at).should_fire(now)
            == s.interval_passed(now),
{
}

/// A pause request replaces the pause before it and adds nothing to it: the
/// state after two requests is the state after the second alone, so that
/// reminders are held back until the second request's duration has passed
/// since the second request, and no longer.
pub proof fn law_second_pause_replaces_first(
    s: Scheduler,
    first: nat,
    first_at: nat,
    second: nat,
    second_at: nat,
    now: nat,
)
    ensures
        s.receive(Event::PauseReminders(first), first_at).receive(
            Event::PauseReminders(second),
            second_at,
        ) == s.receive(Event::PauseReminders(second), second_at),
        second_at <= now ==> (s.receive(Event::PauseReminders(first), first_at).receive(
            Event::PauseReminders(second),
            second_at,
        ).is_paused(now) <==> now < second_at + second),
{
}

/// A pause that has run out is the same as no pause: it changes neither the
/// fire decision nor the phase.
pub proof fn law_expired_pause_is_no_pause(s: Scheduler, window: PauseWindow, now: nat)
    requires
        s.paused == Some(window),
        !window.is_active(now),
    ensures
        s.should_fire(now) == (Scheduler { paused: None, ..s }).should_fire(now),
        s.phase(now) == (Scheduler { paused: None, ..s }).phase(now),
{
}

/// A pause of no length is over at once: it holds nothing back at any time.
pub proof fn law_zero_pause_is_no_pause(s: Scheduler, at: nat, now: nat)
    ensures
        !s.receive(Event::PauseReminders(0), at).is_paused(now),
        s.receive(Event::PauseReminders(0), at).should_fire(now) == s.interval_passed(now),
{
}

/// An acknowledgement under the last break's id finishes that break at the
/// time it arrives and changes nothing else. Where the break was outstanding,
/// no pause is active and the interval is not zero, this takes the scheduler
/// from outstanding to idle-waiting.
pub proof fn law_matching_end_break_finishes(s: Scheduler, id: u128, now: nat)
    requires
        id == s.last_break.id,
    ensures
        s.receive(Event::EndBreak(id), now) == (Scheduler {
            last_break: BreakRecord { finished: Some(now), ..s.last_break },
            ..s
        }),
        s.note_for(Event::EndBreak(id), now) is None,
        s.is_outstanding() && !s.is_paused(now) && s.interval > 0 ==> {
            &&& s.phase(now) == Phase::Outstanding
            &&& s.receive(Event::EndBreak(id), now).phase(now) == Phase::IdleWaiting
        },
{
}

/// An acknowledgement under any other id changes nothing; it is only noted
/// as stale.
pub proof fn law_stale_end_break_is_ignored(s: Scheduler, id: u128, now: nat)
    requires
        id != s.last_break.id,
    ensures
        s.receive(Event::EndBreak(id), now) == s,
        s.note_for(Event::EndBreak(id), now) == Some(
            crate::scheduler::Note::StaleAcknowledgement { received: id, last: s.last_break.id },
        ),
{
}

/// A new interval counts from the tick that drains it: where the last break
/// is finished, no pause is active and at least the new interval has passed
/// since it finished, the tick that brings `SetInterval` fires.
pub proof fn law_set_interval_applies_at_once(
    s: Scheduler,
    interval: nat,
    finished: nat,
    now: nat,
    fresh: u128,
)
    requires
        s.last_break.finished == Some(finished),
        !s.is_paused(now),
        interval <= elapsed(finished, now),
    ensures
        s.receive(Event::SetInterval(interval), now).should_fire(now),
        s.tick_step(seq![Event::SetInterval(interval)], false, now, fresh) == Step::Notify(fresh),
{
    let events = seq![Event::SetInterval(interval)];
    assert(events.drop_last() =~= Seq::<Event>::empty());
    assert(s.receive_all(events.drop_last(), now) == s);
    assert(events.last() == Event::SetInterval(interval));
    assert(s.receive_all(events, now) == s.receive(Event::SetInterval(interval), now));
}

/// A new interval replaces the old one and touches nothing else: a reminder
/// that is outstanding stays outstanding, and the decision at every later
/// time goes by the new interval alone.
pub proof fn law_set_interval_replaces(s: Scheduler, interval: nat, at: nat, now: nat)
    ensures
        s.receive(Event::SetInterval(interval), at) == (Scheduler { interval, ..s }),
        s.receive(Event::SetInterval(interval), at).is_outstanding() == s.is_outstanding(),
        s.receive(Event::SetInterval(interval), at).should_fire(now) == (!s.is_paused(now) && (
        s.last_break.finished matches Some(finished) && elapsed(finished, now) >= interval)),
{
}

/// A status request changes nothing.
pub proof fn law_print_debug_changes_nothing(s: Scheduler, now: nat)
    ensures
        s.receive(Event::PrintDebug, now) == s,
{
}

/// Messages are handled before the decision: draining `events` and then
/// ticking with an empty inbox at the same time decides as one tick that
/// drains them itself.
pub proof fn law_drain_comes_before_decision(
    s: Scheduler,
    events: Seq<Event>,
    now: nat,
    fresh: u128,
)
    ensures
        s.tick(events, false, now, fresh) == s.receive_all(events, now).tick(
            Seq::empty(),
            false,
            now,
            fresh,
        ),
        s.tick_step(events, false, now, fresh) == s.receive_all(events, now).tick_step(
            Seq::empty(),
            false,
            now,
            fresh,
        ),
{
    let drained = s.receive_all(events, now);
    assert(drained.receive_all(Seq::<Event>::empty(), now) == drained);
}

/// With a clock that never runs backwards the scheduler remembers only the
/// past: a new scheduler does, and a tick at `later` keeps it so, whatever it
/// drains. So a break never finishes before it started, and the time since
/// any remembered moment is a true difference.
pub proof fn law_remembers_only_the_past(
    s: Scheduler,
    events: Seq<Event>,
    closed: bool,
    now: nat,
    later: nat,
    fresh: u128,
)
    requires
        s.remembers_only_the_past(now),
        now <= later,
    ensures
        Scheduler::initial(s.interval, now).remembers_only_the_past(now),
        s.receive_all(events, later).remembers_only_the_past(later),
        s.tick(events, closed, later, fresh).remembers_only_the_past(later),
    decreases events.len(),
{
    if events.len() > 0 {
        law_remembers_only_the_past(s, events.drop_last(), closed, now, later, fresh);
    }
}

/// A closed inbound channel ends the scheduler at the tick that finds it
/// closed: that tick asks for shutdown and issues no reminder, whatever the
/// state and whatever was drained before.
pub proof fn law_closed_inbox_shuts_down(
    s: Scheduler,
    events: Seq<Event>,
    now: nat,
    fresh: u128,
)
    ensures
        s.tick_step(events, true, now, fresh) == Step::Shutdown(Cause::InboxClosed),
        s.tick(events, true, now, fresh) == s.receive_all(events, now),
{
}

} // verus!
