use break_reminder::break_reminder::Break;
use break_reminder::message::Message;
use break_reminder::notifier::{Inbox, Notifier};
use break_reminder::pause::Pause;
use break_reminder::scheduler::{Cause, Step};
use break_reminder::time::{Clock, Span, Timestamp};
use uuid::Uuid;

fn wait(clock: &mut Clock, span: Span) {
    let from = clock.now();
    while from.elapsed_at(clock.now()).nanos < span.nanos {
        std::hint::spin_loop();
    }
}

#[test]
fn spans_are_counted_in_nanoseconds() {
    assert_eq!(Span::zero().as_nanos(), 0);
    assert_eq!(Span::from_nanos(17).as_nanos(), 17);
    assert_eq!(Span::from_millis(3).as_nanos(), 3_000_000);
    assert_eq!(Span::from_secs(2).as_nanos(), 2_000_000_000);
    assert_eq!(Span::from_minutes(1).as_nanos(), 60_000_000_000);
    assert_eq!(Span::from_minutes(u64::MAX).as_nanos(), u64::MAX as u128 * 60_000_000_000);
    assert_eq!(Span::from_secs(u64::MAX).as_nanos(), u64::MAX as u128 * 1_000_000_000);
    assert_eq!(Span::from_millis(u64::MAX).as_nanos(), u64::MAX as u128 * 1_000_000);
}

#[test]
fn whole_minutes_drop_the_rest() {
    assert_eq!(Span::from_secs(59).whole_minutes(), 0);
    assert_eq!(Span::from_secs(60).whole_minutes(), 1);
    assert_eq!(Span::from_nanos(119_999_999_999).whole_minutes(), 1);
    assert_eq!(Span::from_minutes(20).whole_minutes(), 20);
}

#[test]
fn elapsed_is_the_difference_and_never_negative() {
    let early = Timestamp::from_nanos(100);
    let late = Timestamp::from_nanos(350);
    assert_eq!(early.elapsed_at(late), Span::from_nanos(250));
    assert_eq!(late.elapsed_at(early), Span::zero());
    assert_eq!(early.elapsed_at(early), Span::zero());
    assert_eq!(
        Timestamp::from_nanos(0).elapsed_at(Timestamp::from_nanos(u128::MAX)),
        Span::from_nanos(u128::MAX)
    );
}

#[test]
fn clock_never_runs_backwards() {
    let mut clock = Clock::start();
    assert_eq!(clock.last(), Timestamp::from_nanos(0));
    let mut last = clock.now();
    for _ in 0..1000 {
        let now = clock.now();
        assert!(now.nanos >= last.nanos);
        assert_eq!(clock.last(), now);
        last = now;
    }
    assert!(last.nanos < 20_000_000_000);
}

#[test]
fn pause_is_active_by_the_clock() {
    let mut clock = Clock::start();
    let started = clock.now();
    let long = Pause::new_at(Span::from_minutes(60), started);
    assert!(long.is_active(&mut clock));
    let none = Pause::new_at(Span::zero(), started);
    assert!(!none.is_active(&mut clock));
    let over = Pause { duration: Span::from_nanos(1), started: Timestamp::from_nanos(0) };
    wait(&mut clock, Span::from_millis(2));
    assert!(!over.is_active(&mut clock));
}

#[test]
fn new_break_is_outstanding_under_a_random_id() {
    let mut clock = Clock::start();
    let before = clock.now();
    let first = Break::new(&mut clock);
    let second = Break::new(&mut clock);
    let after = clock.now();
    assert!(first.is_outstanding());
    assert_eq!(first.finished, None);
    assert!(before.nanos <= first.started.nanos && first.started.nanos <= second.started.nanos);
    assert!(second.started.nanos <= after.nanos);
    assert_ne!(first.id, 0);
    assert_ne!(first.id, second.id);
    for issued in [first, second] {
        let id = Uuid::from_u128(issued.id);
        assert_eq!(id.get_version_num(), 4);
        assert_eq!(id.get_variant(), uuid::Variant::RFC4122);
        assert_eq!(issued.id & 0x0000_0000_0000_f000_c000_0000_0000_0000, 0x0000_0000_0000_4000_8000_0000_0000_0000);
    }
}

#[test]
fn settled_break_carries_the_nil_id() {
    let settled = Break::settled_at(Timestamp::from_nanos(9));
    assert_eq!(settled.id, Uuid::nil().as_u128());
    assert_eq!(settled.started, Timestamp::from_nanos(9));
    assert_eq!(settled.finished, Some(Timestamp::from_nanos(9)));
    assert!(!settled.is_outstanding());
}

#[test]
fn acknowledge_matches_by_id() {
    let mut issued = Break::new_at(5, Timestamp::from_nanos(1));
    assert!(!issued.acknowledge_at(6, Timestamp::from_nanos(2)));
    assert_eq!(issued, Break::new_at(5, Timestamp::from_nanos(1)));
    assert!(issued.acknowledge_at(5, Timestamp::from_nanos(3)));
    assert_eq!(issued.finished, Some(Timestamp::from_nanos(3)));
    assert!(issued.acknowledge_at(5, Timestamp::from_nanos(8)));
    assert_eq!(issued.finished, Some(Timestamp::from_nanos(8)));
}

#[test]
fn notifier_by_the_clock_fires_after_the_interval() {
    let mut clock = Clock::start();
    let mut notifier = Notifier::new(&mut clock, Span::from_millis(300));
    assert_eq!(notifier.paused(), None);
    assert_eq!(notifier.interval(), Span::from_millis(300));
    assert_eq!(notifier.last_break(), Break::settled_at(clock.last()));
    let quiet = Inbox::new();
    assert_eq!(notifier.tick(&mut clock, &quiet).step, Step::Sleep);
    wait(&mut clock, Span::from_millis(320));
    let tick = notifier.tick(&mut clock, &quiet);
    let id = match tick.step {
        Step::Notify(id) => id,
        other => panic!("no reminder: {:?}", other),
    };
    assert_eq!(Uuid::from_u128(id).get_version_num(), 4);
    assert_eq!(notifier.last_break(), Break::new_at(id, clock.last()));
    wait(&mut clock, Span::from_millis(320));
    assert_eq!(notifier.tick(&mut clock, &quiet).step, Step::Sleep);
    let ack = Inbox { messages: vec![Message::EndBreak(id)], closed: false };
    assert_eq!(notifier.tick(&mut clock, &ack).step, Step::Sleep);
    assert_eq!(notifier.last_break().finished, Some(clock.last()));
    let closed = Inbox { messages: Vec::new(), closed: true };
    wait(&mut clock, Span::from_millis(320));
    assert_eq!(notifier.tick(&mut clock, &closed).step, Step::Shutdown(Cause::InboxClosed));
}

#[test]
fn notifier_by_the_clock_honours_a_pause() {
    let mut clock = Clock::start();
    let mut notifier = Notifier::new(&mut clock, Span::zero());
    let pause = Inbox { messages: vec![Message::PauseReminders(Span::from_minutes(60))], closed: false };
    assert_eq!(notifier.tick(&mut clock, &pause).step, Step::Sleep);
    assert_eq!(notifier.tick(&mut clock, &Inbox::new()).step, Step::Sleep);
    let resume = Inbox { messages: vec![Message::PauseReminders(Span::zero())], closed: false };
    assert!(matches!(notifier.tick(&mut clock, &resume).step, Step::Notify(_)));
}
