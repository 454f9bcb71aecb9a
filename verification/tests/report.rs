use break_reminder::break_reminder::Break;
use break_reminder::message::Message;
use break_reminder::notifier::{Notice, Notifier};
use break_reminder::pause::Pause;
use break_reminder::report::{decimal_string, id_string};
use break_reminder::scheduler::Cause;
use break_reminder::time::{Span, Timestamp};
use uuid::Uuid;

fn minute(n: u128) -> Timestamp {
    Timestamp::from_nanos(n * 60_000_000_000)
}

#[test]
fn decimal_string_writes_numbers() {
    assert_eq!(decimal_string(0), "0");
    assert_eq!(decimal_string(9), "9");
    assert_eq!(decimal_string(10), "10");
    assert_eq!(decimal_string(1203), "1203");
    assert_eq!(decimal_string(u128::MAX), "340282366920938463463374607431768211455");
    for n in 0u128..1500 {
        assert_eq!(decimal_string(n), n.to_string());
    }
}

#[test]
fn id_string_writes_hyphenated_lower_hex() {
    assert_eq!(id_string(0), "00000000-0000-0000-0000-000000000000");
    assert_eq!(id_string(u128::MAX), "ffffffff-ffff-ffff-ffff-ffffffffffff");
    assert_eq!(
        id_string(0x0123_4567_89ab_cdef_fedc_ba98_7654_3210),
        "01234567-89ab-cdef-fedc-ba9876543210"
    );
    assert_eq!(id_string(1), "00000000-0000-0000-0000-000000000001");
    assert_eq!(id_string(1 << 127), "80000000-0000-0000-0000-000000000000");
}

#[test]
fn id_string_agrees_with_uuid() {
    assert_eq!(id_string(Uuid::nil().as_u128()), Uuid::nil().to_string());
    let mut bits: u128 = 0x9e37_79b9_7f4a_7c15_f39c_c060_5ced_c835;
    for _ in 0..500 {
        bits = bits.wrapping_mul(0x2360_ed05_1fc6_5da4_4385_df64_9fcc_f645).wrapping_add(0x1405_7b7e_f767_814f);
        assert_eq!(id_string(bits), Uuid::from_u128(bits).to_string());
    }
    for _ in 0..20 {
        let id = Uuid::new_v4();
        assert_eq!(id_string(id.as_u128()), id.to_string());
    }
}

#[test]
fn pause_text() {
    let pause = Pause { duration: Span::from_minutes(5), started: minute(10) };
    assert_eq!(
        pause.describe_at(minute(12)),
        "Pause { duration: 5 minutes, started: 2 minutes ago, is_active: true }"
    );
    assert_eq!(
        pause.describe_at(minute(15)),
        "Pause { duration: 5 minutes, started: 5 minutes ago, is_active: false }"
    );
    let short = Pause { duration: Span::from_secs(119), started: minute(10) };
    assert_eq!(
        short.describe_at(Timestamp::from_nanos(minute(11).nanos + 58_999_999_999)),
        "Pause { duration: 1 minutes, started: 1 minutes ago, is_active: true }"
    );
}

#[test]
fn break_text() {
    let outstanding = Break::new_at(0x0123_4567_89ab_4def_8edc_ba98_7654_3210, minute(3));
    assert_eq!(
        outstanding.describe_at(minute(50)),
        "Break { id: 01234567-89ab-4def-8edc-ba9876543210, started: 47 minutes ago, finished: No }"
    );
    let settled = Break::settled_at(minute(3));
    assert_eq!(
        settled.describe_at(minute(4)),
        "Break { id: 00000000-0000-0000-0000-000000000000, started: 1 minutes ago, finished: 1 minutes ago }"
    );
    let finished = Break { id: 255, started: minute(1), finished: Some(minute(30)) };
    assert_eq!(
        finished.describe_at(minute(31)),
        "Break { id: 00000000-0000-0000-0000-0000000000ff, started: 30 minutes ago, finished: 1 minutes ago }"
    );
}

#[test]
fn status_lines() {
    let mut notifier = Notifier::new_at(Span::from_minutes(20), minute(0));
    assert_eq!(
        notifier.describe_at(minute(7)),
        vec![
            "Interval: 20 minutes".to_string(),
            "Paused: No".to_string(),
            "Break { id: 00000000-0000-0000-0000-000000000000, started: 7 minutes ago, finished: 7 minutes ago }"
                .to_string(),
        ]
    );
    notifier.handle_message_at(Message::PauseReminders(Span::from_minutes(90)), minute(8));
    notifier.send_reminder_at(0xabc, minute(9));
    let notice = notifier.handle_message_at(Message::PrintDebug, minute(10));
    let lines = notice.map(|notice| notice.lines());
    assert_eq!(
        lines,
        Some(vec![
            "Interval: 20 minutes".to_string(),
            "Pause { duration: 90 minutes, started: 2 minutes ago, is_active: true }".to_string(),
            "Break { id: 00000000-0000-0000-0000-000000000abc, started: 1 minutes ago, finished: No }"
                .to_string(),
        ])
    );
}

#[test]
fn stale_acknowledgement_line() {
    let notice = Notice::StaleAcknowledgement { received: 1, last: 2 };
    assert_eq!(
        notice.lines(),
        vec![
            "End break message's ID (00000000-0000-0000-0000-000000000001) does not match the last break ID (00000000-0000-0000-0000-000000000002)"
                .to_string()
        ]
    );
}

#[test]
fn shutdown_lines() {
    assert_eq!(Cause::InboxClosed.describe(), "Message sender has disconnected, shutting down notifier");
    assert_eq!(Cause::PresenterGone.describe(), "Event loop has closed, notifier will shut down");
}
