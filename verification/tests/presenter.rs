use break_reminder::message::Message;
use break_reminder::notifier::{Inbox, Polled};
use break_reminder::presenter::{entered_minutes, DialogOutcome, MenuCommand, ShownBreak};
use break_reminder::time::Span;

#[test]
fn menu_ids_name_their_commands() {
    for command in [
        MenuCommand::PauseReminders,
        MenuCommand::SetInterval,
        MenuCommand::PrintDebug,
        MenuCommand::Quit,
    ] {
        assert_eq!(MenuCommand::from_id(command.id()), Some(command));
    }
    assert_eq!(MenuCommand::PauseReminders.id(), "pause");
    assert_eq!(MenuCommand::SetInterval.id(), "interval");
    assert_eq!(MenuCommand::PrintDebug.id(), "debug_log");
    assert_eq!(MenuCommand::Quit.id(), "quit");
}

#[test]
fn unknown_menu_ids_name_no_command() {
    for id in ["", "Pause", "pause ", "paus", "pausee", "1", "quit\u{0}", "debug", "debug_show", "intervál"] {
        assert_eq!(MenuCommand::from_id(id), None, "{:?}", id);
    }
}

#[test]
fn only_pause_and_interval_ask_for_minutes() {
    assert!(MenuCommand::PauseReminders.needs_minutes());
    assert!(MenuCommand::SetInterval.needs_minutes());
    assert!(!MenuCommand::PrintDebug.needs_minutes());
    assert!(!MenuCommand::Quit.needs_minutes());
}

#[test]
fn commands_send_their_messages() {
    let five = Span::from_minutes(5);
    assert_eq!(MenuCommand::PauseReminders.message(Some(five)), Some(Message::PauseReminders(five)));
    assert_eq!(MenuCommand::PauseReminders.message(None), None);
    assert_eq!(MenuCommand::SetInterval.message(Some(five)), Some(Message::SetInterval(five)));
    assert_eq!(MenuCommand::SetInterval.message(None), None);
    assert_eq!(MenuCommand::PrintDebug.message(None), Some(Message::PrintDebug));
    assert_eq!(MenuCommand::PrintDebug.message(Some(five)), Some(Message::PrintDebug));
    assert_eq!(MenuCommand::Quit.message(None), None);
    assert_eq!(MenuCommand::Quit.message(Some(five)), None);
}

#[test]
fn entered_minutes_must_be_a_number_and_not_zero() {
    assert_eq!(entered_minutes(true, 5), Some(5));
    assert_eq!(entered_minutes(true, u32::MAX), Some(u32::MAX));
    assert_eq!(entered_minutes(true, 0), None);
    assert_eq!(entered_minutes(false, 5), None);
    assert_eq!(entered_minutes(false, 0), None);
}

#[test]
fn dialog_outcome_gives_the_span() {
    assert_eq!(DialogOutcome::Confirmed(3).span(), Some(Span::from_secs(180)));
    assert_eq!(DialogOutcome::Confirmed(u32::MAX).span(), Some(Span::from_minutes(u32::MAX as u64)));
    assert_eq!(DialogOutcome::Confirmed(0).span(), Some(Span::zero()));
    assert_eq!(DialogOutcome::Dismissed.span(), None);
    assert_eq!(DialogOutcome::Failed.span(), None);
}

#[test]
fn shown_break_is_acknowledged_once() {
    let mut shown = ShownBreak::none();
    assert_eq!(shown.id(), None);
    assert_eq!(shown.finish(), None);
    shown.show(17);
    assert_eq!(shown.id(), Some(17));
    assert_eq!(shown.finish(), Some(Message::EndBreak(17)));
    assert_eq!(shown.id(), None);
    assert_eq!(shown.finish(), None);
    shown.show(18);
    shown.show(19);
    assert_eq!(shown.finish(), Some(Message::EndBreak(19)));
}

#[test]
fn drain_takes_every_queued_message_and_stops_at_empty() {
    let mut inbox = Inbox::new();
    assert!(inbox.messages.is_empty());
    assert!(!inbox.closed);
    assert!(inbox.accept(Polled::Message(Message::PrintDebug)));
    assert!(inbox.accept(Polled::Message(Message::EndBreak(4))));
    assert!(!inbox.accept(Polled::Empty));
    assert_eq!(inbox.messages, vec![Message::PrintDebug, Message::EndBreak(4)]);
    assert!(!inbox.closed);
}

#[test]
fn drain_marks_a_disconnected_channel_closed() {
    let mut inbox = Inbox::new();
    assert!(inbox.accept(Polled::Message(Message::PrintDebug)));
    assert!(!inbox.accept(Polled::Disconnected));
    assert_eq!(inbox.messages, vec![Message::PrintDebug]);
    assert!(inbox.closed);
    let mut empty = Inbox::new();
    assert!(!empty.accept(Polled::Disconnected));
    assert!(empty.closed);
    assert!(empty.messages.is_empty());
}
