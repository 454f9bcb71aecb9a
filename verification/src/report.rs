//! What the notifier writes to the log, as text.

use crate::break_reminder::Break;
use crate::notifier::{Notice, Notifier};
use crate::pause::Pause;
use crate::scheduler::{BreakRecord, Cause, Note, PauseWindow};
use crate::time::{elapsed, Span, Timestamp, NANOS_PER_MINUTE};
use vstd::prelude::*;
use vstd::string::*;

verus! {

/// The character that writes the decimal digit `digit`.
pub open spec fn digit_char(digit: nat) -> char {
    ((digit + 48) as u8) as char
}

/// A number in decimal, without leading zeros.
pub open spec fn decimal_text(n: nat) -> Seq<char>
    decreases n,
{
    if n < 10 {
        seq![digit_char(n)]
    } else {
        decimal_text(n / 10).push(digit_char(n % 10))
    }
}

/// A truth value as `true` or `false`.
pub open spec fn bool_text(value: bool) -> Seq<char> {
    if value {
        "true"@
    } else {
        "false"@
    }
}

/// The text of one decimal digit.
fn digit_str(digit: u8) -> (text: &'static str)
    requires
        digit < 10,
    ensures
        text@ == seq![digit_char(digit as nat)],
{
    proof {
        reveal_strlit("0");
        reveal_strlit("1");
        reveal_strlit("2");
        reveal_strlit("3");
        reveal_strlit("4");
        reveal_strlit("5");
        reveal_strlit("6");
        reveal_strlit("7");
        reveal_strlit("8");
        reveal_strlit("9");
    }
    let text = if digit == 0 {
        "0"
    } else if digit == 1 {
        "1"
    } else if digit == 2 {
        "2"
    } else if digit == 3 {
        "3"
    } else if digit == 4 {
        "4"
    } else if digit == 5 {
        "5"
    } else if digit == 6 {
        "6"
    } else if digit == 7 {
        "7"
    } else if digit == 8 {
        "8"
    } else {
        "9"
    };
    assert(text@ =~= seq![digit_char(digit as nat)]);
    text
}

/// Writes `n` in decimal.
pub fn decimal_string(n: u128) -> (text: String)
    ensures
        text@ == decimal_text(n as nat),
    decreases n,
{
    let mut text = if n < 10 {
        String::new()
    } else {
        decimal_string(n / 10)
    };
    let low: u8 = (n % 10) as u8;
    text.append(digit_str(low));
    assert(text@ =~= decimal_text(n as nat));
    text
}

/// The character that writes the hexadecimal digit `digit`, in lower case.
pub open spec fn hex_char(digit: nat) -> char {
    if digit < 10 {
        ((digit + 48) as u8) as char
    } else {
        ((digit + 87) as u8) as char
    }
}

/// The hexadecimal digit of `id` at `place`, where place 0 is the most
/// significant of the 32 and place 31 the least.
pub open spec fn hex_digit_at(id: u128, place: nat) -> nat {
    ((id >> ((4 * (31 - place)) as u128)) & 0xf) as nat
}

/// The hexadecimal digits of `id` from place `from` up to, and without,
/// place `to`.
pub open spec fn hex_run(id: u128, from: nat, to: nat) -> Seq<char> {
    Seq::new((to - from) as nat, |i: int| hex_char(hex_digit_at(id, (from + i) as nat)))
}

/// A reminder id as text: its 32 hexadecimal digits in lower case, in groups
/// of 8, 4, 4, 4 and 12 with a hyphen between two groups.
pub open spec fn id_text(id: u128) -> Seq<char> {
    hex_run(id, 0, 8) + seq!['-'] + hex_run(id, 8, 12) + seq!['-'] + hex_run(id, 12, 16)
        + seq!['-'] + hex_run(id, 16, 20) + seq!['-'] + hex_run(id, 20, 32)
}

/// The text of one hexadecimal digit.
fn hex_str(digit: u8) -> (text: &'static str)
    requires
        digit < 16,
    ensures
        text@ == seq![hex_char(digit as nat)],
{
    if digit < 10 {
        let text = digit_str(digit);
        assert(text@ =~= seq![hex_char(digit as nat)]);
        return text;
    }
    proof {
        reveal_strlit("a");
        reveal_strlit("b");
        reveal_strlit("c");
        reveal_strlit("d");
        reveal_strlit("e");
        reveal_strlit("f");
    }
    let text = if digit == 10 {
        "a"
    } else if digit == 11 {
        "b"
    } else if digit == 12 {
        "c"
    } else if digit == 13 {
        "d"
    } else if digit == 14 {
        "e"
    } else {
        "f"
    };
    assert(text@ =~= seq![hex_char(digit as nat)]);
    text
}

/// Appends the hexadecimal digits of `id` from place `from` up to, and
/// without, place `to`.
fn append_hex_run(text: &mut String, id: u128, from: u32, to: u32)
    requires
        from <= to <= 32,
    ensures
        final(text)@ == old(text)@ + hex_run(id, from as nat, to as nat),
{
    let mut place: u32 = from;
    assert(text@ =~= old(text)@ + hex_run(id, from as nat, place as nat));
    while place < to
        invariant
            from <= place <= to <= 32,
            text@ == old(text)@ + hex_run(id, from as nat, place as nat),
        decreases to - place,
    {
        let shift: u32 = 4 * (31 - place);
        let nibble: u128 = (id >> shift) & 0xf;
        assert(nibble < 16) by (bit_vector)
            requires
                nibble == (id >> shift) & 0xf,
        ;
        assert(nibble as nat == hex_digit_at(id, place as nat));
        let ghost before = text@;
        text.append(hex_str(nibble as u8));
        place += 1;
        assert(text@ =~= old(text)@ + hex_run(id, from as nat, place as nat));
    }
}

/// Writes a reminder id as text.
pub fn id_string(id: u128) -> (text: String)
    ensures
        text@ == id_text(id),
{
    proof {
        reveal_strlit("-");
    }
    let mut text = String::new();
    append_hex_run(&mut text, id, 0, 8);
    text.append("-");
    append_hex_run(&mut text, id, 8, 12);
    text.append("-");
    append_hex_run(&mut text, id, 12, 16);
    text.append("-");
    append_hex_run(&mut text, id, 16, 20);
    text.append("-");
    append_hex_run(&mut text, id, 20, 32);
    assert(text@ =~= id_text(id));
    text
}

/// A span of time in whole minutes, in decimal.
pub open spec fn minutes_text(span: nat) -> Seq<char> {
    decimal_text(span / (NANOS_PER_MINUTE as nat))
}

/// The line that reports the interval.
pub open spec fn interval_text(interval: nat) -> Seq<char> {
    "Interval: "@ + minutes_text(interval) + " minutes"@
}

/// A pause as text, seen at `now`.
pub open spec fn pause_text(pause: PauseWindow, now: nat) -> Seq<char> {
    "Pause { duration: "@ + minutes_text(pause.duration) + " minutes, started: "@ + minutes_text(
        elapsed(pause.started, now),
    ) + " minutes ago, is_active: "@ + bool_text(pause.is_active(now)) + " }"@
}

/// The line that reports the pause, seen at `now`.
pub open spec fn paused_text(paused: Option<PauseWindow>, now: nat) -> Seq<char> {
    match paused {
        Some(pause) => pause_text(pause, now),
        None => "Paused: No"@,
    }
}

/// When a break finished, seen at `now`.
pub open spec fn finished_text(finished: Option<nat>, now: nat) -> Seq<char> {
    match finished {
        Some(at) => minutes_text(elapsed(at, now)) + " minutes ago"@,
        None => "No"@,
    }
}

/// A break as text, seen at `now`.
pub open spec fn break_text(record: BreakRecord, now: nat) -> Seq<char> {
    "Break { id: "@ + id_text(record.id) + ", started: "@ + minutes_text(
        elapsed(record.started, now),
    ) + " minutes ago, finished: "@ + finished_text(record.finished, now) + " }"@
}

/// The line that reports an acknowledgement for another break than the last.
pub open spec fn stale_text(received: u128, last: u128) -> Seq<char> {
    "End break message's ID ("@ + id_text(received) + ") does not match the last break ID ("@
        + id_text(last) + ")"@
}

/// The lines of a note: three for a status (interval, pause, last break), one
/// for a stale acknowledgement.
pub open spec fn note_lines(note: Note) -> Seq<Seq<char>> {
    match note {
        Note::Status { state, at } => seq![
            interval_text(state.interval),
            paused_text(state.paused, at),
            break_text(state.last_break, at),
        ],
        Note::StaleAcknowledgement { received, last } => seq![stale_text(received, last)],
    }
}

/// The line that reports why the notifier shuts down.
pub open spec fn cause_text(cause: Cause) -> Seq<char> {
    match cause {
        Cause::InboxClosed => "Message sender has disconnected, shutting down notifier"@,
        Cause::PresenterGone => "Event loop has closed, notifier will shut down"@,
    }
}

/// The texts that a sequence of strings holds, in order.
pub open spec fn texts_of(lines: Seq<String>) -> Seq<Seq<char>> {
    lines.map_values(|line: String| line@)
}

/// Appends a span of time in whole minutes.
fn append_minutes(text: &mut String, span: Span)
    ensures
        final(text)@ == old(text)@ + minutes_text(span@),
{
    let minutes = decimal_string(span.whole_minutes());
    text.append(minutes.as_str());
}

impl Pause {
    /// The pause as text, seen at `now`: its duration and the time since it
    /// started, both in whole minutes, and whether it is active.
    pub fn describe_at(&self, now: Timestamp) -> (text: String)
        ensures
            text@ == pause_text(self@, now@),
    {
        let mut text = String::from_str("Pause { duration: ");
        append_minutes(&mut text, self.duration);
        text.append(" minutes, started: ");
        append_minutes(&mut text, self.started.elapsed_at(now));
        text.append(" minutes ago, is_active: ");
        if self.is_active_at(now) {
            text.append("true");
        } else {
            text.append("false");
        }
        text.append(" }");
        text
    }
}

impl Break {
    /// The break as text, seen at `now`: its id, the time since it started
    /// in whole minutes, and the time since it finished, or `No`.
    pub fn describe_at(&self, now: Timestamp) -> (text: String)
        ensures
            text@ == break_text(self@, now@),
    {
        let mut text = String::from_str("Break { id: ");
        text.append(id_string(self.id).as_str());
        text.append(", started: ");
        append_minutes(&mut text, self.started.elapsed_at(now));
        text.append(" minutes ago, finished: ");
        match self.finished {
            Some(at) => {
                append_minutes(&mut text, at.elapsed_at(now));
                text.append(" minutes ago");
                assert(text@ =~= "Break { id: "@ + id_text(self.id) + ", started: "@
                    + minutes_text(elapsed(self.started@, now@)) + " minutes ago, finished: "@
                    + finished_text(self@.finished, now@));
            },
            None => {
                text.append("No");
            },
        }
        text.append(" }");
        text
    }
}

impl Notifier {
    /// The three lines of a status report, seen at `now`: the interval in
    /// whole minutes, the pause or `Paused: No`, and the last break.
    pub fn describe_at(&self, now: Timestamp) -> (lines: Vec<String>)
        ensures
            texts_of(lines@) == note_lines(Note::Status { state: self@, at: now@ }),
    {
        let mut interval = String::from_str("Interval: ");
        append_minutes(&mut interval, self.interval());
        interval.append(" minutes");
        let paused = match self.paused() {
            Some(pause) => pause.describe_at(now),
            None => String::from_str("Paused: No"),
        };
        let last_break = self.last_break().describe_at(now);
        let mut lines: Vec<String> = Vec::new();
        lines.push(interval);
        lines.push(paused);
        lines.push(last_break);
        assert(texts_of(lines@) =~= note_lines(Note::Status { state: self@, at: now@ }));
        lines
    }
}

impl Notice {
    /// The lines to write to the log for this notice.
    pub fn lines(&self) -> (lines: Vec<String>)
        ensures
            texts_of(lines@) == note_lines(self@),
    {
        match self {
            Notice::Status { state, at } => state.describe_at(*at),
            Notice::StaleAcknowledgement { received, last } => {
                let mut text = String::from_str("End break message's ID (");
                text.append(id_string(*received).as_str());
                text.append(") does not match the last break ID (");
                text.append(id_string(*last).as_str());
                text.append(")");
                let mut lines: Vec<String> = Vec::new();
                lines.push(text);
                assert(texts_of(lines@) =~= note_lines(self@));
                lines
            },
        }
    }
}

impl Cause {
    /// The line to write to the log when the notifier shuts down for this
    /// cause.
    pub fn describe(&self) -> (text: String)
        ensures
            text@ == cause_text(*self),
    {
        match self {
            Cause::InboxClosed => String::from_str(
                "Message sender has disconnected, shutting down notifier",
            ),
            Cause::PresenterGone => String::from_str(
                "Event loop has closed, notifier will shut down",
            ),
        }
    }
}

} // verus!
