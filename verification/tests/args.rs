use break_reminder::args::parse_minutes;
use break_reminder::notifier::Notifier;
use break_reminder::time::Span;

fn args(list: &[&str]) -> Vec<String> {
    list.iter().map(|arg| arg.to_string()).collect()
}

#[test]
fn parse_minutes_reads_plain_counts() {
    assert_eq!(parse_minutes("0"), Some(0));
    assert_eq!(parse_minutes("7"), Some(7));
    assert_eq!(parse_minutes("20"), Some(20));
    assert_eq!(parse_minutes("1440"), Some(1440));
    assert_eq!(parse_minutes("007"), Some(7));
    assert_eq!(parse_minutes("+15"), Some(15));
    assert_eq!(parse_minutes("+0"), Some(0));
}

#[test]
fn parse_minutes_takes_the_largest_count() {
    assert_eq!(parse_minutes("18446744073709551615"), Some(u64::MAX));
    assert_eq!(parse_minutes("00000000000000000000000018446744073709551615"), Some(u64::MAX));
}

#[test]
fn parse_minutes_refuses_counts_that_do_not_fit() {
    assert_eq!(parse_minutes("18446744073709551616"), None);
    assert_eq!(parse_minutes("18446744073709551620"), None);
    assert_eq!(parse_minutes("99999999999999999999999999"), None);
    assert_eq!(parse_minutes("184467440737095516150"), None);
}

#[test]
fn parse_minutes_refuses_what_is_no_count() {
    for text in [
        "", "+", "-", "-1", "--1", "++1", "+-1", "1+", "1 ", " 1", "1.5", "1e3", "0x10", "1_000",
        "ten", "break-reminder.exe", "٣", "１２", "1\u{0}", "\u{7f}", "12a", "a12", "+ 1",
    ] {
        assert_eq!(parse_minutes(text), None, "{:?}", text);
    }
}

#[test]
fn parse_minutes_agrees_with_the_standard_parser() {
    let pieces = ["", "+", "-", "0", "1", "9", "18446744073709551615", "18446744073709551616", " ", "x", "é"];
    for a in pieces {
        for b in pieces {
            for c in pieces {
                let text = format!("{}{}{}", a, b, c);
                assert_eq!(parse_minutes(&text), text.parse::<u64>().ok(), "{:?}", text);
            }
        }
    }
    for n in 0u64..2000 {
        let text = n.to_string();
        assert_eq!(parse_minutes(&text), Some(n));
    }
}

#[test]
fn interval_from_args_reads_the_last_argument() {
    assert_eq!(Notifier::interval_from_args(&args(&["reminder", "45"])), Some(Span::from_minutes(45)));
    assert_eq!(Notifier::interval_from_args(&args(&["reminder", "x", "5"])), Some(Span::from_minutes(5)));
    assert_eq!(Notifier::interval_from_args(&args(&["reminder", "5", "x"])), None);
    assert_eq!(Notifier::interval_from_args(&args(&["reminder"])), None);
    assert_eq!(Notifier::interval_from_args(&args(&[])), None);
    assert_eq!(Notifier::interval_from_args(&args(&["30"])), Some(Span::from_minutes(30)));
    assert_eq!(
        Notifier::interval_from_args(&args(&["reminder", "1"])).map(|span| span.as_nanos()),
        Some(60_000_000_000)
    );
}

#[test]
fn interval_from_args_takes_the_largest_count_of_minutes() {
    let longest = Notifier::interval_from_args(&args(&["reminder", "18446744073709551615"]));
    assert_eq!(longest.map(|span| span.as_nanos()), Some(u64::MAX as u128 * 60_000_000_000));
    assert_eq!(Notifier::interval_from_args(&args(&["reminder", "18446744073709551616"])), None);
}

#[test]
fn interval_defaults_to_twenty_minutes() {
    assert_eq!(Notifier::interval_or_default(&args(&["reminder"])), Span::from_minutes(20));
    assert_eq!(Notifier::interval_or_default(&args(&[])), Span::from_minutes(20));
    assert_eq!(Notifier::interval_or_default(&args(&["reminder", "soon"])), Span::from_minutes(20));
    assert_eq!(Notifier::interval_or_default(&args(&["reminder", "-3"])), Span::from_minutes(20));
    assert_eq!(Notifier::interval_or_default(&args(&["reminder", "3"])), Span::from_minutes(3));
    assert_eq!(Notifier::interval_or_default(&args(&["reminder", "0"])), Span::zero());
    assert_eq!(Span::from_minutes(20).as_nanos(), 1_200_000_000_000);
}
