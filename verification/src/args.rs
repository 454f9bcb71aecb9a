//! The start-up argument: the interval between reminders, as a count of
//! minutes in decimal.

use crate::time::NANOS_PER_MINUTE;
use vstd::prelude::*;
use vstd::string::*;

verus! {

/// The value of a decimal digit, and `None` for any other character.
pub open spec fn digit_value(c: char) -> Option<nat> {
    if '0' <= c <= '9' {
        Some((c as u8 - '0' as u8) as nat)
    } else {
        None
    }
}

/// The number that a run of decimal digits writes; `None` where a character
/// is not a digit. The empty run writes zero.
pub open spec fn decimal_value(digits: Seq<char>) -> Option<nat>
    decreases digits.len(),
{
    if digits.len() == 0 {
        Some(0)
    } else {
        match (decimal_value(digits.drop_last()), digit_value(digits.last())) {
            (Some(high), Some(low)) => Some(10 * high + low),
            _ => None,
        }
    }
}

/// A text without the `+` that it may start with.
pub open spec fn unsigned_part(text: Seq<char>) -> Seq<char> {
    if text.len() > 0 && text[0] == '+' {
        text.drop_first()
    } else {
        text
    }
}

/// The count that `text` writes: an optional `+`, then one decimal digit or
/// more, and nothing else, with a value that fits 64 bits. Any other text
/// writes no count.
pub open spec fn parse_count(text: Seq<char>) -> Option<u64> {
    let digits = unsigned_part(text);
    if digits.len() == 0 {
        None
    } else {
        match decimal_value(digits) {
            Some(value) => if value <= u64::MAX {
                Some(value as u64)
            } else {
                None
            },
            None => None,
        }
    }
}

/// The interval that the arguments of the program ask for: the last of them,
/// read as a count of minutes. `None` where there is no argument or the last
/// one writes no count.
pub open spec fn interval_of_args(args: Seq<String>) -> Option<nat> {
    if args.len() == 0 {
        None
    } else {
        match parse_count(args.last()@) {
            Some(minutes) => Some(minutes as nat * NANOS_PER_MINUTE as nat),
            None => None,
        }
    }
}

/// Every prefix of a run of digits is a run of digits, and writes no more
/// than the whole run.
proof fn lemma_prefix_value(digits: Seq<char>, len: int)
    requires
        0 <= len <= digits.len(),
        decimal_value(digits) is Some,
    ensures
        decimal_value(digits.take(len)) is Some,
        decimal_value(digits.take(len))->0 <= decimal_value(digits)->0,
    decreases digits.len(),
{
    if len == digits.len() {
        assert(digits.take(len) =~= digits);
    } else {
        lemma_prefix_value(digits.drop_last(), len);
        assert(digits.drop_last().take(len) =~= digits.take(len));
    }
}

/// Reads `text` as a count: see `parse_count`.
pub fn parse_minutes(text: &str) -> (count: Option<u64>)
    ensures
        count == parse_count(text@),
{
    if !text.is_ascii() {
        proof {
            lemma_not_ascii_is_no_count(text@);
        }
        return None;
    }
    let bytes = text.as_bytes();
    proof {
        is_ascii_spec_bytes(text);
    }
    let len: usize = bytes.len();
    assert(len == text@.len());
    let start: usize = if len > 0 && bytes[0] == 43u8 {
        1
    } else {
        0
    };
    let ghost digits = unsigned_part(text@);
    assert(start == 1 <==> len > 0 && text@[0] == '+') by {
        if len > 0 {
            assert(bytes@[0] == text@[0] as u8);
            assert('\0' <= text@[0] <= '\u{7f}');
        }
    }
    if start == len {
        return None;
    }
    let mut value: u64 = 0;
    let mut i: usize = start;
    assert(digits.take(0) =~= Seq::<char>::empty());
    while i < len
        invariant
            start <= i <= len,
            start <= 1,
            len == text@.len(),
            bytes@.len() == len,
            forall|k: int| 0 <= k < len ==> bytes@[k] == text@[k] as u8,
            vstd::utf8::is_ascii_chars(text@),
            digits.len() == len - start,
            digits == unsigned_part(text@),
            forall|k: int| 0 <= k < digits.len() ==> digits[k] == text@[k + start],
            decimal_value(digits.take(i - start)) == Some(value as nat),
        decreases len - i,
    {
        let byte: u8 = bytes[i];
        let ghost c = text@[i as int];
        let ghost next = digits.take(i - start + 1);
        proof {
            assert(next.drop_last() =~= digits.take(i - start));
            assert(next.last() == c);
            assert(byte == c as u8);
            assert('\0' <= c <= '\u{7f}');
        }
        if byte < 48u8 || byte > 57u8 {
            proof {
                assert(digit_value(c) is None);
                assert(decimal_value(next) is None);
                if decimal_value(digits) is Some {
                    lemma_prefix_value(digits, i - start + 1);
                }
            }
            return None;
        }
        let digit: u64 = (byte - 48u8) as u64;
        assert(digit_value(c) == Some(digit as nat));
        if value > (u64::MAX - digit) / 10 {
            proof {
                assert(decimal_value(next) == Some(10 * (value as nat) + digit as nat));
                assert(10 * (value as nat) + digit as nat > u64::MAX);
                if decimal_value(digits) is Some {
                    lemma_prefix_value(digits, i - start + 1);
                }
            }
            return None;
        }
        value = 10 * value + digit;
        i += 1;
    }
    assert(digits.take(i - start) =~= digits);
    Some(value)
}

/// A text with a character outside ASCII writes no count.
proof fn lemma_not_ascii_is_no_count(text: Seq<char>)
    requires
        !vstd::utf8::is_ascii_chars(text),
    ensures
        parse_count(text) is None,
{
    let k = choose|k: int| 0 <= k < text.len() && !('\0' <= #[trigger] text[k] <= '\u{7f}');
    let digits = unsigned_part(text);
    let offset: int = if text.len() > 0 && text[0] == '+' {
        1
    } else {
        0
    };
    assert(k >= offset);
    assert(digits[k - offset] == text[k]);
    if decimal_value(digits) is Some {
        lemma_prefix_value(digits, k - offset + 1);
        let prefix = digits.take(k - offset + 1);
        assert(prefix.last() == text[k]);
        assert(digit_value(prefix.last()) is None);
    }
}

} // verus!
