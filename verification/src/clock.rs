//! The wall clock, as text.

use vstd::prelude::*;

verus! {

/// The pattern that status lines are stamped with: hours, minutes, seconds.
pub open spec fn time_pattern() -> Seq<char> {
    "%H:%M:%S"@
}

/// The number that the two decimal digits at `at` and `at + 1` of `text`
/// write, where both are digits.
pub open spec fn two_digits(text: Seq<char>, at: int) -> Option<int> {
    if 0 <= at && at + 1 < text.len() && '0' <= text[at] <= '9' && '0' <= text[at + 1] <= '9' {
        Some((text[at] as int - '0' as int) * 10 + (text[at + 1] as int - '0' as int))
    } else {
        None
    }
}

/// Whether `text` is a time of day written as `HH:MM:SS`: hours up to 23,
/// minutes up to 59, seconds up to 60 (a leap second).
pub open spec fn is_time_of_day(text: Seq<char>) -> bool {
    &&& text.len() == 8
    &&& text[2] == ':'
    &&& text[5] == ':'
    &&& two_digits(text, 0) matches Some(hours) && hours <= 23
    &&& two_digits(text, 3) matches Some(minutes) && minutes <= 59
    &&& two_digits(text, 6) matches Some(seconds) && seconds <= 60
}

/// Formats the current local time with `chrono::Local::now` and
/// `chrono::DateTime::format`.
///
/// Trusted: for the pattern that `requires` admits the text has the shape
/// that the pattern's three fields are documented to give, each padded with
/// zeros to two digits. Which time it shows depends on the clock and on the
/// time zone of the machine, and nothing is claimed of that. On a machine
/// whose clock stands before 1970 `Local::now` does not return.
#[verifier::external_body]
fn format_local_time(pattern: &str) -> (text: String)
    requires
        pattern@ == time_pattern(),
    ensures
        is_time_of_day(text@),
{
    chrono::Local::now().format(pattern).to_string()
}

/// The current local time of day as text, for a status line.
pub fn time_of_day() -> (text: String)
    ensures
        is_time_of_day(text@),
{
    format_local_time("%H:%M:%S")
}

} // verus!
