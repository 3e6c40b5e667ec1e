//! Readings of the clock and of the random source.

use vstd::prelude::*;

verus! {

/// The earliest timestamp a chrono `DateTime<Utc>` can hold: January 1, 262144 BCE.
pub const EARLIEST_TIMESTAMP: i64 = -8334601228800;

/// The latest timestamp a chrono `DateTime<Utc>` can hold: December 31, 262142 CE, 23:59:59.
pub const LATEST_TIMESTAMP: i64 = 8210266876799;

/// Whether `t` is a time the clock can read.
pub open spec fn clock_reading(t: i64) -> bool {
    EARLIEST_TIMESTAMP <= t <= LATEST_TIMESTAMP
}

/// The current time in whole seconds since the Unix epoch.
///
/// Trusted: calls `chrono::Utc::now().timestamp()`. The reading depends on the
/// clock; what holds of every reading is that it is the timestamp of a
/// `DateTime<Utc>` (`Utc::now` unwraps `DateTime::from_timestamp`, which fails
/// outside that range), so it lies between `EARLIEST_TIMESTAMP` and
/// `LATEST_TIMESTAMP`.
#[verifier::external_body]
pub(crate) fn now_timestamp() -> (t: i64)
    ensures
        EARLIEST_TIMESTAMP <= t <= LATEST_TIMESTAMP,
{
    chrono::Utc::now().timestamp()
}

/// The value of two decimal digits, if both are digits.
pub open spec fn two_digit_value(a: char, b: char) -> Option<int> {
    if '0' <= a && a <= '9' && '0' <= b && b <= '9' {
        Some((a as int - '0' as int) * 10 + (b as int - '0' as int))
    } else {
        None
    }
}

/// Whether a text is a time written as `%Y-%m-%d %H:%M:%S`: a year of at
/// least four characters, then a month from 01 to 12, a day from 01 to 31, an
/// hour up to 23 and minutes and seconds up to 59 (60 for a leap second),
/// each of two digits, with `-`, ` ` and `:` between them.
pub open spec fn names_a_calendar_time(s: Seq<char>) -> bool {
    let k = s.len() - 14;
    &&& s.len() >= 19
    &&& s[k - 1] == '-'
    &&& two_digit_value(s[k], s[k + 1]) matches Some(month) && 1 <= month <= 12
    &&& s[k + 2] == '-'
    &&& two_digit_value(s[k + 3], s[k + 4]) matches Some(day) && 1 <= day <= 31
    &&& s[k + 5] == ' '
    &&& two_digit_value(s[k + 6], s[k + 7]) matches Some(hour) && hour <= 23
    &&& s[k + 8] == ':'
    &&& two_digit_value(s[k + 9], s[k + 10]) matches Some(minute) && minute <= 59
    &&& s[k + 11] == ':'
    &&& two_digit_value(s[k + 12], s[k + 13]) matches Some(second) && second <= 60
}

/// The current time written as `%Y-%m-%d %H:%M:%S`.
///
/// Trusted: calls `chrono::Utc::now().format(..).to_string()`. Which time is
/// written depends on the clock; what holds of every reading is the layout:
/// chrono writes the year with at least four characters and the month, day,
/// hour, minute and second each as two zero-padded digits of a real date
/// and time (format/formatting.rs, `write_year` and `write_two`).
#[verifier::external_body]
pub(crate) fn now_formatted() -> (s: String)
    ensures
        names_a_calendar_time(s@),
{
    chrono::Utc::now().format("%Y-%m-%d %H:%M:%S").to_string()
}

/// A fresh random identifier in its hyphenated text form.
///
/// Trusted: calls `uuid::Uuid::new_v4().to_string()`. The value is random;
/// what holds of every outcome is that the hyphenated form has 36 characters.
#[verifier::external_body]
pub(crate) fn new_uuid() -> (s: String)
    ensures
        s@.len() == 36,
{
    uuid::Uuid::new_v4().to_string()
}

} // verus!
