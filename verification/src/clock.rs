//! The local wall clock, as text.

use vstd::prelude::*;

verus! {

/// The pattern of a time of day, hours to seconds.
pub open spec fn time_of_day_pattern() -> Seq<char> {
    "%H:%M:%S"@
}

/// The pattern of a date and time of day.
pub open spec fn date_time_pattern() -> Seq<char> {
    "%Y-%m-%d %H:%M:%S"@
}

/// A decimal digit.
pub open spec fn is_digit(c: char) -> bool {
    '0' <= c && c <= '9'
}

/// The value of a decimal digit.
pub open spec fn digit_value(c: char) -> int {
    (c as int) - ('0' as int)
}

/// Two decimal digits at `i` and `i + 1` of `s`, read as a number from
/// `lo` to `hi`.
pub open spec fn two_digits_within(s: Seq<char>, i: int, lo: int, hi: int) -> bool {
    &&& 0 <= i && i + 1 < s.len()
    &&& is_digit(s[i])
    &&& is_digit(s[i + 1])
    &&& lo <= 10 * digit_value(s[i]) + digit_value(s[i + 1]) <= hi
}

/// "HH:MM:SS": hours 00 to 23, minutes 00 to 59, seconds 00 to 60 (60 for
/// a leap second).
pub open spec fn is_time_of_day_text(s: Seq<char>) -> bool {
    &&& s.len() == 8
    &&& two_digits_within(s, 0, 0, 23)
    &&& s[2] == ':'
    &&& two_digits_within(s, 3, 0, 59)
    &&& s[5] == ':'
    &&& two_digits_within(s, 6, 0, 60)
}

/// A year: four digits (years 0 to 9999), or a sign followed by at least
/// four digits (years outside that range).
pub open spec fn is_year_text(y: Seq<char>) -> bool {
    ||| y.len() == 4 && forall|i: int| 0 <= i < 4 ==> is_digit(#[trigger] y[i])
    ||| y.len() >= 5 && (y[0] == '+' || y[0] == '-') && forall|i: int|
        1 <= i < y.len() ==> is_digit(#[trigger] y[i])
}

/// "YYYY-MM-DD HH:MM:SS": a year, then month 01 to 12, day 01 to 31 and a
/// time of day.
pub open spec fn is_date_time_text(s: Seq<char>) -> bool {
    let n = s.len() as int;
    &&& n >= 19
    &&& is_year_text(s.subrange(0, n - 15))
    &&& s[n - 15] == '-'
    &&& two_digits_within(s, n - 14, 1, 12)
    &&& s[n - 12] == '-'
    &&& two_digits_within(s, n - 11, 1, 31)
    &&& s[n - 9] == ' '
    &&& is_time_of_day_text(s.subrange(n - 8, n))
}

/// `chrono::Local::now()` formatted with `pattern` through chrono's
/// `format(..).to_string()`: the local time now, as text. Only the two
/// patterns above, which chrono formats without error, are accepted. chrono
/// writes hours, minutes, seconds, months and days as two zero-padded
/// digits and a year as four zero-padded digits, with a sign before it when
/// it lies outside 0 to 9999; that shape is stated. Which time is written
/// depends on the clock and is left unsaid.
#[verifier::external_body]
fn local_time_text(pattern: &str) -> (r: String)
    requires
        pattern@ == time_of_day_pattern() || pattern@ == date_time_pattern(),
    ensures
        pattern@ == time_of_day_pattern() ==> is_time_of_day_text(r@),
        pattern@ == date_time_pattern() ==> is_date_time_text(r@),
{
    chrono::Local::now().format(pattern).to_string()
}

/// The local time of day, "HH:MM:SS".
pub fn time_of_day() -> (r: String)
    ensures
        is_time_of_day_text(r@),
{
    let p = "%H:%M:%S";
    local_time_text(p)
}

/// The local date and time, "YYYY-MM-DD HH:MM:SS".
pub fn date_time() -> (r: String)
    ensures
        is_date_time_text(r@),
{
    let p = "%Y-%m-%d %H:%M:%S";
    local_time_text(p)
}

} // verus!
