//! The local clock, read through `chrono`.
use vstd::prelude::*;
use chrono::Datelike;

verus! {

/// An ASCII decimal digit.
pub open spec fn is_digit(c: char) -> bool {
    '0' <= c && c <= '9'
}

/// The number written by the two digits `a` and `b`.
pub open spec fn two_digit_value(a: char, b: char) -> int {
    (a as int - '0' as int) * 10 + (b as int - '0' as int)
}

/// A year as chrono writes it with `%Y`: at least four digits, with a
/// leading sign for years outside 0 to 9999.
pub open spec fn is_year_text(y: Seq<char>) -> bool {
    let digits = if y.len() > 0 && (y[0] == '+' || y[0] == '-') { y.drop_first() } else { y };
    &&& digits.len() >= 4
    &&& forall|i: int| 0 <= i < digits.len() ==> is_digit(#[trigger] digits[i])
}

/// A date as chrono writes it with `%Y-%m-%d`: the year, then the month
/// (01 to 12) and the day (01 to 31) with two digits each, separated by `-`.
pub open spec fn is_date_text(s: Seq<char>) -> bool {
    let n = s.len() as int;
    &&& n >= 10
    &&& is_year_text(s.subrange(0, n - 6))
    &&& s[n - 6] == '-'
    &&& is_digit(s[n - 5]) && is_digit(s[n - 4])
    &&& 1 <= two_digit_value(s[n - 5], s[n - 4]) <= 12
    &&& s[n - 3] == '-'
    &&& is_digit(s[n - 2]) && is_digit(s[n - 1])
    &&& 1 <= two_digit_value(s[n - 2], s[n - 1]) <= 31
}

/// A time of day as chrono writes it with `%H:%M:%S`: hour (00 to 23),
/// minute (00 to 59) and second (00 to 60, for a leap second), two digits
/// each, separated by `:`.
pub open spec fn is_time_text(t: Seq<char>) -> bool {
    &&& t.len() == 8
    &&& is_digit(t[0]) && is_digit(t[1]) && two_digit_value(t[0], t[1]) <= 23
    &&& t[2] == ':'
    &&& is_digit(t[3]) && is_digit(t[4]) && two_digit_value(t[3], t[4]) <= 59
    &&& t[5] == ':'
    &&& is_digit(t[6]) && is_digit(t[7]) && two_digit_value(t[6], t[7]) <= 60
}

/// A date and time as chrono writes them with `%Y-%m-%d %H:%M:%S`.
pub open spec fn is_timestamp_text(s: Seq<char>) -> bool {
    let n = s.len() as int;
    &&& n >= 19
    &&& is_date_text(s.subrange(0, n - 9))
    &&& s[n - 9] == ' '
    &&& is_time_text(s.subrange(n - 8, n))
}

/// `chrono::Local::now` formatted with `%Y-%m-%d`: today's local date.
/// Which date it is depends on the clock; of the text, chrono documents the
/// layout stated by `is_date_text` (`%Y` zero-padded to four digits, signed
/// outside 0 to 9999; `%m` 01 to 12 and `%d` 01 to 31, two digits each).
#[verifier::external_body]
pub(crate) fn local_date() -> (r: String)
    ensures
        is_date_text(r@),
{
    chrono::Local::now().format("%Y-%m-%d").to_string()
}

/// `chrono::Local::now` formatted with `%Y-%m-%d %H:%M:%S`: the current
/// local date and time. Which moment it is depends on the clock; of the
/// text, chrono documents the layout stated by `is_timestamp_text` (`%H`
/// 00 to 23, `%M` 00 to 59, `%S` 00 to 60, two digits each).
#[verifier::external_body]
pub(crate) fn local_timestamp() -> (r: String)
    ensures
        is_timestamp_text(r@),
{
    chrono::Local::now().format("%Y-%m-%d %H:%M:%S").to_string()
}

/// `Datelike::year` and `Datelike::month` of one `chrono::Local::now`
/// reading. Of the month, chrono documents that it ranges from 1 to 12;
/// nothing is claimed of the year.
#[verifier::external_body]
pub(crate) fn local_year_month() -> (r: (i32, u32))
    ensures
        1 <= r.1 <= 12,
{
    let now = chrono::Local::now();
    (now.year(), now.month())
}

} // verus!
