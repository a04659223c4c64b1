//! The local time as text.

use vstd::prelude::*;
use vstd::string::*;

verus! {

/// A decimal digit.
pub open spec fn digit(c: char) -> bool {
    '0' <= c <= '9'
}

/// Decimal digits, and nothing else.
pub open spec fn digits(s: Seq<char>) -> bool {
    forall|i: int| 0 <= i < s.len() ==> digit(#[trigger] s[i])
}

/// The two characters of `s` from `at` on are the decimal digits of a number
/// from `low` to `high`.
pub open spec fn number_at(s: Seq<char>, at: int, low: int, high: int) -> bool {
    &&& digit(s[at])
    &&& digit(s[at + 1])
    &&& low <= (s[at] as int - '0' as int) * 10 + (s[at + 1] as int - '0' as int) <= high
}

/// A year: four digits from the year 0 to the year 9999, and else a sign and
/// four digits or more.
pub open spec fn year_form(s: Seq<char>) -> bool {
    ||| s.len() == 4 && digits(s)
    ||| s.len() >= 5 && (s[0] == '+' || s[0] == '-') && digits(s.skip(1))
}

/// What follows the year: month and day, and after a `T` hour, minute and
/// second with `between` between them. In a leap second, the second is 60.
pub open spec fn day_and_time_form(s: Seq<char>, between: char) -> bool {
    &&& s.len() == 15
    &&& s[0] == '-'
    &&& number_at(s, 1, 1, 12)
    &&& s[3] == '-'
    &&& number_at(s, 4, 1, 31)
    &&& s[6] == 'T'
    &&& number_at(s, 7, 0, 23)
    &&& s[9] == between
    &&& number_at(s, 10, 0, 59)
    &&& s[12] == between
    &&& number_at(s, 13, 0, 60)
}

/// A fraction of a second: none, or thousandths, millionths or billionths.
pub open spec fn fraction_form(s: Seq<char>) -> bool {
    ||| s.len() == 0
    ||| (s.len() == 4 || s.len() == 7 || s.len() == 10) && s[0] == '.' && digits(s.skip(1))
}

/// How far the local time is ahead of or behind that of Greenwich, in hours and
/// minutes.
pub open spec fn offset_form(s: Seq<char>) -> bool {
    &&& s.len() == 6
    &&& s[0] == '+' || s[0] == '-'
    &&& number_at(s, 1, 0, 24)
    &&& s[3] == ':'
    &&& number_at(s, 4, 0, 59)
}

/// `s` is a time in RFC 3339 whose year takes `year` characters and whose
/// fraction of a second takes `fraction`.
pub open spec fn rfc3339_parts(s: Seq<char>, year: int, fraction: int) -> bool {
    &&& 0 <= year
    &&& 0 <= fraction
    &&& s.len() == year + 15 + fraction + 6
    &&& year_form(s.take(year))
    &&& day_and_time_form(s.subrange(year, year + 15), ':')
    &&& fraction_form(s.subrange(year + 15, year + 15 + fraction))
    &&& offset_form(s.skip(year + 15 + fraction))
}

/// `s` is a time in RFC 3339, such as `1996-12-19T16:39:57-08:00`.
pub open spec fn rfc3339_form(s: Seq<char>) -> bool {
    exists|year: int, fraction: int| #[trigger] rfc3339_parts(s, year, fraction)
}

/// `s` is a time as it stands in the name of a file, such as
/// `1996-12-19T16-39-57`.
pub open spec fn file_stamp_form(s: Seq<char>) -> bool {
    &&& s.len() >= 19
    &&& year_form(s.take(s.len() - 15))
    &&& day_and_time_form(s.skip(s.len() - 15), '-')
}

/// `chrono::Local::now` and `DateTime::to_rfc3339`: a time in RFC 3339, with an
/// offset in hours and minutes. Which time it is depends on the clock and the
/// time zone of the machine, and is not stated.
#[verifier::external_body]
pub(crate) fn local_timestamp() -> (res: String)
    ensures
        rfc3339_form(res@),
{
    chrono::Local::now().to_rfc3339()
}

/// `chrono::Local::now` and `DateTime::format` with year, month, day, hour,
/// minute and second: a time with the year in four digits or more and the other
/// numbers in two. Which time it is depends on the clock and the time zone of
/// the machine, and is not stated.
#[verifier::external_body]
pub(crate) fn local_file_stamp() -> (res: String)
    ensures
        file_stamp_form(res@),
{
    chrono::Local::now().format("%Y-%m-%dT%H-%M-%S").to_string()
}

} // verus!
