//! The wall clock.

use vstd::prelude::*;

verus! {

/// Whether the two characters from index `i` on are digits that write a number from `low` to
/// `high`.
pub open spec fn is_pair(s: Seq<char>, i: int, low: int, high: int) -> bool {
    &&& crate::text::is_digit(s[i])
    &&& crate::text::is_digit(s[i + 1])
    &&& low <= crate::text::decimal(s.subrange(i, i + 2)) <= high
}

/// Whether `s` writes a year: four digits, or a `+` and more than four.
pub open spec fn is_year(s: Seq<char>) -> bool {
    ||| s.len() == 4 && crate::text::all_digits(s)
    ||| s.len() > 5 && s[0] == '+' && crate::text::all_digits(s.skip(1))
}

/// Whether `s` writes a month, a day and a time of day behind a year, as in `-12-31T23:59:59`.
pub open spec fn is_time_of_year(s: Seq<char>) -> bool {
    &&& s.len() == 15
    &&& s[0] == '-' && is_pair(s, 1, 1, 12)
    &&& s[3] == '-' && is_pair(s, 4, 1, 31)
    &&& s[6] == 'T' && is_pair(s, 7, 0, 23)
    &&& s[9] == ':' && is_pair(s, 10, 0, 59)
    &&& s[12] == ':' && is_pair(s, 13, 0, 59)
}

/// Whether `s` writes a fraction of a second: nothing, or a `.` and 3, 6 or 9 digits.
pub open spec fn is_fraction(s: Seq<char>) -> bool {
    ||| s.len() == 0
    ||| (s.len() == 4 || s.len() == 7 || s.len() == 10) && s[0] == '.' && crate::text::all_digits(
        s.skip(1),
    )
}

/// A time stamp made of its parts, with the offset of UTC.
pub open spec fn stamp_of(
    year: Seq<char>,
    time_of_year: Seq<char>,
    fraction: Seq<char>,
) -> Seq<char> {
    year + time_of_year + fraction + "+00:00"@
}

/// Whether `s` is a time stamp in UTC in the form of RFC 3339, such as
/// `1996-12-19T16:39:57.250+00:00`.
pub open spec fn is_utc_stamp(s: Seq<char>) -> bool {
    exists|year: Seq<char>, time_of_year: Seq<char>, fraction: Seq<char>|
        {
            &&& s == #[trigger] stamp_of(year, time_of_year, fraction)
            &&& is_year(year)
            &&& is_time_of_year(time_of_year)
            &&& is_fraction(fraction)
        }
}

/// Calls `chrono::Utc::now` and `chrono::DateTime::to_rfc3339`.
///
/// Trusted: the text is a time stamp in UTC: a year, a month, a day, a time of day, a fraction of
/// a second where there is one, and the offset `+00:00`. Nothing is said of which time it is. The
/// call panics where the system clock stands before 1970.
#[verifier::external_body]
pub(crate) fn now_rfc3339() -> (r: String)
    ensures
        is_utc_stamp(r@),
{
    chrono::Utc::now().to_rfc3339()
}

} // verus!
