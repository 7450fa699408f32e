//! The wall clock, as the prompt's build timestamp reads it.
use vstd::prelude::*;

verus! {

/// `c` is a decimal digit.
pub open spec fn is_digit(c: char) -> bool {
    '0' <= c && c <= '9'
}

/// The value of the decimal digit `c`.
pub open spec fn digit_value(c: char) -> int {
    (c as int) - ('0' as int)
}

/// `s[i]` and `s[i + 1]` are two decimal digits whose value lies in `lo..=hi`.
pub open spec fn two_digits_in(s: Seq<char>, i: int, lo: int, hi: int) -> bool {
    &&& 0 <= i
    &&& i + 1 < s.len()
    &&& is_digit(s[i])
    &&& is_digit(s[i + 1])
    &&& lo <= digit_value(s[i]) * 10 + digit_value(s[i + 1]) <= hi
}

/// All characters of `s` from position `i` on are decimal digits.
pub open spec fn digits_from(s: Seq<char>, i: int) -> bool {
    forall|k: int| i <= k < s.len() ==> is_digit(#[trigger] s[k])
}

/// An RFC 3339 full date `YYYY-MM-DD`, the year written with four digits,
/// or with a sign and at least four digits outside the years 0 to 9999.
pub open spec fn is_full_date(d: Seq<char>) -> bool {
    let n = d.len();
    let year = d.subrange(0, n - 6);
    &&& n >= 10
    &&& d[n - 6] == '-'
    &&& d[n - 3] == '-'
    &&& two_digits_in(d, n - 5, 1, 12)
    &&& two_digits_in(d, n - 2, 1, 31)
    &&& (year.len() == 4 && digits_from(year, 0)) || (year.len() >= 5 && (year[0] == '+'
        || year[0] == '-') && digits_from(year, 1))
}

/// An RFC 3339 partial time `HH:MM:SS`, with a fraction of three, six or
/// nine digits when the time is not a whole second; the second may be 60
/// in a leap second.
pub open spec fn is_partial_time(t: Seq<char>) -> bool {
    &&& t.len() >= 8
    &&& two_digits_in(t, 0, 0, 23)
    &&& t[2] == ':'
    &&& two_digits_in(t, 3, 0, 59)
    &&& t[5] == ':'
    &&& two_digits_in(t, 6, 0, 60)
    &&& (t.len() == 8 || (t[8] == '.' && (t.len() == 12 || t.len() == 15 || t.len() == 18)
        && digits_from(t, 9)))
}

/// An RFC 3339 date and time in UTC, written with the offset `+00:00`.
pub open spec fn is_rfc3339_utc(s: Seq<char>) -> bool {
    &&& s.len() >= 6
    &&& s.subrange(s.len() - 6, s.len() as int) == "+00:00"@
    &&& exists|i: int|
        0 <= i < s.len() - 6 && #[trigger] s[i] == 'T' && is_full_date(s.subrange(0, i))
            && is_partial_time(s.subrange(i + 1, s.len() - 6))
}

/// The current time in UTC as an RFC 3339 string: the system clock read by
/// `std::time::SystemTime::now`, turned into a `chrono::DateTime<Utc>` by its
/// `From<SystemTime>` impl, then written by `to_rfc3339`.
///
/// That `From` impl also takes clock readings before the Unix epoch. chrono
/// writes the date with two-digit month and day, the time with two-digit
/// hour, minute and second and an optional fraction of 3, 6 or 9 digits,
/// and the UTC offset as `+00:00`. Which instant the string gives depends
/// on the clock and is left unsaid.
#[verifier::external_body]
pub(crate) fn utc_now_rfc3339() -> (r: String)
    ensures
        is_rfc3339_utc(r@),
{
    chrono::DateTime::<chrono::Utc>::from(std::time::SystemTime::now()).to_rfc3339()
}

} // verus!
