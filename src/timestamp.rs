//! The Timestamp Resolver: a station's posted date and time, read as a UTC
//! wall-clock value, with the pipeline's start time as the fallback.
use vstd::prelude::*;
use vstd::string::StringExecFns;

verus! {

/// The format that posted date/time pairs are written in.
pub const STAMP_FORMAT: &'static str = "%m/%d/%Y %I:%M %p";

pub open spec fn is_digit(c: char) -> bool {
    '0' <= c && c <= '9'
}

pub open spec fn digit_value(c: char) -> int {
    c as int - '0' as int
}

/// The two-digit number at positions `i` and `i + 1`.
pub open spec fn two_digits(s: Seq<char>, i: int) -> int {
    10 * digit_value(s[i]) + digit_value(s[i + 1])
}

pub open spec fn stamp_month(s: Seq<char>) -> int {
    two_digits(s, 0)
}

pub open spec fn stamp_day(s: Seq<char>) -> int {
    two_digits(s, 3)
}

pub open spec fn stamp_year(s: Seq<char>) -> int {
    100 * two_digits(s, 6) + two_digits(s, 8)
}

pub open spec fn stamp_hour12(s: Seq<char>) -> int {
    two_digits(s, 11)
}

pub open spec fn stamp_minute(s: Seq<char>) -> int {
    two_digits(s, 14)
}

pub open spec fn is_leap_year(y: int) -> bool {
    (y % 4 == 0 && y % 100 != 0) || y % 400 == 0
}

pub open spec fn days_in_month(y: int, m: int) -> int {
    if m == 2 {
        if is_leap_year(y) { 29 } else { 28 }
    } else if m == 4 || m == 6 || m == 9 || m == 11 {
        30
    } else {
        31
    }
}

/// `s` is written exactly as "MM/DD/YYYY HH:MM AM" or "... PM", zero-padded,
/// names a real calendar day from 1970 on, and a 12-hour clock time.
pub open spec fn is_stamp(s: Seq<char>) -> bool {
    &&& s.len() == 19
    &&& is_digit(s[0]) && is_digit(s[1]) && s[2] == '/'
    &&& is_digit(s[3]) && is_digit(s[4]) && s[5] == '/'
    &&& is_digit(s[6]) && is_digit(s[7]) && is_digit(s[8]) && is_digit(s[9])
    &&& s[10] == ' '
    &&& is_digit(s[11]) && is_digit(s[12]) && s[13] == ':'
    &&& is_digit(s[14]) && is_digit(s[15]) && s[16] == ' '
    &&& (s[17] == 'A' || s[17] == 'P') && s[18] == 'M'
    &&& 1 <= stamp_month(s) <= 12
    &&& 1 <= stamp_day(s) <= days_in_month(stamp_year(s), stamp_month(s))
    &&& stamp_year(s) >= 1970
    &&& 1 <= stamp_hour12(s) <= 12
    &&& 0 <= stamp_minute(s) <= 59
}

/// Days from 1970-01-01 to the given civil date (proleptic Gregorian).
pub open spec fn days_from_civil(y: int, m: int, d: int) -> int {
    let yy = if m <= 2 { y - 1 } else { y };
    let era = yy / 400;
    let yoe = yy - era * 400;
    let mp = if m > 2 { m - 3 } else { m + 9 };
    let doy = (153 * mp + 2) / 5 + d - 1;
    let doe = yoe * 365 + yoe / 4 - yoe / 100 + doy;
    era * 146097 + doe - 719468
}

/// The 24-hour clock hour of a stamp.
pub open spec fn stamp_hour24(s: Seq<char>) -> int {
    stamp_hour12(s) % 12 + if s[17] == 'P' { 12int } else { 0int }
}

/// Seconds since the Unix epoch of a stamp's wall-clock value read as UTC.
pub open spec fn stamp_epoch(s: Seq<char>) -> int {
    days_from_civil(stamp_year(s), stamp_month(s), stamp_day(s)) * 86400
        + stamp_hour24(s) * 3600 + stamp_minute(s) * 60
}

/// What chrono parses from a text in `STAMP_FORMAT`, as seconds since the
/// epoch of the wall-clock value read as UTC; `None` where it rejects the text.
pub uninterp spec fn parsed_utc(s: Seq<char>) -> Option<i64>;

/// Relies on chrono's `NaiveDateTime::parse_from_str` with `STAMP_FORMAT`,
/// then `and_utc().timestamp()`. Chrono reads two-digit month, day, hour and
/// minute fields, a four-digit year and an AM/PM marker exactly as written.
#[verifier::external_body]
fn parse_stamp(s: &str) -> (r: Option<i64>)
    ensures
        r == parsed_utc(s@),
        is_stamp(s@) ==> r == Some(stamp_epoch(s@) as i64),
{
    chrono::NaiveDateTime::parse_from_str(s, STAMP_FORMAT).ok().map(|dt| dt.and_utc().timestamp())
}

/// The date and time joined by one space.
pub open spec fn joined_stamp(date: Seq<char>, time: Seq<char>) -> Seq<char> {
    date + seq![' '] + time
}

/// The resolved timestamp of a posted date and time: the parsed value, or
/// `now` where the pair does not parse.
pub open spec fn resolved_time(date: Seq<char>, time: Seq<char>, now: u64) -> u64 {
    match parsed_utc(joined_stamp(date, time)) {
        Some(v) => v as u64,
        None => now,
    }
}

/// Resolves a station's posted date and time to seconds since the epoch.
/// A pair that does not parse gives `now`; it never fails.
pub fn resolve_timestamp(date: &str, time: &str, now: u64) -> (r: u64)
    ensures
        r == resolved_time(date@, time@, now),
        is_stamp(joined_stamp(date@, time@)) ==> r as int == stamp_epoch(joined_stamp(date@, time@)),
        parsed_utc(joined_stamp(date@, time@)) is None ==> r == now,
{
    let mut full = String::from_str(date);
    full.append(" ");
    full.append(time);
    proof {
        reveal_strlit(" ");
        assert(full@ =~= joined_stamp(date@, time@));
    }
    match parse_stamp(full.as_str()) {
        Some(v) => v as u64,
        None => now,
    }
}

} // verus!
