//! Calendar dates, as chrono writes them.

use vstd::prelude::*;

use crate::text::{same, text_of};

verus! {

/// One reading of the wall clock, taken by the caller.
#[derive(Clone, Copy, Debug, PartialEq, Eq, Structural)]
pub struct Clock {
    /// Seconds since 1970-01-01 00:00:00 UTC.
    pub utc: i64,
    /// Seconds by which local time is ahead of UTC.
    pub offset: i32,
}

/// The pattern of a scope date: year, month, day.
pub open spec fn iso_pattern() -> Seq<char> {
    "%Y-%m-%d"@
}

/// The pattern of a front matter date: day, month, year.
pub open spec fn day_first_pattern() -> Seq<char> {
    "%d-%m-%Y"@
}

/// What chrono writes for the moment `secs` seconds after the epoch, in
/// UTC, under a strftime pattern; `None` where chrono has no date for it.
pub uninterp spec fn formatted(secs: i64, pattern: Seq<char>) -> Option<Seq<char>>;

/// The date of the local calendar at a clock reading: the date that UTC
/// shows `offset` seconds later.
pub open spec fn local_date(clock: Clock, pattern: Seq<char>) -> Option<Seq<char>> {
    let secs = clock.utc + clock.offset;
    if i64::MIN <= secs <= i64::MAX {
        formatted(secs as i64, pattern)
    } else {
        None
    }
}

/// Whether a count of seconds since the epoch lies in the years 0000 to
/// 9999 of the UTC calendar: from 0000-01-01 00:00:00 to 9999-12-31
/// 23:59:59.
pub open spec fn in_common_years(secs: int) -> bool {
    -62_167_219_200 <= secs <= 253_402_300_799
}

/// Whether the local wall clock of a reading stands in the years 0000 to
/// 9999.
pub open spec fn shows_common_year(clock: Clock) -> bool {
    in_common_years(clock.utc + clock.offset)
}

/// Trusted: `chrono::DateTime::from_timestamp` followed by
/// `DateTime::format`. The result is claimed to depend on the seconds and
/// the pattern alone, and to be there for every moment of the years 0000
/// to 9999: `from_timestamp` refuses only a day whose year lies outside
/// chrono's calendar, which reaches from the year -262143 to the year
/// 262142. Only the two patterns of this module are let in, both of
/// which chrono's formatter accepts.
#[verifier::external_body]
fn format_date(secs: i64, pattern: &str) -> (text: Option<String>)
    requires
        pattern@ == iso_pattern() || pattern@ == day_first_pattern(),
    ensures
        text_of(text) == formatted(secs, pattern@),
        in_common_years(secs as int) ==> text is Some,
{
    match chrono::DateTime::from_timestamp(secs, 0) {
        Some(moment) => Some(moment.format(pattern).to_string()),
        None => None,
    }
}

/// The UTC date of a moment, as `YYYY-MM-DD`.
pub fn iso_date(secs: i64) -> (date: Option<String>)
    ensures
        text_of(date) == formatted(secs, iso_pattern()),
        in_common_years(secs as int) ==> date is Some,
{
    format_date(secs, "%Y-%m-%d")
}

/// Whether a moment falls on the given UTC date, written `YYYY-MM-DD`.
pub fn falls_on(secs: i64, date: &str) -> (yes: bool)
    ensures
        yes == (formatted(secs, iso_pattern()) == Some(date@)),
{
    match iso_date(secs) {
        Some(written) => same(written.as_str(), date),
        None => false,
    }
}

/// Seconds since the epoch on the local wall clock, where they fit.
fn local_secs(clock: &Clock) -> (secs: Option<i64>)
    ensures
        match secs {
            Some(s) => s == clock.utc + clock.offset,
            None => !(i64::MIN <= clock.utc + clock.offset <= i64::MAX),
        },
{
    clock.utc.checked_add(clock.offset as i64)
}

/// The local date at a clock reading, as `YYYY-MM-DD`: the name of the
/// dated scope.
pub fn today(clock: &Clock) -> (date: Option<String>)
    ensures
        text_of(date) == local_date(*clock, iso_pattern()),
        shows_common_year(*clock) ==> date is Some,
{
    match local_secs(clock) {
        Some(secs) => format_date(secs, "%Y-%m-%d"),
        None => None,
    }
}

/// The local date at a clock reading, as `DD-MM-YYYY`: the date of the
/// front matter.
pub fn day_first(clock: &Clock) -> (date: Option<String>)
    ensures
        text_of(date) == local_date(*clock, day_first_pattern()),
        shows_common_year(*clock) ==> date is Some,
{
    match local_secs(clock) {
        Some(secs) => format_date(secs, "%d-%m-%Y"),
        None => None,
    }
}

} // verus!
