//! Wall-clock time and calendar text, from chrono.

use vstd::prelude::*;
use chrono::{Datelike, Timelike};
use std::fmt::Write;

verus! {

/// A local date and time of day, to the minute.
#[derive(Clone, Copy, Debug, PartialEq, Eq, Structural)]
pub struct LocalTime {
    pub year: i32,
    pub month: u32,
    pub day: u32,
    pub hour: u32,
    pub minute: u32,
}

impl LocalTime {
    /// The fields lie in their calendar and clock ranges.
    pub open spec fn wf(&self) -> bool {
        &&& 1 <= self.month <= 12
        &&& 1 <= self.day <= 31
        &&& self.hour < 24
        &&& self.minute < 60
    }
}

/// The offset of the panels' local time from UTC, in seconds.
pub const LOCAL_OFFSET_SECONDS: i32 = 7200;

/// Relies on chrono's `Utc::now`, `FixedOffset::east_opt` and
/// `DateTime::with_timezone`: the current time at the given offset from UTC,
/// read through `Datelike` and `Timelike`, whose ranges it states.
#[verifier::external_body]
pub(crate) fn local_now(offset_seconds: i32) -> (r: LocalTime)
    requires
        -86_400 < offset_seconds < 86_400,
    ensures
        r.wf(),
{
    let offset = chrono::FixedOffset::east_opt(offset_seconds).unwrap();
    let dt = chrono::Utc::now().with_timezone(&offset);
    LocalTime { year: dt.year(), month: dt.month(), day: dt.day(), hour: dt.hour(), minute: dt.minute() }
}

/// What chrono writes for a calendar date under a strftime pattern; `None`
/// when the date does not exist or the pattern is invalid.
pub uninterp spec fn date_text(pattern: Seq<char>, year: i32, month: u32, day: u32) -> Option<Seq<char>>;

/// Relies on chrono's `NaiveDate::from_ymd_opt` and `NaiveDate::format`: the
/// date written under a strftime pattern, `None` for a date that does not
/// exist or a pattern that chrono rejects while writing.
#[verifier::external_body]
pub(crate) fn format_date(pattern: &str, year: i32, month: u32, day: u32) -> (r: Option<String>)
    ensures
        r matches Some(s) ==> date_text(pattern@, year, month, day) == Some(s@),
        r is None ==> date_text(pattern@, year, month, day) is None,
{
    let date = chrono::NaiveDate::from_ymd_opt(year, month, day)?;
    let mut out = String::new();
    write!(out, "{}", date.format(pattern)).ok()?;
    Some(out)
}

/// The day of the week, counted from Monday as 0, of an RFC 3339 date-time
/// as chrono reads it; `None` when chrono does not accept the text.
pub uninterp spec fn rfc3339_weekday(s: Seq<char>) -> Option<u8>;

/// Relies on chrono's `DateTime::parse_from_rfc3339` and
/// `Weekday::num_days_from_monday`, which counts 0 to 6 from Monday.
#[verifier::external_body]
pub(crate) fn weekday_of_rfc3339(s: &str) -> (r: Option<u8>)
    ensures
        r == rfc3339_weekday(s@),
        r matches Some(d) ==> d < 7,
{
    chrono::DateTime::parse_from_rfc3339(s).ok().map(|d| d.weekday().num_days_from_monday() as u8)
}

/// The short English name of a weekday counted from Monday as 0, as chrono
/// displays a `Weekday`.
pub open spec fn weekday_name(d: u8) -> Seq<char> {
    if d == 0 {
        "Mon"@
    } else if d == 1 {
        "Tue"@
    } else if d == 2 {
        "Wed"@
    } else if d == 3 {
        "Thu"@
    } else if d == 4 {
        "Fri"@
    } else if d == 5 {
        "Sat"@
    } else {
        "Sun"@
    }
}

/// The short English name of a weekday counted from Monday as 0.
pub fn weekday_name_exec(d: u8) -> (r: &'static str)
    ensures
        r@ == weekday_name(d),
{
    match d {
        0 => "Mon",
        1 => "Tue",
        2 => "Wed",
        3 => "Thu",
        4 => "Fri",
        5 => "Sat",
        _ => "Sun",
    }
}

} // verus!
