//! Local calendar days, as the machine's time zone defines them.

use vstd::prelude::*;
use chrono::{Datelike, Local, MappedLocalTime, TimeZone};

verus! {

/// A date of the local calendar.
pub struct CalendarDate {
    /// Year number.
    pub year: i32,
    /// Month, from 1.
    pub month: u32,
    /// Day of month, from 1.
    pub day: u32,
}

/// The ranges that chrono documents for a date's month and day.
pub open spec fn documented_fields(date: CalendarDate) -> bool {
    1 <= date.month <= 12 && 1 <= date.day <= 31
}

/// chrono represents instants from year -262,143 to year 262,142
/// (`DateTime::MIN_UTC` to `DateTime::MAX_UTC`), so every UNIX time it gives
/// lies within 10^13 seconds of the epoch.
pub open spec fn within_chrono_range(t: i64) -> bool {
    -10_000_000_000_000 <= t <= 10_000_000_000_000
}

/// Days from 1970-01-01 to `date` in the proleptic Gregorian calendar.
pub open spec fn civil_day_number(date: CalendarDate) -> int {
    let y: int = if date.month <= 2 { date.year - 1 } else { date.year as int };
    let era = y / 400;
    let year_of_era = y - era * 400;
    let shifted_month: int = if date.month > 2 { date.month - 3 } else { date.month + 9 };
    let day_of_year = (153 * shifted_month + 2) / 5 + date.day - 1;
    let day_of_era = year_of_era * 365 + year_of_era / 4 - year_of_era / 100 + day_of_year;
    era * 146097 + day_of_era - 719468
}

/// `date` is the calendar date that the instant `t` (UNIX seconds) has under
/// some UTC offset of less than a day either way.
pub open spec fn date_of_instant_near(date: CalendarDate, t: int) -> bool {
    t - 2 * 86400 < civil_day_number(date) * 86400 < t + 86400
}

/// `t` (UNIX seconds) is midnight of `date` under some UTC offset of less than
/// a day either way.
pub open spec fn midnight_of_date_near(date: CalendarDate, t: int) -> bool {
    civil_day_number(date) * 86400 - 86400 < t < civil_day_number(date) * 86400 + 86400
}

/// UNIX times that chrono turns into a local date for certain: within
/// 8 * 10^12 seconds of the epoch, well inside its range.
pub open spec fn resolvable_timestamp(t: i64) -> bool {
    -8_000_000_000_000 <= t <= 8_000_000_000_000
}

/// What a UTC instant is in local time: no date (out of range), one date, or two.
pub enum LocalDates {
    /// Out of the representable range.
    Missing,
    /// One local date.
    Single(CalendarDate),
    /// Two local dates, in the order chrono lists them.
    Ambiguous(CalendarDate, CalendarDate),
}

/// What a local wall-clock time is as UNIX seconds: none (a gap or an invalid
/// date), one instant, or two (a fold), in the order chrono lists them.
pub enum LocalInstants {
    /// No such local time.
    Missing,
    /// One instant.
    Single(i64),
    /// Two instants, in the order chrono lists them.
    Ambiguous(i64, i64),
}

/// The current local time.
pub struct LocalNow {
    /// Today's local date.
    pub date: CalendarDate,
    /// The current time in UNIX seconds.
    pub timestamp: i64,
}

/// chrono's `TimeZone::timestamp_opt` on `Local`, with nanoseconds 0, each date
/// taken as its year, month and day. Claimed, as chrono documents: the result
/// is never ambiguous, and it is a single date for every timestamp in range
/// (`DateTime::from_timestamp` fails only out of range); the date has a month in
/// 1..=12 and a day in 1..=31, and is the calendar date of the instant under the
/// local offset, which `FixedOffset` keeps under a day either way. Which offset
/// applies depends on the machine's time zone and is not stated.
#[verifier::external_body]
fn local_dates_at(timestamp: i64) -> (dates: LocalDates)
    ensures
        !(dates is Ambiguous),
        resolvable_timestamp(timestamp) ==> dates is Single,
        dates matches LocalDates::Single(d) ==> documented_fields(d) && date_of_instant_near(
            d,
            timestamp as int,
        ),
{
    match Local.timestamp_opt(timestamp, 0) {
        MappedLocalTime::Single(t) => LocalDates::Single(CalendarDate { year: t.year(), month: t.month(), day: t.day() }),
        MappedLocalTime::Ambiguous(a, b) => LocalDates::Ambiguous(
            CalendarDate { year: a.year(), month: a.month(), day: a.day() },
            CalendarDate { year: b.year(), month: b.month(), day: b.day() },
        ),
        MappedLocalTime::None => LocalDates::Missing,
    }
}

/// chrono's `Local::now`, taken as its date and UNIX seconds. Claimed: the
/// month is in 1..=12, the day in 1..=31, the time lies in chrono's range, and
/// the date is the calendar date of that time under the local offset (under a
/// day either way). The time itself is the clock's.
#[verifier::external_body]
fn local_now() -> (now: LocalNow)
    ensures
        documented_fields(now.date),
        within_chrono_range(now.timestamp),
        date_of_instant_near(now.date, now.timestamp as int),
{
    let t = Local::now();
    LocalNow { date: CalendarDate { year: t.year(), month: t.month(), day: t.day() }, timestamp: t.timestamp() }
}

/// chrono's `TimeZone::with_ymd_and_hms` on `Local` at 00:00:00 of `date`, each
/// result taken as UNIX seconds. Claimed: every instant lies in chrono's range
/// and is midnight of `date` under a local offset, which `FixedOffset` keeps
/// under a day either way. Whether there are none, one or two instants, which,
/// and in which order, depends on the machine's time zone and is not stated.
#[verifier::external_body]
fn local_midnights(date: &CalendarDate) -> (instants: LocalInstants)
    ensures
        instants matches LocalInstants::Ambiguous(a, b) ==> within_chrono_range(a)
            && within_chrono_range(b) && midnight_of_date_near(*date, a as int)
            && midnight_of_date_near(*date, b as int),
        instants matches LocalInstants::Single(t) ==> within_chrono_range(t)
            && midnight_of_date_near(*date, t as int),
{
    match Local.with_ymd_and_hms(date.year, date.month, date.day, 0, 0, 0) {
        MappedLocalTime::Single(t) => LocalInstants::Single(t.timestamp()),
        MappedLocalTime::Ambiguous(a, b) => LocalInstants::Ambiguous(a.timestamp(), b.timestamp()),
        MappedLocalTime::None => LocalInstants::Missing,
    }
}

/// The first instant chrono lists, if any (what `MappedLocalTime::earliest` gives).
pub open spec fn earliest_instant(instants: LocalInstants) -> Option<i64> {
    match instants {
        LocalInstants::Single(t) => Some(t),
        LocalInstants::Ambiguous(a, _) => Some(a),
        LocalInstants::Missing => None,
    }
}

/// The instant, if there is exactly one.
pub open spec fn single_instant(instants: LocalInstants) -> Option<i64> {
    match instants {
        LocalInstants::Single(t) => Some(t),
        _ => None,
    }
}

/// The first instant chrono lists, if any, as `MappedLocalTime::earliest` gives it.
pub fn earliest(instants: LocalInstants) -> (t: Option<i64>)
    ensures
        t == earliest_instant(instants),
{
    match instants {
        LocalInstants::Single(t) => Some(t),
        LocalInstants::Ambiguous(a, _) => Some(a),
        LocalInstants::Missing => None,
    }
}

/// The instant, if there is exactly one.
pub fn single(instants: LocalInstants) -> (t: Option<i64>)
    ensures
        t == single_instant(instants),
{
    match instants {
        LocalInstants::Single(t) => Some(t),
        _ => None,
    }
}

/// The start of the local day of a commit made at `commit_timestamp`, in UNIX
/// seconds: the first local midnight of that day that chrono lists; the current
/// day stands in when the commit time is out of chrono's range. `None` when that
/// day has no local midnight. Which midnight it is depends on the machine's time
/// zone; for a commit time chrono resolves, it lies less than three days before
/// and less than two days after the commit.
pub fn start_of_commit_day(commit_timestamp: i64) -> (start: Option<i64>)
    ensures
        start matches Some(t) ==> within_chrono_range(t),
        start matches Some(t) ==> (resolvable_timestamp(commit_timestamp) ==> commit_timestamp - 3
            * 86400 < t < commit_timestamp + 2 * 86400),
{
    let date = match local_dates_at(commit_timestamp) {
        LocalDates::Single(d) => d,
        LocalDates::Ambiguous(d, _) => d,
        LocalDates::Missing => local_now().date,
    };
    earliest(local_midnights(&date))
}

/// The current time and the start of the current local day, both in UNIX
/// seconds; the start is `None` unless today's local midnight is a single
/// instant, and then lies less than three days before and less than two days
/// after the current time. The values depend on the machine's time zone and
/// clock.
pub fn now_and_start_of_today() -> (times: (i64, Option<i64>))
    ensures
        within_chrono_range(times.0),
        times.1 matches Some(t) ==> within_chrono_range(t),
        times.1 matches Some(t) ==> times.0 - 3 * 86400 < t < times.0 + 2 * 86400,
{
    let now = local_now();
    let start = single(local_midnights(&now.date));
    (now.timestamp, start)
}

/// The current time in UNIX seconds, from the local clock.
pub fn now_timestamp() -> (t: i64)
    ensures
        within_chrono_range(t),
{
    local_now().timestamp
}

} // verus!
