//! Dates, wall-clock readings and time zones.
//!
//! The proleptic Gregorian calendar and the IANA zone database come from
//! `chrono` and `chrono-tz`. A date is carried as its three numbers and a
//! wall-clock reading as a date plus a time of day, so the rules built on them
//! can be stated and checked; turning a reading into an instant in a zone, and
//! back, is the zone database's answer and is named rather than restated.

use vstd::prelude::*;

use chrono::{Datelike, NaiveDate, Offset, TimeDelta, TimeZone, Timelike};
use chrono_tz::Tz;

verus! {

/// Earliest and latest years a date may carry.
pub const MIN_YEAR: i32 = -262143;
pub const MAX_YEAR: i32 = 262142;

/// A day on the proleptic Gregorian calendar.
#[derive(Clone, Copy, PartialEq, Eq, Debug, Structural)]
pub struct CivilDate {
    pub year: i32,
    pub month: u32,
    pub day: u32,
}

/// A reading of a wall clock: a date and a time of day, in no zone.
#[derive(Clone, Copy, PartialEq, Eq, Debug, Structural)]
pub struct LocalDateTime {
    pub date: CivilDate,
    pub hour: u32,
    pub minute: u32,
    pub second: u32,
    pub milli: u32,
}

pub open spec fn is_leap_year(y: int) -> bool {
    (y % 4 == 0 && y % 100 != 0) || y % 400 == 0
}

pub open spec fn days_in_month(y: int, m: int) -> int {
    if m == 2 {
        if is_leap_year(y) {
            29
        } else {
            28
        }
    } else if m == 4 || m == 6 || m == 9 || m == 11 {
        30
    } else {
        31
    }
}

/// The day exists: a real month, a real day of it, and a year in range.
pub open spec fn valid_ymd(year: int, month: int, day: int) -> bool {
    &&& MIN_YEAR <= year <= MAX_YEAR
    &&& 1 <= month <= 12
    &&& 1 <= day <= days_in_month(year, month)
}

pub open spec fn valid_date(d: CivilDate) -> bool {
    valid_ymd(d.year as int, d.month as int, d.day as int)
}

pub open spec fn valid_time(hour: int, minute: int, second: int, milli: int) -> bool {
    0 <= hour < 24 && 0 <= minute < 60 && 0 <= second < 60 && 0 <= milli < 1000
}

pub open spec fn valid_reading(r: LocalDateTime) -> bool {
    valid_date(r.date) && valid_time(r.hour as int, r.minute as int, r.second as int, r.milli as int)
}

/// Whether a year is a leap year.
pub fn is_leap(year: i32) -> (b: bool)
    ensures
        b == is_leap_year(year as int),
{
    (year % 4 == 0 && year % 100 != 0) || year % 400 == 0
}

/// The number of days in a month of a year, for a month from 1 to 12.
pub fn month_length(year: i32, month: u32) -> (n: u32)
    ensures
        n == days_in_month(year as int, month as int),
{
    if month == 2 {
        if is_leap(year) {
            29
        } else {
            28
        }
    } else if month == 4 || month == 6 || month == 9 || month == 11 {
        30
    } else {
        31
    }
}

/// Whether the date exists — what `NaiveDate::from_ymd_opt` answers.
pub fn date_exists(year: i32, month: u32, day: u32) -> (b: bool)
    ensures
        b == valid_ymd(year as int, month as int, day as int),
{
    MIN_YEAR <= year && year <= MAX_YEAR && 1 <= month && month <= 12 && 1 <= day && day
        <= month_length(year, month)
}

// ------------------------------------------------------- day counting --

/// Days from 1970-01-01 to a date of the proleptic Gregorian calendar,
/// counted in 400-year eras of 146097 days from a year that starts in March.
pub open spec fn days_from_civil(d: CivilDate) -> int {
    let y: int = if d.month <= 2 { d.year - 1 } else { d.year as int };
    let era = y / 400;
    let yoe = y - era * 400;
    let mp = (d.month + 9) % 12;
    let doy = (153 * mp + 2) / 5 + d.day - 1;
    let doe = yoe * 365 + yoe / 4 - yoe / 100 + doy;
    era * 146097 + doe - 719468
}

/// Milliseconds from 1970-01-01T00:00 to a reading taken as UTC.
pub open spec fn reading_millis(r: LocalDateTime) -> int {
    days_from_civil(r.date) * 86400000 + r.hour * 3600000 + r.minute * 60000 + r.second * 1000
        + r.milli
}

/// A time of day `NaiveTime::from_hms_milli_opt` accepts: a real one, or the
/// leap second after 59, written as milliseconds past 999.
pub open spec fn chrono_time(hour: int, minute: int, second: int, milli: int) -> bool {
    &&& 0 <= hour < 24
    &&& 0 <= minute < 60
    &&& 0 <= second < 60
    &&& 0 <= milli < 2000
    &&& (milli < 1000 || second == 59)
}

/// A reading `NaiveDate::from_ymd_opt(..).and_hms_milli_opt(..)` accepts.
pub open spec fn chrono_accepts(r: LocalDateTime) -> bool {
    valid_date(r.date) && chrono_time(r.hour as int, r.minute as int, r.second as int, r.milli as int)
}

/// The day count of the calendar's first day.
pub open spec fn first_day() -> int {
    days_from_civil(CivilDate { year: MIN_YEAR, month: 1, day: 1 })
}

/// The day count of the calendar's last day.
pub open spec fn last_day() -> int {
    days_from_civil(CivilDate { year: MAX_YEAR, month: 12, day: 31 })
}

// ------------------------------------------------- zone database, named --

/// Whether `chrono-tz` knows a zone by this IANA name.
pub uninterp spec fn known_zone(name: Seq<char>) -> bool;

/// The wall-clock reading an instant has in a zone, or `None` when the zone
/// is unknown, or the instant or its reading is outside the calendar's range.
pub uninterp spec fn zone_reading(millis: int, zone: Seq<char>) -> Option<LocalDateTime>;

/// The earliest instant at which a zone's clocks show a reading: the only one
/// for an ordinary reading, the first of two when the clocks went back, and
/// `None` when the reading was skipped or the zone is unknown.
pub uninterp spec fn earliest_instant(local: LocalDateTime, zone: Seq<char>) -> Option<i64>;

/// The one instant at which a zone's clocks show a reading: `None` when the
/// reading was skipped, shown twice, or the zone is unknown.
pub uninterp spec fn single_instant(local: LocalDateTime, zone: Seq<char>) -> Option<i64>;

/// A reading moved by a number of minutes, or `None` past the calendar's range.
pub uninterp spec fn reading_plus_minutes(local: LocalDateTime, minutes: int) -> Option<
    LocalDateTime,
>;

/// A date moved by a number of days, or `None` past the calendar's range.
pub uninterp spec fn date_plus_days(date: CivilDate, days: int) -> Option<CivilDate>;

/// The day of the week, counted from Monday as nought.
pub uninterp spec fn weekday_of(date: CivilDate) -> Option<u32>;

/// The instant a reading names when read as UTC.
pub uninterp spec fn utc_instant(local: LocalDateTime) -> Option<i64>;

/// `str::parse::<chrono_tz::Tz>` succeeding.
#[verifier::external_body]
pub(crate) fn zone_is_known(name: &str) -> (b: bool)
    ensures
        b == known_zone(name@),
{
    name.parse::<Tz>().is_ok()
}

/// `DateTime::from_timestamp_millis`, then the zone's offset at that instant
/// (`offset_from_utc_datetime`) added with `NaiveDateTime::checked_add_offset`,
/// which answers `None` where the offset carries the reading past the
/// calendar's range. A reading `chrono` hands back is a real date and time of
/// day.
#[verifier::external_body]
pub(crate) fn reading_in_zone(millis: i64, zone: &str) -> (r: Option<LocalDateTime>)
    ensures
        r == zone_reading(millis as int, zone@),
        r matches Some(reading) ==> valid_reading(reading),
{
    let tz: Tz = zone.parse().ok()?;
    let utc = chrono::DateTime::from_timestamp_millis(millis)?.naive_utc();
    let local = utc.checked_add_offset(tz.offset_from_utc_datetime(&utc).fix())?;
    Some(LocalDateTime {
        date: CivilDate { year: local.year(), month: local.month(), day: local.day() },
        hour: local.hour(),
        minute: local.minute(),
        second: local.second(),
        milli: local.and_utc().timestamp_subsec_millis(),
    })
}

/// `TimeZone::from_local_datetime(..).earliest()`, as milliseconds since the epoch.
#[verifier::external_body]
pub(crate) fn earliest_instant_at(local: LocalDateTime, zone: &str) -> (r: Option<i64>)
    ensures
        r == earliest_instant(local, zone@),
{
    let tz: Tz = zone.parse().ok()?;
    let naive = NaiveDate::from_ymd_opt(local.date.year, local.date.month, local.date.day)?
        .and_hms_milli_opt(local.hour, local.minute, local.second, local.milli)?;
    Some(tz.from_local_datetime(&naive).earliest()?.timestamp_millis())
}

/// `TimeZone::from_local_datetime(..).single()`, as milliseconds since the epoch.
#[verifier::external_body]
pub(crate) fn single_instant_at(local: LocalDateTime, zone: &str) -> (r: Option<i64>)
    ensures
        r == single_instant(local, zone@),
{
    let tz: Tz = zone.parse().ok()?;
    let naive = NaiveDate::from_ymd_opt(local.date.year, local.date.month, local.date.day)?
        .and_hms_milli_opt(local.hour, local.minute, local.second, local.milli)?;
    Some(tz.from_local_datetime(&naive).single()?.timestamp_millis())
}

/// `NaiveDateTime::checked_add_signed` by whole minutes. For a real reading it
/// answers a real reading exactly when the moved instant, counted in
/// milliseconds as UTC, stays within the calendar's first and last day, and
/// then the count has moved by exactly those minutes.
#[verifier::external_body]
pub(crate) fn add_minutes(local: LocalDateTime, minutes: i64) -> (r: Option<LocalDateTime>)
    ensures
        r == reading_plus_minutes(local, minutes as int),
        valid_reading(local) ==> (r matches Some(moved) ==> valid_reading(moved)),
        valid_reading(local) ==> (r is Some <==> first_day() * 86400000 <= reading_millis(local)
            + minutes * 60000 < (last_day() + 1) * 86400000),
        valid_reading(local) ==> (r matches Some(moved) ==> reading_millis(moved)
            == reading_millis(local) + minutes * 60000),
{
    let naive = NaiveDate::from_ymd_opt(local.date.year, local.date.month, local.date.day)?
        .and_hms_milli_opt(local.hour, local.minute, local.second, local.milli)?;
    let moved = naive.checked_add_signed(TimeDelta::try_minutes(minutes)?)?;
    Some(LocalDateTime {
        date: CivilDate { year: moved.year(), month: moved.month(), day: moved.day() },
        hour: moved.hour(),
        minute: moved.minute(),
        second: moved.second(),
        milli: moved.and_utc().timestamp_subsec_millis(),
    })
}

/// `NaiveDate::checked_add_signed` by whole days. Only a real day is moved;
/// it answers a real day exactly when the day count stays within the
/// calendar's range, and then the count has moved by exactly `days`.
#[verifier::external_body]
pub(crate) fn add_days(date: CivilDate, days: i64) -> (r: Option<CivilDate>)
    ensures
        r == date_plus_days(date, days as int),
        r matches Some(moved) ==> valid_date(moved),
        !valid_date(date) ==> r is None,
        valid_date(date) ==> (r is Some <==> first_day() <= days_from_civil(date) + days
            <= last_day()),
        r matches Some(moved) ==> days_from_civil(moved) == days_from_civil(date) + days,
{
    let naive = NaiveDate::from_ymd_opt(date.year, date.month, date.day)?;
    let moved = naive.checked_add_signed(TimeDelta::try_days(days)?)?;
    Some(CivilDate { year: moved.year(), month: moved.month(), day: moved.day() })
}

/// `Datelike::weekday` as `num_days_from_monday`, for a real day: 1970-01-01
/// was a Thursday, three days after a Monday.
#[verifier::external_body]
pub(crate) fn weekday(date: CivilDate) -> (r: Option<u32>)
    ensures
        r == weekday_of(date),
        r matches Some(w) ==> w < 7,
        valid_date(date) ==> r == Some(((days_from_civil(date) + 3) % 7) as u32),
        !valid_date(date) ==> r is None,
{
    Some(NaiveDate::from_ymd_opt(date.year, date.month, date.day)?.weekday().num_days_from_monday())
}

/// `NaiveDateTime::and_utc().timestamp_millis()`: for a real reading, its day
/// count in milliseconds plus its time of day.
#[verifier::external_body]
pub(crate) fn as_utc_millis(local: LocalDateTime) -> (r: Option<i64>)
    ensures
        r == utc_instant(local),
        valid_reading(local) ==> r == Some(reading_millis(local) as i64),
        r is Some <==> chrono_accepts(local),
        r matches Some(m) ==> m == reading_millis(local),
{
    let naive = NaiveDate::from_ymd_opt(local.date.year, local.date.month, local.date.day)?
        .and_hms_milli_opt(local.hour, local.minute, local.second, local.milli)?;
    Some(naive.and_utc().timestamp_millis())
}

} // verus!
