//! Time.
//!
//! Every instant in the core is a [`Timestamp`]: milliseconds since the Unix
//! epoch, UTC. Wall-clock intent ("every day at 09:00") is stored separately as
//! an IANA zone plus local components, because an absolute instant alone cannot
//! survive a DST transition or the user flying to another country.
//!
//! Nothing asks the operating system for the time directly. Services take a
//! [`Clock`], so tests can place themselves at an exact instant.

use vstd::prelude::*;

use crate::domain::calendar::{
    known_zone, reading_in_zone, single_instant, single_instant_at, valid_reading, zone_is_known,
    zone_reading, CivilDate, LocalDateTime,
};
use crate::error::{AppError, AppResult, ValidationError};
use crate::text::owned;

verus! {

pub const I64_MIN: i64 = -9223372036854775808;
pub const I64_MAX: i64 = 9223372036854775807;

/// A value clamped to the range of `i64`, as saturating arithmetic leaves it.
pub open spec fn clamp_i64(x: int) -> int {
    if x < I64_MIN as int {
        I64_MIN as int
    } else if x > I64_MAX as int {
        I64_MAX as int
    } else {
        x
    }
}

/// `i64::saturating_add`.
pub fn saturating_add_i64(a: i64, b: i64) -> (r: i64)
    ensures
        r as int == clamp_i64(a + b),
{
    let wide = a as i128 + b as i128;
    if wide > I64_MAX as i128 {
        I64_MAX
    } else if wide < I64_MIN as i128 {
        I64_MIN
    } else {
        wide as i64
    }
}

/// `i64::saturating_mul`.
pub fn saturating_mul_i64(a: i64, b: i64) -> (r: i64)
    ensures
        r as int == clamp_i64(a * b),
{
    assert((a as int) * (b as int) <= 9223372036854775808 * 9223372036854775808) by (nonlinear_arith)
        requires
            -9223372036854775808 <= a <= 9223372036854775807,
            -9223372036854775808 <= b <= 9223372036854775807,
    ;
    assert((a as int) * (b as int) >= -9223372036854775808 * 9223372036854775807) by (nonlinear_arith)
        requires
            -9223372036854775808 <= a <= 9223372036854775807,
            -9223372036854775808 <= b <= 9223372036854775807,
    ;
    let wide = a as i128 * b as i128;
    if wide > I64_MAX as i128 {
        I64_MAX
    } else if wide < I64_MIN as i128 {
        I64_MIN
    } else {
        wide as i64
    }
}

/// `i64::saturating_sub`.
pub fn saturating_sub_i64(a: i64, b: i64) -> (r: i64)
    ensures
        r as int == clamp_i64(a - b),
{
    let wide = a as i128 - b as i128;
    if wide > I64_MAX as i128 {
        I64_MAX
    } else if wide < I64_MIN as i128 {
        I64_MIN
    } else {
        wide as i64
    }
}

/// Milliseconds since the Unix epoch, UTC.
#[derive(Clone, Copy, PartialEq, Eq, PartialOrd, Ord, Hash, Debug, Structural)]
pub struct Timestamp(pub i64);

impl Timestamp {
    pub fn from_millis(millis: i64) -> (t: Timestamp)
        ensures
            t.0 == millis,
    {
        Timestamp(millis)
    }

    pub fn as_millis(self) -> (m: i64)
        ensures
            m == self.0,
    {
        self.0
    }

    /// Moves the instant by whole minutes, saturating at the ends of the range.
    pub fn saturating_add_minutes(self, minutes: i64) -> (t: Timestamp)
        ensures
            t.0 as int == clamp_i64(self.0 + clamp_i64(minutes * 60_000)),
    {
        Timestamp(saturating_add_i64(self.0, saturating_mul_i64(minutes, 60_000)))
    }

    /// Moves the instant by milliseconds, saturating at the ends of the range.
    pub fn saturating_add_millis(self, millis: i64) -> (t: Timestamp)
        ensures
            t.0 as int == clamp_i64(self.0 + millis),
    {
        Timestamp(saturating_add_i64(self.0, millis))
    }

    pub fn is_before(self, other: Timestamp) -> (b: bool)
        ensures
            b == (self.0 < other.0),
    {
        self.0 < other.0
    }

    /// The wall-clock reading of this instant in a zone.
    ///
    /// Fails with an invalid `timestamp` only for an instant outside the
    /// calendar's range, or one whose reading in the zone is — either means
    /// the value was already corrupt.
    pub fn to_zoned(self, zone: &Zone) -> (r: AppResult<LocalDateTime>)
        ensures
            match zone_reading(self.0 as int, zone@) {
                Some(reading) => r == Ok::<LocalDateTime, AppError>(reading),
                None => r == Err::<LocalDateTime, AppError>(
                    AppError::Validation(ValidationError::Invalid { field: "timestamp" }),
                ),
            },
            r matches Ok(reading) ==> valid_reading(reading),
    {
        match reading_in_zone(self.0, zone.name.as_str()) {
            Some(reading) => Ok(reading),
            None => Err(AppError::Validation(ValidationError::Invalid { field: "timestamp" })),
        }
    }
}

/// Source of "now". Injected everywhere instead of asking the operating system.
pub trait Clock {
    fn now(&self) -> Timestamp;
}

/// The real device clock.
#[derive(Clone, Copy, Debug, Default)]
pub struct SystemClock;

/// `chrono::Utc::now`, in milliseconds. What it returns depends on the moment
/// it is asked, so nothing is claimed about it.
#[verifier::external_body]
fn utc_now_millis() -> i64 {
    chrono::Utc::now().timestamp_millis()
}

impl Clock for SystemClock {
    fn now(&self) -> Timestamp {
        Timestamp(utc_now_millis())
    }
}

/// A clock frozen at a chosen instant.
#[derive(Clone, Copy, Debug)]
pub struct FixedClock {
    pub at: Timestamp,
}

impl FixedClock {
    pub fn new(at: Timestamp) -> (c: FixedClock)
        ensures
            c.at == at,
    {
        FixedClock { at }
    }

    /// The reading a clock built from local components shows, on the hour.
    pub open spec fn local_reading(year: i32, month: u32, day: u32, hour: u32, minute: u32) -> LocalDateTime {
        LocalDateTime { date: CivilDate { year, month, day }, hour, minute, second: 0, milli: 0 }
    }

    /// A clock frozen at a wall-clock reading in a zone, for a reading the
    /// zone's clocks show exactly once.
    pub fn at_local(zone: &Zone, year: i32, month: u32, day: u32, hour: u32, minute: u32) -> (c: FixedClock)
        requires
            single_instant(FixedClock::local_reading(year, month, day, hour, minute), zone@) is Some,
        ensures
            Some(c.at.0) == single_instant(FixedClock::local_reading(year, month, day, hour, minute), zone@),
    {
        let local = LocalDateTime { date: CivilDate { year, month, day }, hour, minute, second: 0, milli: 0 };
        FixedClock { at: Timestamp(single_instant_at(local, zone.name()).unwrap()) }
    }

    /// The same, answering `None` for a reading the zone skipped or showed
    /// twice, where there is no one instant to freeze at.
    pub fn try_at_local(zone: &Zone, year: i32, month: u32, day: u32, hour: u32, minute: u32) -> (c: Option<FixedClock>)
        ensures
            match single_instant(FixedClock::local_reading(year, month, day, hour, minute), zone@) {
                Some(millis) => c matches Some(clock) && clock.at.0 == millis,
                None => c is None,
            },
    {
        let local = LocalDateTime { date: CivilDate { year, month, day }, hour, minute, second: 0, milli: 0 };
        match single_instant_at(local, zone.name()) {
            Some(_) => Some(FixedClock::at_local(zone, year, month, day, hour, minute)),
            None => None,
        }
    }
}

impl Clock for FixedClock {
    fn now(&self) -> (t: Timestamp)
        ensures
            t == self.at,
    {
        self.at
    }
}

/// An IANA time zone the zone database knows, by its name.
#[derive(Clone, Debug)]
pub struct Zone {
    name: String,
}

impl View for Zone {
    type V = Seq<char>;

    closed spec fn view(&self) -> Seq<char> {
        self.name@
    }
}

impl Zone {
    /// The IANA name, exactly as it was parsed.
    pub fn name(&self) -> (n: &str)
        ensures
            n@ == self@,
    {
        self.name.as_str()
    }
}

/// Parses an IANA zone name coming from the frontend or a stored row.
///
/// An unknown name is refused rather than read as UTC, so a corrupted setting
/// cannot silently reschedule everything.
pub fn parse_zone(name: &str) -> (r: AppResult<Zone>)
    ensures
        known_zone(name@) ==> (r matches Ok(z) && z@ == name@),
        !known_zone(name@) ==> (r matches Err(AppError::Validation(
            ValidationError::UnknownTimeZone { value },
        )) && value@ == name@),
{
    if zone_is_known(name) {
        Ok(Zone { name: owned(name) })
    } else {
        Err(AppError::Validation(ValidationError::UnknownTimeZone { value: owned(name) }))
    }
}

} // verus!
