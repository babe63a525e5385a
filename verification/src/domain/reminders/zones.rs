//! Keeping the wall clock, not the instant.
//!
//! A reminder is set by pointing at a time on a clock. The instant that time
//! happens to be is a consequence of where the user was standing, and it stops
//! being the right instant the moment they move: someone who asks to be
//! reminded at 09:00 and then flies two zones east still means 09:00, not 07:00.
//!
//! So the stored instant is treated as a rendering of a wall-clock intent in a
//! known zone, and moving to another zone re-renders the same intent there.

use vstd::prelude::*;

use crate::domain::calendar::{
    add_minutes, as_utc_millis, earliest_instant, earliest_instant_at, reading_plus_minutes,
    utc_instant, valid_reading, zone_reading, LocalDateTime,
};
use crate::domain::clock::{Timestamp, Zone};
use crate::error::{AppError, AppResult, ValidationError};

pub use crate::domain::clock::parse_zone;

verus! {

/// Longest daylight-saving gap to step over. Real ones are at most two hours.
pub const MAX_GAP_MINUTES: u32 = 180;

/// The first instant within `left` more minutes of `candidate` at which the
/// zone's clocks show a reading, walking a minute at a time.
pub open spec fn walk_gap(candidate: LocalDateTime, zone: Seq<char>, left: nat) -> Option<i64>
    decreases left,
{
    if left == 0 {
        None
    } else {
        match reading_plus_minutes(candidate, 1) {
            None => None,
            Some(next) => match earliest_instant(next, zone) {
                Some(millis) => Some(millis),
                None => walk_gap(next, zone, (left - 1) as nat),
            },
        }
    }
}

/// The instant a wall-clock reading names in a zone.
///
/// A reading the clocks showed twice is the first of the two; a reading they
/// skipped is the moment the gap ends; and a reading no walk reaches is read
/// as UTC, which keeps the reminder rather than dropping it.
pub open spec fn resolve_reading(wall: LocalDateTime, zone: Seq<char>) -> Timestamp {
    match earliest_instant(wall, zone) {
        Some(millis) => Timestamp(millis),
        None => match walk_gap(wall, zone, MAX_GAP_MINUTES as nat) {
            Some(millis) => Timestamp(millis),
            None => Timestamp(utc_instant(wall)->0),
        },
    }
}

/// Turns a wall-clock reading into an instant in `zone`.
///
/// Twice a year a given reading is either ambiguous or does not exist at all,
/// and neither may be allowed to lose the reminder: when the clocks go back,
/// 01:30 happens twice and the first one is used; when they go forward, 02:30
/// never happens and the instant the gap ends is used.
pub fn resolve(wall: LocalDateTime, zone: &Zone) -> (t: Timestamp)
    requires
        valid_reading(wall),
    ensures
        t == resolve_reading(wall, zone@),
{
    if let Some(millis) = earliest_instant_at(wall, zone.name()) {
        return Timestamp(millis);
    }
    let mut candidate = wall;
    let mut left: u32 = MAX_GAP_MINUTES;
    let mut stuck = false;
    while left > 0 && !stuck
        invariant
            left <= MAX_GAP_MINUTES,
            earliest_instant(wall, zone@) is None,
            !stuck ==> walk_gap(wall, zone@, MAX_GAP_MINUTES as nat) == walk_gap(
                candidate,
                zone@,
                left as nat,
            ),
            stuck ==> walk_gap(wall, zone@, MAX_GAP_MINUTES as nat) is None,
        decreases left as int + if stuck {
            0int
        } else {
            1int
        },
    {
        match add_minutes(candidate, 1) {
            None => {
                stuck = true;
            },
            Some(next) => {
                if let Some(millis) = earliest_instant_at(next, zone.name()) {
                    return Timestamp(millis);
                }
                candidate = next;
                left = left - 1;
            },
        }
    }
    Timestamp(as_utc_millis(wall).unwrap())
}

/// The same time on the clock, seen in another zone.
///
/// # Errors
/// Fails only when the stored instant is outside the range the calendar can
/// represent, which means the row was already corrupt.
pub fn reinterpret(instant: Timestamp, from: &Zone, to: &Zone) -> (r: AppResult<Timestamp>)
    ensures
        match zone_reading(instant.0 as int, from@) {
            Some(wall) => r == Ok::<Timestamp, AppError>(resolve_reading(wall, to@)),
            None => r == Err::<Timestamp, AppError>(
                AppError::Validation(ValidationError::Invalid { field: "timestamp" }),
            ),
        },
{
    let wall = instant.to_zoned(from)?;
    Ok(resolve(wall, to))
}

} // verus!
