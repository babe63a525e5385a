//! Reminders that come back.
//!
//! Repetition is computed on the wall clock, not by adding a fixed number of
//! milliseconds. "Every day at 09:00" has to stay 09:00 across the two nights a
//! year that are twenty-three and twenty-five hours long, and adding 24 hours
//! would quietly walk the reminder an hour off and leave it there.
//!
//! The stored form is an RFC 5545 `RRULE` so the column keeps its documented
//! meaning and a later build can widen the set without a migration. Only the
//! handful of rules the app can actually offer are understood; anything else is
//! refused rather than half-honoured.

use vstd::prelude::*;

use crate::domain::calendar::{
    add_days, date_plus_days, days_in_month, MAX_YEAR, MIN_YEAR, valid_date, valid_reading, valid_ymd, weekday, weekday_of,
    CivilDate, LocalDateTime, date_exists,
};
use crate::domain::clock::{Timestamp, Zone};
use crate::domain::reminders::zones::{resolve, resolve_reading};
use crate::error::{AppError, AppResult, ReminderError};
use crate::text::{append_str, chars_of, eq_str, string_of};

verus! {

/// How many future occurrences are kept armed at once.
pub const WINDOW: usize = 4;

/// Ceiling on how far the search for future occurrences will walk.
pub const MAX_STEPS: usize = 4000;

#[derive(Clone, Copy, PartialEq, Eq, Debug, Structural)]
pub enum Recurrence {
    Daily,
    /// Monday to Friday.
    Weekdays,
    Weekly,
    Monthly,
    Yearly,
}

/// The stored `RRULE` of each rule.
pub open spec fn rule_text(r: Recurrence) -> Seq<char> {
    match r {
        Recurrence::Daily => "FREQ=DAILY"@,
        Recurrence::Weekdays => "FREQ=WEEKLY;BYDAY=MO,TU,WE,TH,FR"@,
        Recurrence::Weekly => "FREQ=WEEKLY"@,
        Recurrence::Monthly => "FREQ=MONTHLY"@,
        Recurrence::Yearly => "FREQ=YEARLY"@,
    }
}

/// The rule a stored text names, if it names one this build offers.
pub open spec fn rule_named(text: Seq<char>) -> Option<Recurrence> {
    if text == rule_text(Recurrence::Daily) {
        Some(Recurrence::Daily)
    } else if text == rule_text(Recurrence::Weekdays) {
        Some(Recurrence::Weekdays)
    } else if text == rule_text(Recurrence::Weekly) {
        Some(Recurrence::Weekly)
    } else if text == rule_text(Recurrence::Monthly) {
        Some(Recurrence::Monthly)
    } else if text == rule_text(Recurrence::Yearly) {
        Some(Recurrence::Yearly)
    } else {
        None
    }
}

/// Why a stored rule was refused.
pub open spec fn refusal_reason(text: Seq<char>) -> Seq<char> {
    "`"@ + text + "` is not one of the rules this build offers"@
}

/// How many days on from a day of the week (Monday as nought) the next day
/// from Monday to Friday is.
pub open spec fn to_next_weekday(day: int) -> int {
    if day == 4 {
        3
    } else if day == 5 {
        2
    } else {
        1
    }
}

/// How many days `steps` weekdays are from a day of the week.
pub open spec fn weekdays_ahead(day: int, steps: nat) -> int
    decreases steps,
{
    if steps == 0 {
        0
    } else {
        let hop = to_next_weekday(day);
        hop + weekdays_ahead((day + hop) % 7, (steps - 1) as nat)
    }
}

/// The day of the month `day` or the last one before it that exists, or
/// nought when none does.
pub open spec fn fitting_day(year: int, month: int, day: int) -> int
    decreases day,
{
    if day <= 0 {
        0
    } else if valid_ymd(year, month, day) {
        day
    } else {
        fitting_day(year, month, day - 1)
    }
}

/// Whole months added to a date, keeping the day of the month where the month
/// is long enough for it and taking its last day where it is not; `None` where
/// the arithmetic leaves the integer range.
pub open spec fn months_later(date: CivilDate, months: int) -> Option<CivilDate> {
    let zero_based = date.month - 1 + months;
    if zero_based > u32::MAX as int || date.year + zero_based / 12 > i32::MAX as int {
        None
    } else {
        let year = date.year + zero_based / 12;
        let month = zero_based % 12 + 1;
        let day = fitting_day(year, month, date.day as int);
        if day == 0 {
            Some(date)
        } else {
            Some(CivilDate { year: year as i32, month: month as u32, day: day as u32 })
        }
    }
}

pub open spec fn min_int(a: int, b: int) -> int {
    if a <= b {
        a
    } else {
        b
    }
}

/// The date of the `step`-th occurrence, counting the original as nought, or
/// `None` where it falls outside the calendar's range.
pub open spec fn nth_date(r: Recurrence, date: CivilDate, step: int) -> Option<CivilDate> {
    match r {
        Recurrence::Daily => date_plus_days(date, min_int(step, i64::MAX as int)),
        Recurrence::Weekly => {
            let offset = min_int(step, i64::MAX as int);
            if offset * 7 > i64::MAX as int {
                None
            } else {
                date_plus_days(date, offset * 7)
            }
        },
        Recurrence::Monthly => months_later(date, min_int(step, u32::MAX as int)),
        Recurrence::Yearly => months_later(
            date,
            min_int(min_int(step, u32::MAX as int) * 12, u32::MAX as int),
        ),
        Recurrence::Weekdays => match weekday_of(date) {
            Some(day) => {
                let ahead = weekdays_ahead(day as int, step as nat);
                if ahead > i64::MAX as int {
                    None
                } else {
                    date_plus_days(date, ahead)
                }
            },
            None => None,
        },
    }
}

/// The `step`-th reading of a series, with the time of day of the first.
pub open spec fn nth_reading(r: Recurrence, anchor: LocalDateTime, step: int) -> Option<LocalDateTime> {
    match nth_date(r, anchor.date, step) {
        Some(date) => Some(LocalDateTime { date, ..anchor }),
        None => None,
    }
}

proof fn lemma_fitting_day(year: int, month: int, day: int)
    ensures
        0 <= fitting_day(year, month, day) <= day || day < 0,
        fitting_day(year, month, day) > 0 ==> valid_ymd(year, month, fitting_day(year, month, day)),
    decreases day,
{
    if day > 0 && !valid_ymd(year, month, day) {
        lemma_fitting_day(year, month, day - 1);
    }
}

/// In a real month, the fitting day is the wanted day, or the month's last day
/// when the month is shorter.
proof fn lemma_fitting_day_in_month(year: int, month: int, day: int)
    requires
        MIN_YEAR <= year <= MAX_YEAR,
        1 <= month <= 12,
        1 <= day,
    ensures
        fitting_day(year, month, day) == min_int(day, days_in_month(year, month)),
    decreases day,
{
    if !valid_ymd(year, month, day) {
        lemma_fitting_day_in_month(year, month, day - 1);
    }
}

/// Adding whole months moves the month count, years times twelve plus the
/// month, forward by exactly that many, and keeps the day of the month where
/// the month has it and takes the month's last day where it does not, for
/// every real day whose target month is still on the calendar.
pub proof fn lemma_months_later_moves_the_month_count(date: CivilDate, months: int)
    requires
        valid_date(date),
        0 <= months,
        date.year * 12 + (date.month - 1) + months < (MAX_YEAR + 1) * 12,
    ensures
        months_later(date, months) matches Some(d) && {
            &&& valid_date(d)
            &&& d.year * 12 + (d.month - 1) == date.year * 12 + (date.month - 1) + months
            &&& d.day == min_int(date.day as int, days_in_month(d.year as int, d.month as int))
        },
{
    let zero_based = date.month - 1 + months;
    let year = date.year + zero_based / 12;
    let month = zero_based % 12 + 1;
    assert(zero_based == (zero_based / 12) * 12 + zero_based % 12) by {
        vstd::arithmetic::div_mod::lemma_fundamental_div_mod(zero_based, 12);
    }
    assert(year <= MAX_YEAR) by {
        assert(year * 12 <= date.year * 12 + zero_based);
    }
    assert(zero_based <= u32::MAX as int);
    lemma_fitting_day_in_month(year, month, date.day as int);
    lemma_fitting_day(year, month, date.day as int);
}

fn fitting_day_exec(year: i32, month: u32, day: u32) -> (d: u32)
    ensures
        d == fitting_day(year as int, month as int, day as int),
{
    let mut d = day;
    while d > 0 && !date_exists(year, month, d)
        invariant
            d <= day,
            fitting_day(year as int, month as int, day as int) == fitting_day(
                year as int,
                month as int,
                d as int,
            ),
        decreases d,
    {
        d = d - 1;
    }
    d
}

/// Adds whole months, keeping the day of the month where the month is long
/// enough for it: the 31st in a thirty-day month becomes the 30th rather than
/// spilling into the next one.
fn add_months(date: CivilDate, months: u32) -> (r: Option<CivilDate>)
    requires
        valid_date(date),
    ensures
        r == months_later(date, months as int),
        r matches Some(d) ==> valid_date(d),
{
    let month0 = date.month - 1;
    if months > u32::MAX - month0 {
        return None;
    }
    let zero_based = month0 + months;
    let years = (zero_based / 12) as i32;
    if date.year > i32::MAX - years {
        return None;
    }
    let year = date.year + years;
    let month = zero_based % 12 + 1;
    let day = fitting_day_exec(year, month, date.day);
    proof {
        lemma_fitting_day(year as int, month as int, date.day as int);
    }
    if day == 0 {
        Some(date)
    } else {
        Some(CivilDate { year, month, day })
    }
}

impl Recurrence {
    /// The stored `RRULE`.
    pub fn rule(self) -> (s: &'static str)
        ensures
            s@ == rule_text(self),
    {
        match self {
            Recurrence::Daily => "FREQ=DAILY",
            Recurrence::Weekdays => "FREQ=WEEKLY;BYDAY=MO,TU,WE,TH,FR",
            Recurrence::Weekly => "FREQ=WEEKLY",
            Recurrence::Monthly => "FREQ=MONTHLY",
            Recurrence::Yearly => "FREQ=YEARLY",
        }
    }

    /// # Errors
    /// Returns an invalid-recurrence error for a rule outside the set this
    /// build understands — including a valid RFC 5545 rule it cannot honour,
    /// which is worse to approximate than to refuse.
    pub fn parse(rule: &str) -> (r: AppResult<Recurrence>)
        ensures
            match rule_named(rule@) {
                Some(found) => r == Ok::<Recurrence, AppError>(found),
                None => r matches Err(AppError::Reminder(ReminderError::InvalidRecurrence { reason }))
                    && reason@ == refusal_reason(rule@),
            },
    {
        let text = chars_of(rule);
        if eq_str(&text, Recurrence::Daily.rule()) {
            return Ok(Recurrence::Daily);
        }
        if eq_str(&text, Recurrence::Weekdays.rule()) {
            return Ok(Recurrence::Weekdays);
        }
        if eq_str(&text, Recurrence::Weekly.rule()) {
            return Ok(Recurrence::Weekly);
        }
        if eq_str(&text, Recurrence::Monthly.rule()) {
            return Ok(Recurrence::Monthly);
        }
        if eq_str(&text, Recurrence::Yearly.rule()) {
            return Ok(Recurrence::Yearly);
        }
        let mut reason: Vec<char> = Vec::new();
        append_str(&mut reason, "`");
        append_str(&mut reason, rule);
        append_str(&mut reason, "` is not one of the rules this build offers");
        Err(AppError::Reminder(ReminderError::InvalidRecurrence { reason: string_of(&reason) }))
    }

    /// The date of the `step`-th occurrence, or `None` where it leaves the
    /// calendar's range.
    pub fn checked_nth_date(self, date: CivilDate, step: usize) -> (r: Option<CivilDate>)
        requires
            valid_date(date),
        ensures
            r == nth_date(self, date, step as int),
            r matches Some(d) ==> valid_date(d),
    {
        match self {
            Recurrence::Daily => add_days(date, if step as u64 > i64::MAX as u64 {
                i64::MAX
            } else {
                step as i64
            }),
            Recurrence::Weekly => {
                let offset: i64 = if step as u64 > i64::MAX as u64 {
                    i64::MAX
                } else {
                    step as i64
                };
                if offset > i64::MAX / 7 {
                    return None;
                }
                add_days(date, offset * 7)
            },
            Recurrence::Monthly => add_months(date, if step as u64 > u32::MAX as u64 {
                u32::MAX
            } else {
                step as u32
            }),
            Recurrence::Yearly => {
                let steps: u32 = if step as u64 > u32::MAX as u64 {
                    u32::MAX
                } else {
                    step as u32
                };
                let months: u32 = if steps > u32::MAX / 12 {
                    u32::MAX
                } else {
                    steps * 12
                };
                add_months(date, months)
            },
            Recurrence::Weekdays => {
                let day = match weekday(date) {
                    Some(day) => day,
                    None => {
                        return None;
                    },
                };
                // The weekday is read once; the walk then follows the
                // seven-day cycle, stepping over Saturday and Sunday.
                let mut current: u32 = day;
                let mut ahead: u128 = 0;
                let mut k: usize = 0;
                while k < step
                    invariant
                        k <= step,
                        current < 7,
                        ahead <= 3 * k,
                        day < 7,
                        weekdays_ahead(day as int, step as nat) == ahead + weekdays_ahead(
                            current as int,
                            (step - k) as nat,
                        ),
                    decreases step - k,
                {
                    let hop: u32 = if current == 4 {
                        3
                    } else if current == 5 {
                        2
                    } else {
                        1
                    };
                    ahead = ahead + hop as u128;
                    current = (current + hop) % 7;
                    k = k + 1;
                }
                if ahead > i64::MAX as u128 {
                    return None;
                }
                add_days(date, ahead as i64)
            },
        }
    }

    /// The `step`-th wall-clock reading, counting the original as nought.
    ///
    /// Every step is measured from the reading the user chose rather than from
    /// the one before it, so a clamped date cannot poison the rest of the
    /// series, and the time of day is carried across a daylight-saving change
    /// untouched.
    pub fn nth(self, anchor: LocalDateTime, step: usize) -> (r: LocalDateTime)
        requires
            valid_date(anchor.date),
            nth_date(self, anchor.date, step as int) is Some,
        ensures
            Some(r) == nth_reading(self, anchor, step as int),
    {
        let date = self.checked_nth_date(anchor.date, step).unwrap();
        LocalDateTime { date, ..anchor }
    }

    /// The `step`-th reading, or `None` where the series leaves the calendar's
    /// range.
    pub fn checked_nth(self, anchor: LocalDateTime, step: usize) -> (r: Option<LocalDateTime>)
        requires
            valid_date(anchor.date),
        ensures
            r == nth_reading(self, anchor, step as int),
            valid_reading(anchor) ==> (r matches Some(reading) ==> valid_reading(reading)),
    {
        match self.checked_nth_date(anchor.date, step) {
            Some(_) => Some(self.nth(anchor, step)),
            None => None,
        }
    }
}

/// The instants a series arms: walking the steps from `step` on, the instants
/// after `now` are added to `acc` until it holds `count` of them, the walk
/// reaches the ceiling, or the series leaves the calendar's range.
pub open spec fn window_from(
    first: LocalDateTime,
    zone: Seq<char>,
    r: Recurrence,
    now: Timestamp,
    count: nat,
    step: nat,
    acc: Seq<Timestamp>,
) -> Seq<Timestamp>
    decreases MAX_STEPS - step,
{
    if step >= MAX_STEPS || acc.len() >= count {
        acc
    } else {
        match nth_reading(r, first, step as int) {
            None => acc,
            Some(reading) => {
                let instant = resolve_reading(reading, zone);
                window_from(
                    first,
                    zone,
                    r,
                    now,
                    count,
                    step + 1,
                    if instant.0 > now.0 {
                        acc.push(instant)
                    } else {
                        acc
                    },
                )
            },
        }
    }
}

/// The instants to arm for a reminder.
pub open spec fn window_of(
    first: LocalDateTime,
    zone: Seq<char>,
    recurrence: Option<Recurrence>,
    now: Timestamp,
    count: nat,
) -> Seq<Timestamp> {
    match recurrence {
        None => {
            let instant = resolve_reading(first, zone);
            if instant.0 > now.0 {
                seq![instant]
            } else {
                Seq::empty()
            }
        },
        Some(r) => window_from(first, zone, r, now, count, 0, Seq::empty()),
    }
}

/// The instants to arm for a reminder, starting at `first` and repeating.
///
/// Occurrences already in the past are stepped over rather than armed: after a
/// phone has been off for a week, the user wants the next "every day at 09:00",
/// not seven notifications for the mornings they missed. A reminder that does
/// not repeat yields its one instant, or nothing at all if that instant has
/// passed.
pub fn window(
    first: LocalDateTime,
    zone: &Zone,
    recurrence: Option<Recurrence>,
    now: Timestamp,
    count: usize,
) -> (instants: Vec<Timestamp>)
    requires
        valid_reading(first),
    ensures
        instants@ == window_of(first, zone@, recurrence, now, count as nat),
{
    let r = match recurrence {
        None => {
            let instant = resolve(first, zone);
            if instant.0 > now.0 {
                let mut one: Vec<Timestamp> = Vec::new();
                one.push(instant);
                assert(one@ =~= seq![instant]);
                return one;
            }
            return Vec::new();
        },
        Some(r) => r,
    };
    let mut instants: Vec<Timestamp> = Vec::new();
    let mut step: usize = 0;
    while step < MAX_STEPS && instants.len() < count
        invariant
            step <= MAX_STEPS,
            valid_reading(first),
            recurrence == Some(r),
            window_from(first, zone@, r, now, count as nat, 0, Seq::empty()) == window_from(
                first,
                zone@,
                r,
                now,
                count as nat,
                step as nat,
                instants@,
            ),
        decreases MAX_STEPS - step,
    {
        let reading = match r.checked_nth(first, step) {
            Some(reading) => reading,
            None => {
                assert(window_from(first, zone@, r, now, count as nat, step as nat, instants@)
                    == instants@);
                return instants;
            },
        };
        let instant = resolve(reading, zone);
        if instant.0 > now.0 {
            instants.push(instant);
        }
        step = step + 1;
    }
    instants
}

/// Every rule survives a round trip through its stored form.
pub proof fn lemma_rule_round_trip(r: Recurrence)
    ensures
        rule_named(rule_text(r)) == Some(r),
{
    reveal_strlit("FREQ=DAILY");
    reveal_strlit("FREQ=WEEKLY;BYDAY=MO,TU,WE,TH,FR");
    reveal_strlit("FREQ=WEEKLY");
    reveal_strlit("FREQ=MONTHLY");
    reveal_strlit("FREQ=YEARLY");
    assert("FREQ=DAILY"@.len() == 10);
    assert("FREQ=WEEKLY;BYDAY=MO,TU,WE,TH,FR"@.len() == 32);
    assert("FREQ=WEEKLY"@.len() == 11);
    assert("FREQ=MONTHLY"@.len() == 12);
    assert("FREQ=YEARLY"@.len() == 11);
    assert("FREQ=WEEKLY"@[5] != "FREQ=YEARLY"@[5]);
}

proof fn lemma_window_from(
    first: LocalDateTime,
    zone: Seq<char>,
    r: Recurrence,
    now: Timestamp,
    count: nat,
    step: nat,
    acc: Seq<Timestamp>,
)
    requires
        forall|i: int| 0 <= i < acc.len() ==> (#[trigger] acc[i]).0 > now.0,
        acc.len() <= count,
    ensures
        ({
            let out = window_from(first, zone, r, now, count, step, acc);
            &&& out.len() <= count
            &&& forall|i: int| 0 <= i < out.len() ==> (#[trigger] out[i]).0 > now.0
        }),
    decreases MAX_STEPS - step,
{
    if step < MAX_STEPS && acc.len() < count {
        if let Some(reading) = nth_reading(r, first, step as int) {
            let instant = resolve_reading(reading, zone);
            let next = if instant.0 > now.0 {
                acc.push(instant)
            } else {
                acc
            };
            assert forall|i: int| 0 <= i < next.len() implies (#[trigger] next[i]).0 > now.0 by {
                if i < acc.len() {
                    assert(next[i] == acc[i]);
                }
            }
            lemma_window_from(first, zone, r, now, count, step + 1, next);
        }
    }
}

/// Nothing already in the past is armed, and never more than asked for: at
/// most `count` instants for a series, and at most one for a reminder that
/// does not repeat.
pub proof fn lemma_window_is_ahead_and_bounded(
    first: LocalDateTime,
    zone: Seq<char>,
    recurrence: Option<Recurrence>,
    now: Timestamp,
    count: nat,
)
    ensures
        forall|i: int|
            0 <= i < window_of(first, zone, recurrence, now, count).len() ==> (#[trigger] window_of(
                first,
                zone,
                recurrence,
                now,
                count,
            )[i]).0 > now.0,
        recurrence is Some ==> window_of(first, zone, recurrence, now, count).len() <= count,
        recurrence is None ==> window_of(first, zone, recurrence, now, count).len() <= 1,
{
    if let Some(r) = recurrence {
        lemma_window_from(first, zone, r, now, count, 0, Seq::empty());
    }
}

} // verus!
