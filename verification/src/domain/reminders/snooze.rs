//! How long the notification's "later" button moves a reminder by.
//!
//! One number for the whole app rather than one per reminder: "later" is a
//! habit — how long this person needs before being asked again — and not a
//! property of any one thing they were reminded about.

use vstd::prelude::*;

use crate::error::{AppError, AppResult, ValidationError};
use crate::text::{all_ascii_digits, chars_of, digits_value, trim, trim_chars};

verus! {

pub const SNOOZE_SETTING_KEY: &'static str = "reminders.snooze_minutes";

/// An hour: long enough that the reminder comes back when the thing that
/// interrupted it is over, rather than in the middle of it.
pub const DEFAULT_SNOOZE_MINUTES: i64 = 60;

/// A day is the ceiling. Past that "later" stops being a postponement and
/// becomes a different reminder.
pub const MAX_SNOOZE_MINUTES: i64 = 1440;

/// The amounts the picker offers.
pub open spec fn offered_snoozes() -> Seq<i64> {
    seq![5, 10, 15, 30, 60, 120]
}

/// How many of the amounts come before a value.
pub open spec fn count_below(s: Seq<i64>, x: i64) -> nat
    decreases s.len(),
{
    if s.len() == 0 {
        0
    } else if s[0] < x {
        1 + count_below(s.drop_first(), x)
    } else {
        0
    }
}

/// A sorted list with a value put in its place, unless it is there already.
pub open spec fn with_value(s: Seq<i64>, x: i64) -> Seq<i64> {
    if s.contains(x) {
        s
    } else {
        let k = count_below(s, x) as int;
        s.take(k) + seq![x] + s.skip(k)
    }
}

/// Puts `x` into a sorted vector unless it is there already.
pub fn insert_in_order(values: &mut Vec<i64>, x: i64)
    requires
        forall|i: int, j: int| 0 <= i < j < old(values)@.len() ==> old(values)@[i] < old(values)@[j],
    ensures
        final(values)@ == with_value(old(values)@, x),
{
    let ghost s = values@;
    let n = values.len();
    let mut k: usize = 0;
    assert(s.skip(0) =~= s);
    while k < n && values[k] < x
        invariant
            k <= n == values@.len(),
            values@ == s,
            forall|i: int, j: int| 0 <= i < j < s.len() ==> s[i] < s[j],
            forall|i: int| 0 <= i < k ==> s[i] < x,
            count_below(s, x) == k + count_below(s.skip(k as int), x),
        decreases n - k,
    {
        assert(s.skip(k as int).drop_first() =~= s.skip(k as int + 1));
        k = k + 1;
    }
    if k < n {
        assert(s.skip(k as int)[0] == s[k as int]);
    }
    assert(count_below(s.skip(k as int), x) == 0);
    if k < n && values[k] == x {
        assert(s.contains(x));
        return;
    }
    assert(!s.contains(x)) by {
        assert forall|i: int| 0 <= i < s.len() implies s[i] != x by {
            if i >= k {
                assert(s[i] >= s[k as int]);
            }
        }
    }
    values.insert(k, x);
    assert(values@ =~= s.take(k as int) + seq![x] + s.skip(k as int));
}

/// The offered amounts, with the one in use added if it is not among them.
///
/// A value restored from another build must still be visible on the screen that
/// edits it — a picker where nothing is selected reads as a setting that is off.
pub fn offered(current: i64) -> (amounts: Vec<i64>)
    ensures
        amounts@ == with_value(offered_snoozes(), current),
{
    let mut amounts: Vec<i64> = Vec::new();
    amounts.push(5);
    amounts.push(10);
    amounts.push(15);
    amounts.push(30);
    amounts.push(60);
    amounts.push(120);
    assert(amounts@ =~= offered_snoozes());
    insert_in_order(&mut amounts, current);
    amounts
}

pub open spec fn invalid_snooze() -> AppError {
    AppError::Validation(ValidationError::Invalid { field: "snoozeMinutes" })
}

/// # Errors
/// An invalid `snoozeMinutes` for nought, a negative amount, or more than a day.
pub fn validate(minutes: i64) -> (r: AppResult<i64>)
    ensures
        0 < minutes <= MAX_SNOOZE_MINUTES ==> r == Ok::<i64, AppError>(minutes),
        !(0 < minutes <= MAX_SNOOZE_MINUTES) ==> r == Err::<i64, AppError>(invalid_snooze()),
{
    if minutes <= 0 || minutes > MAX_SNOOZE_MINUTES {
        return Err(AppError::Validation(ValidationError::Invalid { field: "snoozeMinutes" }));
    }
    Ok(minutes)
}

/// What `str::parse::<i64>` reads: an optional sign, then at least one digit,
/// within the range of `i64`.
pub open spec fn parse_i64(s: Seq<char>) -> Option<i64> {
    if s.len() == 0 {
        None
    } else {
        let negative = s[0] == '-';
        let digits = if s[0] == '-' || s[0] == '+' {
            s.skip(1)
        } else {
            s
        };
        if digits.len() == 0 || !all_ascii_digits(digits) {
            None
        } else if negative {
            if digits_value(digits) > 9223372036854775808 {
                None
            } else {
                Some((0 - digits_value(digits)) as i64)
            }
        } else if digits_value(digits) > 9223372036854775807 {
            None
        } else {
            Some(digits_value(digits) as i64)
        }
    }
}

proof fn lemma_digits_value_grows(s: Seq<char>, k: int)
    requires
        0 <= k <= s.len(),
        all_ascii_digits(s),
    ensures
        digits_value(s.take(k)) <= digits_value(s),
    decreases s.len() - k,
{
    if k < s.len() {
        lemma_digits_value_grows(s, k + 1);
        assert(s.take(k + 1).drop_last() =~= s.take(k));
    } else {
        assert(s.take(k) =~= s);
    }
}

/// `str::parse::<i64>` over characters.
pub fn parse_i64_chars(s: &[char]) -> (r: Option<i64>)
    ensures
        r == parse_i64(s@),
{
    let n = s.len();
    if n == 0 {
        return None;
    }
    let negative = s[0] == '-';
    let start: usize = if s[0] == '-' || s[0] == '+' {
        1
    } else {
        0
    };
    let ghost digits = s@.skip(start as int);
    assert(digits =~= (if s@[0] == '-' || s@[0] == '+' {
        s@.skip(1)
    } else {
        s@
    }));
    if start == n {
        return None;
    }
    let mut value: u64 = 0;
    let mut i: usize = start;
    assert(digits.take(0) =~= Seq::<char>::empty());
    while i < n
        invariant
            start <= i <= n == s@.len(),
            n > 0,
            start == 0 || start == 1,
            digits == s@.skip(start as int),
            digits == (if s@[0] == '-' || s@[0] == '+' {
                s@.skip(1)
            } else {
                s@
            }),
            negative == (s@[0] == '-'),
            all_ascii_digits(digits.take(i - start)),
            value == digits_value(digits.take(i - start)),
            value <= 9223372036854775808,
        decreases n - i,
    {
        let c = s[i];
        assert(digits.take(i - start + 1).drop_last() =~= digits.take(i - start));
        assert(digits.take(i - start + 1).last() == c);
        if !('0' <= c && c <= '9') {
            assert(!all_ascii_digits(digits)) by {
                assert(digits[i - start] == c);
            }
            return None;
        }
        assert(all_ascii_digits(digits.take(i - start + 1))) by {
            assert forall|j: int| 0 <= j < i - start + 1 implies '0' <= #[trigger] digits.take(
                i - start + 1,
            )[j] && digits.take(i - start + 1)[j] <= '9' by {
                if j < i - start {
                    assert(digits.take(i - start + 1)[j] == digits.take(i - start)[j]);
                }
            }
        }
        let d = (c as u64) - 48;
        if value > (9223372036854775808 - d) / 10 {
            assert(value * 10 + d > 9223372036854775808) by (nonlinear_arith)
                requires
                    value > (9223372036854775808 - d) / 10,
                    d <= 9,
            ;
            proof {
                if all_ascii_digits(digits) {
                    lemma_digits_value_grows(digits, i - start + 1);
                }
            }
            return None;
        }
        assert(value * 10 + d <= 9223372036854775808) by (nonlinear_arith)
            requires
                value <= (9223372036854775808 - d) / 10,
                d <= 9,
        ;
        value = value * 10 + d;
        i = i + 1;
    }
    assert(digits.take(digits.len() as int) =~= digits);
    if negative {
        if value == 9223372036854775808 {
            return Some(i64::MIN);
        }
        Some(0 - (value as i64))
    } else {
        if value > 9223372036854775807 {
            return None;
        }
        Some(value as i64)
    }
}

/// The amount a stored setting holds, or the shipped hour when it is unset.
pub open spec fn stored_snooze(raw: Option<Seq<char>>) -> AppResult<i64> {
    match raw {
        None => Ok(DEFAULT_SNOOZE_MINUTES),
        Some(text) => match parse_i64(trim(text)) {
            None => Err(invalid_snooze()),
            Some(minutes) => if 0 < minutes <= MAX_SNOOZE_MINUTES {
                Ok(minutes)
            } else {
                Err(invalid_snooze())
            },
        },
    }
}

/// Reads the stored amount, falling back to the shipped one when unset.
///
/// # Errors
/// An invalid `snoozeMinutes` when the stored value is not a number this build
/// accepts.
pub fn parse_stored(raw: Option<&str>) -> (r: AppResult<i64>)
    ensures
        r == stored_snooze(
            match raw {
                Some(s) => Some(s@),
                None => None,
            },
        ),
{
    let raw = match raw {
        Some(raw) => raw,
        None => {
            return Ok(DEFAULT_SNOOZE_MINUTES);
        },
    };
    let chars = chars_of(raw);
    let trimmed = trim_chars(&chars);
    match parse_i64_chars(&trimmed) {
        Some(minutes) => validate(minutes),
        None => Err(AppError::Validation(ValidationError::Invalid { field: "snoozeMinutes" })),
    }
}

} // verus!
