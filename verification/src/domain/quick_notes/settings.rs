//! What the user set up once, so dictating stays a single press.
//!
//! Both values answer a question the spoken phrase deliberately does not:
//! "встреча, 15:00" says when the meeting is, never when to be warned about it,
//! and "купить молоко" says nothing about time at all. The answers are settings
//! and the phrase only overrides what it actually names.

use vstd::prelude::*;

use crate::domain::reminders::time_presets::{clock_minutes, invalid_presets, TimePreset};
use crate::error::{AppError, AppResult, ValidationError};

verus! {

pub const QUICK_NOTES_SETTING_KEY: &'static str = "quick_notes.settings";

/// How long before the spoken time the reminder may be placed: a day at most.
pub const MAX_LEAD_MINUTES: u16 = 1440;

/// The lead shipped with the app.
pub const DEFAULT_LEAD_MINUTES: u16 = 30;

/// Where a phrase with no time in it lands. Evening, because an errand
/// dictated during the day is one you act on when the day frees up.
pub const DEFAULT_FALLBACK_HOUR: u8 = 19;

/// How far ahead the day may be pushed.
pub const MAX_FALLBACK_DAY_OFFSET: u16 = 30;

#[derive(Clone, Copy, PartialEq, Eq, Debug)]
pub struct QuickNoteSettings {
    /// Minutes between the reminder and the time the phrase named.
    lead_minutes: u16,
    /// The time of day used when the phrase named none.
    fallback_time: TimePreset,
    /// Days ahead of today that time lands on when the phrase named no day.
    ///
    /// Nought is today — and, because a time that has gone cannot be reminded
    /// about, the next occurrence of it. One is tomorrow, and anything larger
    /// is the day the user asked for outright.
    fallback_day_offset: u16,
}

pub open spec fn invalid_settings() -> AppError {
    AppError::Validation(ValidationError::Invalid { field: "quick_note_settings" })
}

impl QuickNoteSettings {
    pub closed spec fn lead(self) -> u16 {
        self.lead_minutes
    }

    pub closed spec fn fallback(self) -> TimePreset {
        self.fallback_time
    }

    pub closed spec fn day_offset(self) -> u16 {
        self.fallback_day_offset
    }

    #[verifier::type_invariant]
    closed spec fn inv(self) -> bool {
        self.lead_minutes <= MAX_LEAD_MINUTES && self.fallback_day_offset <= MAX_FALLBACK_DAY_OFFSET
    }

    /// # Errors
    /// An invalid `quick_note_settings` when the lead is longer than a day, or
    /// the day is further off than a month.
    pub fn new(lead_minutes: u16, fallback_time: TimePreset, fallback_day_offset: u16) -> (r: AppResult<
        QuickNoteSettings,
    >)
        ensures
            lead_minutes <= MAX_LEAD_MINUTES && fallback_day_offset <= MAX_FALLBACK_DAY_OFFSET ==> (r matches Ok(
                s,
            ) && s.lead() == lead_minutes && s.fallback() == fallback_time && s.day_offset()
                == fallback_day_offset),
            !(lead_minutes <= MAX_LEAD_MINUTES && fallback_day_offset <= MAX_FALLBACK_DAY_OFFSET)
                ==> r == Err::<QuickNoteSettings, AppError>(invalid_settings()),
    {
        if lead_minutes > MAX_LEAD_MINUTES || fallback_day_offset > MAX_FALLBACK_DAY_OFFSET {
            return Err(
                AppError::Validation(ValidationError::Invalid { field: "quick_note_settings" }),
            );
        }
        Ok(QuickNoteSettings { lead_minutes, fallback_time, fallback_day_offset })
    }

    pub fn lead_minutes(self) -> (m: u16)
        ensures
            m == self.lead(),
            m <= MAX_LEAD_MINUTES,
    {
        proof {
            use_type_invariant(self);
        }
        self.lead_minutes
    }

    pub fn fallback_time(self) -> (t: TimePreset)
        ensures
            t == self.fallback(),
    {
        self.fallback_time
    }

    pub fn fallback_day_offset(self) -> (d: u16)
        ensures
            d == self.day_offset(),
            d <= MAX_FALLBACK_DAY_OFFSET,
    {
        proof {
            use_type_invariant(self);
        }
        self.fallback_day_offset
    }

    /// The settings from the stored fields: the lead, the `HH:MM` time and the
    /// day.
    ///
    /// # Errors
    /// An invalid `time_presets` for a time that does not exist on a clock, and
    /// an invalid `quick_note_settings` for a lead or a day this build refuses.
    pub fn from_stored(lead_minutes: u16, fallback_time: &str, fallback_day_offset: u16) -> (r:
        AppResult<QuickNoteSettings>)
        ensures
            match clock_minutes(fallback_time@) {
                None => r == Err::<QuickNoteSettings, AppError>(invalid_presets()),
                Some(m) => if lead_minutes <= MAX_LEAD_MINUTES && fallback_day_offset
                    <= MAX_FALLBACK_DAY_OFFSET {
                    r matches Ok(s) && s.lead() == lead_minutes && s.fallback()@ == m
                        && s.day_offset() == fallback_day_offset
                } else {
                    r == Err::<QuickNoteSettings, AppError>(invalid_settings())
                },
            },
    {
        let time = TimePreset::parse(fallback_time)?;
        QuickNoteSettings::new(lead_minutes, time, fallback_day_offset)
    }
}

impl Default for QuickNoteSettings {
    /// The shipped pair: half an hour before, and seven in the evening today.
    fn default() -> (s: QuickNoteSettings)
        ensures
            s.lead() == DEFAULT_LEAD_MINUTES,
            s.fallback()@ == DEFAULT_FALLBACK_HOUR * 60,
            s.day_offset() == 0,
    {
        QuickNoteSettings {
            lead_minutes: DEFAULT_LEAD_MINUTES,
            fallback_time: TimePreset::from_minutes(1140),
            fallback_day_offset: 0,
        }
    }
}

/// The leads the picker offers.
pub open spec fn offered_lead_list() -> Seq<u16> {
    seq![0, 5, 10, 15, 30, 60, 120]
}

pub open spec fn leads_below(s: Seq<u16>, x: u16) -> nat
    decreases s.len(),
{
    if s.len() == 0 {
        0
    } else if s[0] < x {
        1 + leads_below(s.drop_first(), x)
    } else {
        0
    }
}

/// A sorted list with a value put in its place, unless it is there already.
pub open spec fn with_lead(s: Seq<u16>, x: u16) -> Seq<u16> {
    if s.contains(x) {
        s
    } else {
        let k = leads_below(s, x) as int;
        s.take(k) + seq![x] + s.skip(k)
    }
}

/// The offered leads, with the one in use added if it is not among them.
///
/// A backup restored from another build must still be visible on the screen
/// that edits it.
pub fn offered_leads(current: u16) -> (leads: Vec<u16>)
    ensures
        leads@ == with_lead(offered_lead_list(), current),
{
    let mut leads: Vec<u16> = Vec::new();
    leads.push(0);
    leads.push(5);
    leads.push(10);
    leads.push(15);
    leads.push(30);
    leads.push(60);
    leads.push(120);
    let ghost s = leads@;
    assert(s =~= offered_lead_list());
    let n = leads.len();
    let mut k: usize = 0;
    assert(s.skip(0) =~= s);
    while k < n && leads[k] < current
        invariant
            k <= n == leads@.len(),
            leads@ == s,
            s == offered_lead_list(),
            forall|i: int| 0 <= i < k ==> s[i] < current,
            leads_below(s, current) == k + leads_below(s.skip(k as int), current),
        decreases n - k,
    {
        assert(s.skip(k as int).drop_first() =~= s.skip(k as int + 1));
        k = k + 1;
    }
    if k < n {
        assert(s.skip(k as int)[0] == s[k as int]);
    }
    if k < n && leads[k] == current {
        assert(s.contains(current));
        return leads;
    }
    assert(!s.contains(current)) by {
        assert forall|i: int| 0 <= i < s.len() implies s[i] != current by {
            if i >= k {
                assert(s[i] >= s[k as int]);
            }
        }
    }
    leads.insert(k, current);
    assert(leads@ =~= s.take(k as int) + seq![current] + s.skip(k as int));
    leads
}

} // verus!
