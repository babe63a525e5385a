//! Times offered for one-tap picking when setting a reminder.
//!
//! The set is the user's, not the app's: the six shipped times are a starting
//! point they can add to and delete from, including deleting all of them. That
//! is why an empty list is a real stored state and only the *absence* of the
//! setting means "never touched, use ours".

use vstd::prelude::*;

use crate::error::{invalid, AppError, AppResult};
use crate::text::{chars_of, digit, digit_char, string_of};

verus! {

pub const TIME_PRESETS_SETTING_KEY: &'static str = "reminders.time_presets";

/// Bound on how many presets are kept.
pub const MAX_TIME_PRESETS: usize = 24;

/// A time of day, with no date and no timezone attached.
#[derive(Clone, Copy, PartialEq, Eq, PartialOrd, Ord, Hash, Debug, Structural)]
pub struct TimePreset {
    minutes_from_midnight: u16,
}

impl View for TimePreset {
    type V = int;

    /// Minutes from midnight.
    closed spec fn view(&self) -> int {
        self.minutes_from_midnight as int
    }
}

impl TimePreset {
    #[verifier::type_invariant]
    spec fn inv(self) -> bool {
        self.minutes_from_midnight < 24 * 60
    }

    /// # Errors
    /// Returns a validation error for a time that does not exist on a clock.
    pub fn new(hour: u8, minute: u8) -> (r: AppResult<TimePreset>)
        ensures
            hour <= 23 && minute <= 59 ==> (r matches Ok(p) && p@ == hour * 60 + minute),
            !(hour <= 23 && minute <= 59) ==> r == Err::<TimePreset, AppError>(
                invalid_presets(),
            ),
    {
        if hour > 23 || minute > 59 {
            return Err(invalid("time_presets"));
        }
        Ok(TimePreset { minutes_from_midnight: hour as u16 * 60 + minute as u16 })
    }

    /// The preset at a number of minutes after midnight.
    pub fn from_minutes(minutes: u16) -> (p: TimePreset)
        requires
            minutes < 24 * 60,
        ensures
            p@ == minutes,
    {
        TimePreset { minutes_from_midnight: minutes }
    }

    /// Parses the `HH:MM` form the picker stores and the UI puts in an input.
    ///
    /// # Errors
    /// Returns a validation error for anything that is not exactly two digits,
    /// a colon and two digits with a real time in them.
    pub fn parse(text: &str) -> (r: AppResult<TimePreset>)
        ensures
            match clock_minutes(text@) {
                Some(m) => r matches Ok(p) && p@ == m && m < 24 * 60,
                None => r == Err::<TimePreset, AppError>(invalid_presets()),
            },
    {
        let chars = chars_of(text);
        match clock_minutes_of(&chars) {
            Some(m) => Ok(TimePreset { minutes_from_midnight: m }),
            None => Err(invalid("time_presets")),
        }
    }

    pub fn hour(self) -> (h: u8)
        ensures
            h == self@ / 60,
    {
        proof {
            use_type_invariant(self);
        }
        (self.minutes_from_midnight / 60) as u8
    }

    pub fn minute(self) -> (m: u8)
        ensures
            m == self@ % 60,
    {
        proof {
            use_type_invariant(self);
        }
        (self.minutes_from_midnight % 60) as u8
    }

    /// The `HH:MM` form, zero-padded so `<input type="time">` accepts it.
    pub fn label(self) -> (s: String)
        ensures
            s@ == clock_label(self@),
            0 <= self@ < 24 * 60,
    {
        proof {
            use_type_invariant(self);
        }
        let h = (self.minutes_from_midnight / 60) as u64;
        let m = (self.minutes_from_midnight % 60) as u64;
        let mut out: Vec<char> = Vec::new();
        out.push(digit(h / 10));
        out.push(digit(h % 10));
        out.push(':');
        out.push(digit(m / 10));
        out.push(digit(m % 10));
        assert(out@ =~= clock_label(self@));
        string_of(&out)
    }
}

pub open spec fn invalid_presets() -> AppError {
    AppError::Validation(crate::error::ValidationError::Invalid { field: "time_presets" })
}

pub open spec fn digit_value(c: char) -> int {
    (c as u32) - 48
}

pub open spec fn is_digit(c: char) -> bool {
    48 <= (c as u32) <= 57
}

/// Minutes after midnight that an exact `HH:MM` names, or `None` when the text
/// is not that shape or names no real time.
pub open spec fn clock_minutes(s: Seq<char>) -> Option<int> {
    if s.len() == 5 && is_digit(s[0]) && is_digit(s[1]) && s[2] == ':' && is_digit(s[3])
        && is_digit(s[4]) {
        let h = digit_value(s[0]) * 10 + digit_value(s[1]);
        let m = digit_value(s[3]) * 10 + digit_value(s[4]);
        if h <= 23 && m <= 59 {
            Some(h * 60 + m)
        } else {
            None
        }
    } else {
        None
    }
}

/// The zero-padded `HH:MM` of a number of minutes after midnight.
pub open spec fn clock_label(m: int) -> Seq<char> {
    let h = m / 60;
    let mm = m % 60;
    seq![
        digit_char((h / 10) as nat),
        digit_char((h % 10) as nat),
        ':',
        digit_char((mm / 10) as nat),
        digit_char((mm % 10) as nat),
    ]
}

pub fn clock_minutes_of(s: &[char]) -> (r: Option<u16>)
    ensures
        match r {
            Some(m) => clock_minutes(s@) == Some(m as int) && m < 24 * 60,
            None => clock_minutes(s@) is None,
        },
{
    if s.len() != 5 {
        return None;
    }
    let c0 = s[0] as u32;
    let c1 = s[1] as u32;
    let c3 = s[3] as u32;
    let c4 = s[4] as u32;
    if !(48 <= c0 && c0 <= 57 && 48 <= c1 && c1 <= 57 && s[2] == ':' && 48 <= c3 && c3 <= 57
        && 48 <= c4 && c4 <= 57) {
        return None;
    }
    let h = (c0 - 48) * 10 + (c1 - 48);
    let m = (c3 - 48) * 10 + (c4 - 48);
    if h <= 23 && m <= 59 {
        Some((h * 60 + m) as u16)
    } else {
        None
    }
}

/// Reading back a label gives the time it was made from.
pub proof fn lemma_label_round_trip(m: int)
    requires
        0 <= m < 24 * 60,
    ensures
        clock_minutes(clock_label(m)) == Some(m),
{
    let l = clock_label(m);
    let h = m / 60;
    let mm = m % 60;
    assert(0 <= h < 24);
    assert(0 <= mm < 60);
    assert(digit_value(l[0]) == h / 10);
    assert(digit_value(l[1]) == h % 10);
    assert(digit_value(l[3]) == mm / 10);
    assert(digit_value(l[4]) == mm % 10);
    assert(digit_value(l[0]) * 10 + digit_value(l[1]) == h);
    assert(digit_value(l[3]) * 10 + digit_value(l[4]) == mm);
}

/// A preset's label parses back to the same preset: `TimePreset::parse` of
/// `label` gives back the time it was made from.
pub proof fn lemma_preset_label_round_trip(p: TimePreset)
    requires
        0 <= p@ < 24 * 60,
    ensures
        clock_minutes(clock_label(p@)) == Some(p@),
{
    lemma_label_round_trip(p@);
}

/// The times shipped with the app, in minutes after midnight, in the order
/// they read on a clock.
pub open spec fn default_minutes() -> Seq<int> {
    seq![420int, 540, 720, 960, 1080, 1380]
}

pub open spec fn preset_views(v: Seq<TimePreset>) -> Seq<int> {
    Seq::new(v.len(), |i: int| v[i]@)
}

pub fn default_time_presets() -> (v: Vec<TimePreset>)
    ensures
        preset_views(v@) == default_minutes(),
{
    let mut v: Vec<TimePreset> = Vec::new();
    v.push(TimePreset::from_minutes(7 * 60));
    v.push(TimePreset::from_minutes(9 * 60));
    v.push(TimePreset::from_minutes(12 * 60));
    v.push(TimePreset::from_minutes(16 * 60));
    v.push(TimePreset::from_minutes(18 * 60));
    v.push(TimePreset::from_minutes(23 * 60));
    assert(preset_views(v@) =~= default_minutes());
    v
}

/// Strictly increasing: sorted, with nothing twice.
pub open spec fn strictly_increasing(s: Seq<int>) -> bool {
    forall|i: int, j: int| 0 <= i < j < s.len() ==> s[i] < s[j]
}

/// Inserts a value into a strictly increasing vector, keeping it so.
fn insert_sorted(v: &mut Vec<TimePreset>, p: TimePreset)
    requires
        strictly_increasing(preset_views(old(v)@)),
    ensures
        strictly_increasing(preset_views(final(v)@)),
        preset_views(final(v)@).to_set() == preset_views(old(v)@).to_set().insert(p@),
{
    let ghost before = preset_views(v@);
    let mut i: usize = 0;
    while i < v.len() && v[i].minutes_from_midnight < p.minutes_from_midnight
        invariant
            i <= v@.len(),
            v@ == old(v)@,
            before == preset_views(v@),
            strictly_increasing(before),
            forall|j: int| 0 <= j < i ==> before[j] < p@,
        decreases v.len() - i,
    {
        i = i + 1;
    }
    if i < v.len() && v[i].minutes_from_midnight == p.minutes_from_midnight {
        assert(before.to_set() =~= before.to_set().insert(p@)) by {
            assert(before[i as int] == p@);
        }
        return;
    }
    v.insert(i, p);
    let ghost after = preset_views(v@);
    assert(after =~= before.insert(i as int, p@));
    assert forall|a: int, b: int| 0 <= a < b < after.len() implies after[a] < after[b] by {
        if b < i {
        } else if b == i {
        } else if a < i {
            assert(after[a] == before[a]);
            assert(after[b] == before[b - 1]);
            assert(before[i as int] > p@);
            if b - 1 > i {
                assert(before[i as int] < before[b - 1]);
            }
        } else if a == i {
            assert(after[b] == before[b - 1]);
            assert(before[i as int] > p@);
            if b - 1 > i {
                assert(before[i as int] < before[b - 1]);
            }
        } else {
        }
    }
    assert(after.to_set() =~= before.to_set().insert(p@)) by {
        assert forall|x: int| after.to_set().contains(x) implies before.to_set().insert(
            p@,
        ).contains(x) by {
            let k = choose|k: int| 0 <= k < after.len() && after[k] == x;
            if k < i {
                assert(before[k] == x);
            } else if k > i {
                assert(before[k - 1] == x);
            }
        }
        assert forall|x: int| before.to_set().insert(p@).contains(x) implies after.to_set().contains(
            x,
        ) by {
            if x == p@ {
                assert(after[i as int] == x);
            } else {
                let k = choose|k: int| 0 <= k < before.len() && before[k] == x;
                if k < i {
                    assert(after[k] == x);
                } else {
                    assert(after[k + 1] == x);
                }
            }
        }
    }
}

pub open spec fn str_views(v: Seq<&str>) -> Seq<Seq<char>> {
    Seq::new(v.len(), |i: int| v[i]@)
}

/// Some text in the list names the time `x` minutes after midnight.
pub open spec fn names_time(texts: Seq<Seq<char>>, x: int) -> bool {
    exists|i: int| 0 <= i < texts.len() && clock_minutes(#[trigger] texts[i]) == Some(x)
}

/// Every text in the list is a real `HH:MM`.
pub open spec fn all_times(texts: Seq<Seq<char>>) -> bool {
    forall|i: int| 0 <= i < texts.len() ==> clock_minutes(#[trigger] texts[i]) is Some
}

/// `s` lists exactly the times the texts name, each once, in order.
pub open spec fn canonical_times(s: Seq<int>, texts: Seq<Seq<char>>) -> bool {
    &&& strictly_increasing(s)
    &&& forall|x: int| #[trigger] s.contains(x) <==> names_time(texts, x)
}

/// Turns client-supplied times into the canonical set to store: sorted, with
/// nothing twice.
///
/// # Errors
/// Returns a validation error when a value is not a real `HH:MM` time or when
/// there are more distinct ones than [`MAX_TIME_PRESETS`].
pub fn normalise(values: &[&str]) -> (r: AppResult<Vec<TimePreset>>)
    ensures
        match r {
            Ok(v) => {
                &&& all_times(str_views(values@))
                &&& canonical_times(preset_views(v@), str_views(values@))
                &&& v@.len() <= MAX_TIME_PRESETS
            },
            Err(e) => {
                &&& e == invalid_presets()
                &&& !all_times(str_views(values@)) || exists|s: Seq<int>|
                    #[trigger] canonical_times(s, str_views(values@)) && s.len() > MAX_TIME_PRESETS
            },
        },
{
    let ghost texts = str_views(values@);
    let mut presets: Vec<TimePreset> = Vec::new();
    let mut i: usize = 0;
    while i < values.len()
        invariant
            i <= values@.len(),
            texts == str_views(values@),
            all_times(texts.take(i as int)),
            canonical_times(preset_views(presets@), texts.take(i as int)),
        decreases values.len() - i,
    {
        let p = match TimePreset::parse(values[i]) {
            Ok(p) => p,
            Err(e) => {
                assert(clock_minutes(texts[i as int]) is None);
                return Err(e);
            },
        };
        let ghost before = preset_views(presets@);
        insert_sorted(&mut presets, p);
        proof {
            let now_texts = texts.take(i as int + 1);
            assert forall|k: int| 0 <= k < now_texts.len() implies clock_minutes(
                #[trigger] now_texts[k],
            ) is Some by {
                if k < i {
                    assert(now_texts[k] == texts.take(i as int)[k]);
                }
            }
            assert forall|x: int| #[trigger] preset_views(presets@).contains(x) <==> names_time(
                now_texts,
                x,
            ) by {
                if preset_views(presets@).contains(x) {
                    assert(preset_views(presets@).to_set().contains(x));
                    if x == p@ {
                        assert(now_texts[i as int] == texts[i as int]);
                        assert(clock_minutes(now_texts[i as int]) == Some(x));
                    } else {
                        assert(before.to_set().contains(x));
                        assert(before.contains(x));
                        assert(names_time(texts.take(i as int), x));
                        let j = choose|j: int|
                            0 <= j < texts.take(i as int).len() && clock_minutes(
                                #[trigger] texts.take(i as int)[j],
                            ) == Some(x);
                        assert(now_texts[j] == texts.take(i as int)[j]);
                    }
                }
                if names_time(now_texts, x) {
                    let j = choose|j: int|
                        0 <= j < now_texts.len() && clock_minutes(#[trigger] now_texts[j]) == Some(
                            x,
                        );
                    if j == i {
                        assert(x == p@);
                        assert(preset_views(presets@).to_set().contains(x));
                    } else {
                        assert(now_texts[j] == texts.take(i as int)[j]);
                        assert(names_time(texts.take(i as int), x));
                        assert(before.contains(x));
                        assert(before.to_set().contains(x));
                        assert(preset_views(presets@).to_set().contains(x));
                    }
                }
            }
        }
        i = i + 1;
    }
    assert(texts.take(values@.len() as int) =~= texts);
    if presets.len() > MAX_TIME_PRESETS {
        assert(canonical_times(preset_views(presets@), texts));
        return Err(invalid("time_presets"));
    }
    Ok(presets)
}

/// What `serde_json::from_str::<Vec<String>>` reads out of a text: the array
/// of strings it holds, or `None` when the text is not one.
pub uninterp spec fn json_string_array(raw: Seq<char>) -> Option<Seq<Seq<char>>>;

/// What `serde_json::to_string` writes for an array of strings.
pub uninterp spec fn json_of_strings(items: Seq<Seq<char>>) -> Option<Seq<char>>;

pub open spec fn string_views(v: Seq<String>) -> Seq<Seq<char>> {
    Seq::new(v.len(), |i: int| v[i]@)
}

/// `serde_json::from_str::<Vec<String>>`.
#[verifier::external_body]
fn read_string_array(raw: &str) -> (r: Option<Vec<String>>)
    ensures
        match r {
            Some(v) => json_string_array(raw@) == Some(string_views(v@)),
            None => json_string_array(raw@) is None,
        },
{
    serde_json::from_str::<Vec<String>>(raw).ok()
}

/// `serde_json::to_string` of an array of strings.
#[verifier::external_body]
fn write_string_array(items: &Vec<String>) -> (r: Option<String>)
    ensures
        match r {
            Some(s) => json_of_strings(string_views(items@)) == Some(s@),
            None => json_of_strings(string_views(items@)) is None,
        },
{
    serde_json::to_string(items).ok()
}

/// Reads the stored setting, falling back to the shipped times when unset.
///
/// # Errors
/// Returns a validation error when the stored value is not the JSON array of
/// `HH:MM` strings this module writes.
pub fn parse_stored(raw: Option<&str>) -> (r: AppResult<Vec<TimePreset>>)
    ensures
        raw is None ==> (r matches Ok(v) && preset_views(v@) == default_minutes()),
        raw matches Some(text) ==> (json_string_array(text@) is None ==> r == Err::<
            Vec<TimePreset>,
            AppError,
        >(invalid_presets())),
        raw matches Some(text) ==> (json_string_array(text@) matches Some(items) ==> match r {
            Ok(v) => all_times(items) && canonical_times(preset_views(v@), items) && v@.len()
                <= MAX_TIME_PRESETS,
            Err(e) => e == invalid_presets() && (!all_times(items) || exists|s: Seq<int>|
                #[trigger] canonical_times(s, items) && s.len() > MAX_TIME_PRESETS),
        }),
{
    match raw {
        None => Ok(default_time_presets()),
        Some(text) => {
            let values = match read_string_array(text) {
                Some(v) => v,
                None => {
                    return Err(invalid("time_presets"));
                },
            };
            let mut borrowed: Vec<&str> = Vec::new();
            let mut i: usize = 0;
            while i < values.len()
                invariant
                    i <= values@.len(),
                    borrowed@.len() == i,
                    forall|j: int| 0 <= j < i ==> (#[trigger] borrowed@[j])@ == values@[j]@,
                decreases values.len() - i,
            {
                borrowed.push(values[i].as_str());
                i = i + 1;
            }
            assert(str_views(borrowed@) =~= string_views(values@));
            normalise(&borrowed)
        },
    }
}

/// # Errors
/// Returns a validation error only if writing a list of strings fails.
pub fn serialise(presets: &[TimePreset]) -> (r: AppResult<String>)
    ensures
        match r {
            Ok(s) => json_of_strings(Seq::new(presets@.len(), |i: int| clock_label(presets@[i]@)))
                == Some(s@),
            Err(e) => e == invalid_presets() && json_of_strings(
                Seq::new(presets@.len(), |i: int| clock_label(presets@[i]@)),
            ) is None,
        },
{
    let mut labels: Vec<String> = Vec::new();
    let mut i: usize = 0;
    while i < presets.len()
        invariant
            i <= presets@.len(),
            labels@.len() == i,
            string_views(labels@) == Seq::new(i as nat, |k: int| clock_label(presets@[k]@)),
        decreases presets.len() - i,
    {
        let label = presets[i].label();
        let ghost before = labels@;
        labels.push(label);
        assert(labels@[i as int]@ == clock_label(presets@[i as int]@));
        assert(string_views(labels@) =~= Seq::new((i + 1) as nat, |k: int| clock_label(presets@[k]@))) by {
            assert forall|k: int| 0 <= k < i + 1 implies string_views(labels@)[k] == clock_label(presets@[k]@) by {
                if k < i {
                    assert(labels@[k] == before[k]);
                    assert(string_views(before)[k] == clock_label(presets@[k]@));
                }
            }
        }
        i = i + 1;
    }
    assert(string_views(labels@) =~= Seq::new(presets@.len(), |k: int| clock_label(presets@[k]@)));
    match write_string_array(&labels) {
        Some(s) => Ok(s),
        None => Err(invalid("time_presets")),
    }
}

} // verus!
