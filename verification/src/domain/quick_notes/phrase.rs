//! Turning a dictated sentence into a title and an instant.
//!
//! The recogniser hands over one line of text — «встреча. 15:00», "meeting
//! tomorrow at 9", «купить молоко» — and this module answers two questions
//! about it: what should the note be called, and when was it for.
//!
//! **What is understood.** A clock time in digits (`15:00`, `15.30`, «в 15»,
//! «в 15 30», «в 15 часов 30 минут», «в 9 утра», "at 9 pm") or in words («в три
//! часа», «полвторого», «в половине третьего», «без пятнадцати шесть»,
//! «полдень», "half past three", "quarter to six"); a relative day (сегодня /
//! завтра / послезавтра, today / tomorrow); a weekday («в понедельник», "on
//! monday"); a part of the day with no hour in it («завтра утром» → 09:00); and
//! a distance from now («через 20 минут», «через час», "in 2 hours").
//!
//! **Digits and words are placed differently, on purpose.** `15:00` says which
//! hour of twenty-four it is and is taken at its word. «В три» does not, so a
//! spoken hour is read as the daytime one and, if that has gone, as its twin
//! twelve hours away.
//!
//! **What is not.** Calendar dates and repeats stay in the title rather than
//! being guessed at, and so do numbers that are not times at all — «на 20
//! минут», «в 2 раза больше», «встреча 12.03».

use vstd::prelude::*;

use crate::domain::calendar::{
    add_days, add_minutes, date_plus_days, earliest_instant, earliest_instant_at,
    days_from_civil, first_day, last_day, reading_plus_minutes, valid_date, weekday, weekday_of,
    zone_reading, CivilDate, LocalDateTime,
};
use crate::domain::clock::{clamp_i64, Timestamp, Zone};
use crate::domain::quick_notes::numbers::{
    cardinal_chars, cardinal_of, half_of_chars, half_of_spec, is_tens, is_tens_spec,
    lemma_cardinal_bound, lemma_ordinal_bound, named_hour_chars, named_hour_of, ordinal_chars,
    ordinal_of, part_of_day_chars, part_of_day_of,
};
use crate::domain::reminders::time_presets::TimePreset;
use crate::error::{invalid, AppError, AppResult, ValidationError};
use crate::text::{
    all_ascii_digits, alphanumeric, append_chars, chars_of, copy_range, digits_value, eq_str,
    index_of, index_of_from, is_alphanumeric, is_numeric, join_chars, join_with, lowercase,
    lowercase_chars, numeric, string_of, take_chars, take_prefix, trim, trim_chars,
    uppercase_char, uppercase_of, vviews,
};

verus! {

/// Longest title a dictated phrase produces.
pub const MAX_SPOKEN_TITLE_LEN: usize = 120;

/// What a phrase was read as.
#[derive(Clone, Debug, PartialEq, Eq)]
pub struct ParsedPhrase {
    /// What the note is called: the phrase with the time words taken out.
    pub title: String,
    /// The instant the phrase pointed at, or `None` when it named no time.
    pub named_at: Option<Timestamp>,
    /// True when a clock time was said, false when only a day, a part of the
    /// day or a distance from now was — the difference decides whether the
    /// lead applies.
    pub named_clock_time: bool,
}

pub ghost struct PhraseView {
    pub title: Seq<char>,
    pub named_at: Option<Timestamp>,
    pub named_clock_time: bool,
}

impl ParsedPhrase {
    pub open spec fn view(self) -> PhraseView {
        PhraseView { title: self.title@, named_at: self.named_at, named_clock_time: self.named_clock_time }
    }
}

// ---------------------------------------------------------------------------
// Words
// ---------------------------------------------------------------------------

/// Which half of the day a part-of-day word puts an hour on.
#[derive(Clone, Copy, PartialEq, Eq, Debug, Structural)]
pub enum Meridiem {
    Morning,
    Evening,
    Night,
}

pub open spec fn is_distance_word(w: Seq<char>) -> bool {
    w == "через"@
    || w == "in"@
}

fn is_distance_word_chars(w: &[char]) -> (b: bool)
    ensures
        b == is_distance_word(w@),
{
    eq_str(w, "через")
        || eq_str(w, "in")
}

pub open spec fn is_time_preposition(w: Seq<char>) -> bool {
    w == "в"@
    || w == "во"@
    || w == "к"@
    || w == "ко"@
    || w == "на"@
    || w == "at"@
    || w == "on"@
    || w == "by"@
}

fn is_time_preposition_chars(w: &[char]) -> (b: bool)
    ensures
        b == is_time_preposition(w@),
{
    eq_str(w, "в")
        || eq_str(w, "во")
        || eq_str(w, "к")
        || eq_str(w, "ко")
        || eq_str(w, "на")
        || eq_str(w, "at")
        || eq_str(w, "on")
        || eq_str(w, "by")
}

pub open spec fn vouches_bare_hour(w: Seq<char>) -> bool {
    w == "в"@
    || w == "во"@
    || w == "к"@
    || w == "ко"@
    || w == "at"@
}

fn vouches_bare_hour_chars(w: &[char]) -> (b: bool)
    ensures
        b == vouches_bare_hour(w@),
{
    eq_str(w, "в")
        || eq_str(w, "во")
        || eq_str(w, "к")
        || eq_str(w, "ко")
        || eq_str(w, "at")
}

pub open spec fn is_counted_noun(w: Seq<char>) -> bool {
    w == "раз"@
    || w == "раза"@
    || w == "разa"@
    || w == "число"@
    || w == "числа"@
    || w == "штук"@
    || w == "штуки"@
    || w == "штуку"@
    || w == "процентов"@
    || w == "процента"@
    || w == "рублей"@
    || w == "человек"@
    || w == "билета"@
    || w == "билетов"@
    || w == "times"@
    || w == "pieces"@
    || w == "people"@
}

fn is_counted_noun_chars(w: &[char]) -> (b: bool)
    ensures
        b == is_counted_noun(w@),
{
    eq_str(w, "раз")
        || eq_str(w, "раза")
        || eq_str(w, "разa")
        || eq_str(w, "число")
        || eq_str(w, "числа")
        || eq_str(w, "штук")
        || eq_str(w, "штуки")
        || eq_str(w, "штуку")
        || eq_str(w, "процентов")
        || eq_str(w, "процента")
        || eq_str(w, "рублей")
        || eq_str(w, "человек")
        || eq_str(w, "билета")
        || eq_str(w, "билетов")
        || eq_str(w, "times")
        || eq_str(w, "pieces")
        || eq_str(w, "people")
}

pub open spec fn is_hour_unit(w: Seq<char>) -> bool {
    w == "час"@
    || w == "часа"@
    || w == "часов"@
    || w == "hour"@
    || w == "hours"@
    || w == "o'clock"@
    || w == "o\u{2019}clock"@
    || w == "oclock"@
}

fn is_hour_unit_chars(w: &[char]) -> (b: bool)
    ensures
        b == is_hour_unit(w@),
{
    eq_str(w, "час")
        || eq_str(w, "часа")
        || eq_str(w, "часов")
        || eq_str(w, "hour")
        || eq_str(w, "hours")
        || eq_str(w, "o'clock")
        || eq_str(w, "o\u{2019}clock")
        || eq_str(w, "oclock")
}

pub open spec fn is_minute_unit(w: Seq<char>) -> bool {
    w == "мин"@
    || w == "минут"@
    || w == "минуты"@
    || w == "минуту"@
    || w == "min"@
    || w == "minute"@
    || w == "minutes"@
}

fn is_minute_unit_chars(w: &[char]) -> (b: bool)
    ensures
        b == is_minute_unit(w@),
{
    eq_str(w, "мин")
        || eq_str(w, "минут")
        || eq_str(w, "минуты")
        || eq_str(w, "минуту")
        || eq_str(w, "min")
        || eq_str(w, "minute")
        || eq_str(w, "minutes")
}

pub open spec fn is_half_word(w: Seq<char>) -> bool {
    w == "пол"@
    || w == "половина"@
    || w == "половине"@
    || w == "половины"@
}

fn is_half_word_chars(w: &[char]) -> (b: bool)
    ensures
        b == is_half_word(w@),
{
    eq_str(w, "пол")
        || eq_str(w, "половина")
        || eq_str(w, "половине")
        || eq_str(w, "половины")
}

pub open spec fn is_article(w: Seq<char>) -> bool {
    w == "a"@
    || w == "an"@
}

fn is_article_chars(w: &[char]) -> (b: bool)
    ensures
        b == is_article(w@),
{
    eq_str(w, "a")
        || eq_str(w, "an")
}

pub open spec fn is_hour_word(w: Seq<char>) -> bool {
    w == "час"@
    || w == "часа"@
    || w == "часов"@
}

fn is_hour_word_chars(w: &[char]) -> (b: bool)
    ensures
        b == is_hour_word(w@),
{
    eq_str(w, "час")
        || eq_str(w, "часа")
        || eq_str(w, "часов")
}

pub open spec fn is_day_preposition(w: Seq<char>) -> bool {
    w == "в"@
    || w == "во"@
    || w == "on"@
}

fn is_day_preposition_chars(w: &[char]) -> (b: bool)
    ensures
        b == is_day_preposition(w@),
{
    eq_str(w, "в")
        || eq_str(w, "во")
        || eq_str(w, "on")
}

pub open spec fn leads_into_part_of_day(w: Seq<char>) -> bool {
    w == "в"@
    || w == "во"@
    || w == "с"@
    || w == "со"@
    || w == "под"@
    || w == "in"@
    || w == "the"@
    || w == "at"@
}

fn leads_into_part_of_day_chars(w: &[char]) -> (b: bool)
    ensures
        b == leads_into_part_of_day(w@),
{
    eq_str(w, "в")
        || eq_str(w, "во")
        || eq_str(w, "с")
        || eq_str(w, "со")
        || eq_str(w, "под")
        || eq_str(w, "in")
        || eq_str(w, "the")
        || eq_str(w, "at")
}

pub open spec fn is_half_half(w: Seq<char>) -> bool {
    w == "half"@
}

fn is_half_half_chars(w: &[char]) -> (b: bool)
    ensures
        b == is_half_half(w@),
{
    eq_str(w, "half")
}

pub open spec fn is_past(w: Seq<char>) -> bool {
    w == "past"@
}

fn is_past_chars(w: &[char]) -> (b: bool)
    ensures
        b == is_past(w@),
{
    eq_str(w, "past")
}

pub open spec fn is_to(w: Seq<char>) -> bool {
    w == "to"@
}

fn is_to_chars(w: &[char]) -> (b: bool)
    ensures
        b == is_to(w@),
{
    eq_str(w, "to")
}

pub open spec fn is_half_hour_word(w: Seq<char>) -> bool {
    w == "полчаса"@
}

fn is_half_hour_word_chars(w: &[char]) -> (b: bool)
    ensures
        b == is_half_hour_word(w@),
{
    eq_str(w, "полчаса")
}

pub open spec fn is_without(w: Seq<char>) -> bool {
    w == "без"@
}

fn is_without_chars(w: &[char]) -> (b: bool)
    ensures
        b == is_without(w@),
{
    eq_str(w, "без")
}

pub open spec fn unit_minutes_of(w: Seq<char>) -> Option<i64> {
    if w == "мин"@ || w == "минуту"@ || w == "минуты"@ || w == "минут"@ || w == "минуток"@ || w == "min"@ || w == "minute"@ || w == "minutes"@ {
        Some(1i64)
    } else if w == "час"@ || w == "часа"@ || w == "часов"@ || w == "hour"@ || w == "hours"@ {
        Some(60i64)
    } else if w == "день"@ || w == "дня"@ || w == "дней"@ || w == "day"@ || w == "days"@ {
        Some(1440i64)
    } else if w == "неделю"@ || w == "недели"@ || w == "недель"@ || w == "week"@ || w == "weeks"@ {
        Some(10080i64)
    } else {
        None
    }
}

fn unit_minutes_chars(w: &[char]) -> (r: Option<i64>)
    ensures
        r == unit_minutes_of(w@),
{
    if eq_str(w, "мин") || eq_str(w, "минуту") || eq_str(w, "минуты") || eq_str(w, "минут") || eq_str(w, "минуток") || eq_str(w, "min") || eq_str(w, "minute") || eq_str(w, "minutes") {
        Some(1i64)
    } else if eq_str(w, "час") || eq_str(w, "часа") || eq_str(w, "часов") || eq_str(w, "hour") || eq_str(w, "hours") {
        Some(60i64)
    } else if eq_str(w, "день") || eq_str(w, "дня") || eq_str(w, "дней") || eq_str(w, "day") || eq_str(w, "days") {
        Some(1440i64)
    } else if eq_str(w, "неделю") || eq_str(w, "недели") || eq_str(w, "недель") || eq_str(w, "week") || eq_str(w, "weeks") {
        Some(10080i64)
    } else {
        None
    }
}

pub open spec fn meridiem_of(w: Seq<char>) -> Option<Meridiem> {
    if w == "утра"@ || w == "утром"@ || w == "am"@ || w == "morning"@ {
        Some(Meridiem::Morning)
    } else if w == "дня"@ || w == "вечера"@ || w == "вечером"@ || w == "pm"@ || w == "evening"@ {
        Some(Meridiem::Evening)
    } else if w == "ночи"@ || w == "ночью"@ || w == "night"@ {
        Some(Meridiem::Night)
    } else {
        None
    }
}

fn meridiem_chars(w: &[char]) -> (r: Option<Meridiem>)
    ensures
        r == meridiem_of(w@),
{
    if eq_str(w, "утра") || eq_str(w, "утром") || eq_str(w, "am") || eq_str(w, "morning") {
        Some(Meridiem::Morning)
    } else if eq_str(w, "дня") || eq_str(w, "вечера") || eq_str(w, "вечером") || eq_str(w, "pm") || eq_str(w, "evening") {
        Some(Meridiem::Evening)
    } else if eq_str(w, "ночи") || eq_str(w, "ночью") || eq_str(w, "night") {
        Some(Meridiem::Night)
    } else {
        None
    }
}

pub open spec fn weekday_word_of(w: Seq<char>) -> Option<u32> {
    if w == "понедельник"@ || w == "monday"@ {
        Some(0u32)
    } else if w == "вторник"@ || w == "tuesday"@ {
        Some(1u32)
    } else if w == "среда"@ || w == "среду"@ || w == "wednesday"@ {
        Some(2u32)
    } else if w == "четверг"@ || w == "thursday"@ {
        Some(3u32)
    } else if w == "пятница"@ || w == "пятницу"@ || w == "friday"@ {
        Some(4u32)
    } else if w == "суббота"@ || w == "субботу"@ || w == "saturday"@ {
        Some(5u32)
    } else if w == "воскресенье"@ || w == "воскресение"@ || w == "sunday"@ {
        Some(6u32)
    } else {
        None
    }
}

fn weekday_word_chars(w: &[char]) -> (r: Option<u32>)
    ensures
        r == weekday_word_of(w@),
{
    if eq_str(w, "понедельник") || eq_str(w, "monday") {
        Some(0u32)
    } else if eq_str(w, "вторник") || eq_str(w, "tuesday") {
        Some(1u32)
    } else if eq_str(w, "среда") || eq_str(w, "среду") || eq_str(w, "wednesday") {
        Some(2u32)
    } else if eq_str(w, "четверг") || eq_str(w, "thursday") {
        Some(3u32)
    } else if eq_str(w, "пятница") || eq_str(w, "пятницу") || eq_str(w, "friday") {
        Some(4u32)
    } else if eq_str(w, "суббота") || eq_str(w, "субботу") || eq_str(w, "saturday") {
        Some(5u32)
    } else if eq_str(w, "воскресенье") || eq_str(w, "воскресение") || eq_str(w, "sunday") {
        Some(6u32)
    } else {
        None
    }
}

pub open spec fn day_offset_of(w: Seq<char>) -> Option<i64> {
    if w == "сегодня"@ || w == "today"@ {
        Some(0i64)
    } else if w == "завтра"@ || w == "tomorrow"@ {
        Some(1i64)
    } else if w == "послезавтра"@ {
        Some(2i64)
    } else {
        None
    }
}

fn day_offset_chars(w: &[char]) -> (r: Option<i64>)
    ensures
        r == day_offset_of(w@),
{
    if eq_str(w, "сегодня") || eq_str(w, "today") {
        Some(0i64)
    } else if eq_str(w, "завтра") || eq_str(w, "tomorrow") {
        Some(1i64)
    } else if eq_str(w, "послезавтра") {
        Some(2i64)
    } else {
        None
    }
}

// ---------------------------------------------------------------------------
// Tokens
// ---------------------------------------------------------------------------

/// One word of the phrase, kept twice: as it was said, for the title, and
/// folded to lowercase, for matching.
pub struct Token {
    pub text: Vec<char>,
    pub lower: Vec<char>,
    /// The value when the whole token is a run of at most four digits.
    pub number: Option<u32>,
}

pub ghost struct TokenView {
    pub text: Seq<char>,
    pub lower: Seq<char>,
    pub number: Option<u32>,
}

pub open spec fn token_view(t: Token) -> TokenView {
    TokenView { text: t.text@, lower: t.lower@, number: t.number }
}

pub open spec fn token_views(v: Seq<Token>) -> Seq<TokenView> {
    Seq::new(v.len(), |i: int| token_view(v[i]))
}

/// The characters that keep a word together: letters and digits, and the
/// marks that hold times and contractions together.
pub open spec fn is_word_char(c: char) -> bool {
    alphanumeric(c) || c == ':' || c == '.' || c == '-' || c == '\'' || c == '\u{2019}'
}

pub open spec fn is_edge_mark(c: char) -> bool {
    c == ':' || c == '.' || c == '-'
}

/// The text cut at every character that is not part of a word.
pub open spec fn word_fields(s: Seq<char>) -> Seq<Seq<char>>
    decreases s.len(),
{
    if s.len() == 0 {
        seq![Seq::<char>::empty()]
    } else {
        let prev = word_fields(s.drop_last());
        if !is_word_char(s.last()) {
            prev.push(Seq::<char>::empty())
        } else {
            prev.drop_last().push(prev.last().push(s.last()))
        }
    }
}

/// A field with `:`, `.` and `-` taken off both ends.
pub open spec fn strip_marks_start(s: Seq<char>) -> Seq<char>
    decreases s.len(),
{
    if s.len() > 0 && is_edge_mark(s[0]) {
        strip_marks_start(s.drop_first())
    } else {
        s
    }
}

pub open spec fn strip_marks_end(s: Seq<char>) -> Seq<char>
    decreases s.len(),
{
    if s.len() > 0 && is_edge_mark(s.last()) {
        strip_marks_end(s.drop_last())
    } else {
        s
    }
}

pub open spec fn strip_marks(s: Seq<char>) -> Seq<char> {
    strip_marks_end(strip_marks_start(s))
}

/// The fields, stripped, with the empty ones dropped.
pub open spec fn stripped_words(fields: Seq<Seq<char>>) -> Seq<Seq<char>>
    decreases fields.len(),
{
    if fields.len() == 0 {
        Seq::empty()
    } else {
        let prev = stripped_words(fields.drop_last());
        let w = strip_marks(fields.last());
        if w.len() > 0 {
            prev.push(w)
        } else {
            prev
        }
    }
}

pub open spec fn phrase_words(s: Seq<char>) -> Seq<Seq<char>> {
    stripped_words(word_fields(s))
}

/// The number a word is when it is nothing but up to four digits.
pub open spec fn word_number(w: Seq<char>) -> Option<u32> {
    if 0 < w.len() <= 4 && all_ascii_digits(w) {
        Some(digits_value(w) as u32)
    } else {
        None
    }
}

pub open spec fn token_of(w: Seq<char>) -> TokenView {
    TokenView { text: w, lower: lowercase(w), number: word_number(w) }
}

/// The tokens of a transcript.
pub open spec fn phrase_tokens(s: Seq<char>) -> Seq<TokenView> {
    Seq::new(phrase_words(s).len(), |i: int| token_of(phrase_words(s)[i]))
}

proof fn lemma_digits_value_bound(s: Seq<char>)
    requires
        all_ascii_digits(s),
    ensures
        digits_value(s) < pow10(s.len()),
    decreases s.len(),
{
    if s.len() > 0 {
        assert(all_ascii_digits(s.drop_last()));
        lemma_digits_value_bound(s.drop_last());
        let d = ((s.last() as u32) - 48) as nat;
        assert(d < 10);
        assert(digits_value(s.drop_last()) * 10 + d < pow10(s.len())) by (nonlinear_arith)
            requires
                digits_value(s.drop_last()) < pow10((s.len() - 1) as nat),
                d < 10,
                pow10(s.len()) == pow10((s.len() - 1) as nat) * 10,
        ;
    }
}

pub open spec fn pow10(n: nat) -> nat
    decreases n,
{
    if n == 0 {
        1
    } else {
        pow10((n - 1) as nat) * 10
    }
}

fn number_of_word(w: &[char]) -> (r: Option<u32>)
    ensures
        r == word_number(w@),
{
    if w.len() == 0 || w.len() > 4 {
        return None;
    }
    let mut value: u32 = 0;
    let mut i: usize = 0;
    while i < w.len()
        invariant
            0 < w@.len() <= 4,
            i <= w@.len(),
            all_ascii_digits(w@.take(i as int)),
            value == digits_value(w@.take(i as int)),
            value < pow10(i as nat),
        decreases w.len() - i,
    {
        let c = w[i];
        if !('0' <= c && c <= '9') {
            assert(!all_ascii_digits(w@)) by {
                assert(w@[i as int] == c);
            }
            return None;
        }
        let ghost before = w@.take(i as int);
        assert(w@.take(i as int + 1).drop_last() =~= before);
        assert(pow10((i + 1) as nat) == pow10(i as nat) * 10);
        assert(pow10(i as nat) <= 1000) by {
            assert(pow10(0) == 1);
            assert(pow10(1) == 10);
            assert(pow10(2) == 100);
            assert(pow10(3) == 1000);
        }
        value = value * 10 + ((c as u32) - 48);
        i = i + 1;
        assert(all_ascii_digits(w@.take(i as int))) by {
            assert forall|j: int| 0 <= j < w@.take(i as int).len() implies '0' <= #[trigger] w@.take(
                i as int,
            )[j] && w@.take(i as int)[j] <= '9' by {
                if j < i - 1 {
                    assert(w@.take(i as int)[j] == before[j]);
                }
            }
        }
        proof {
            lemma_digits_value_bound(w@.take(i as int));
        }
    }
    assert(w@.take(w@.len() as int) =~= w@);
    Some(value)
}

proof fn lemma_strip_start_suffix(s: Seq<char>, i: int)
    requires
        0 <= i <= s.len(),
        forall|j: int| 0 <= j < i ==> #[trigger] is_edge_mark(s[j]),
    ensures
        strip_marks_start(s) == strip_marks_start(s.subrange(i, s.len() as int)),
    decreases i,
{
    if i > 0 {
        assert(s.drop_first() =~= s.subrange(1, s.len() as int));
        lemma_strip_start_suffix(s.drop_first(), i - 1);
        assert(s.drop_first().subrange(i - 1, s.drop_first().len() as int) =~= s.subrange(
            i,
            s.len() as int,
        ));
    } else {
        assert(s.subrange(0, s.len() as int) =~= s);
    }
}

proof fn lemma_strip_end_prefix(s: Seq<char>, k: int)
    requires
        0 <= k <= s.len(),
        forall|j: int| k <= j < s.len() ==> #[trigger] is_edge_mark(s[j]),
    ensures
        strip_marks_end(s) == strip_marks_end(s.subrange(0, k)),
    decreases s.len() - k,
{
    if k < s.len() {
        assert(s.drop_last() =~= s.subrange(0, s.len() - 1));
        lemma_strip_end_prefix(s.drop_last(), k);
        assert(s.drop_last().subrange(0, k) =~= s.subrange(0, k));
    } else {
        assert(s.subrange(0, k) =~= s);
    }
}

fn is_edge_mark_char(c: char) -> (b: bool)
    ensures
        b == is_edge_mark(c),
{
    c == ':' || c == '.' || c == '-'
}

fn strip_marks_chars(s: &[char]) -> (out: Vec<char>)
    ensures
        out@ == strip_marks(s@),
{
    let n = s.len();
    let mut start: usize = 0;
    while start < n && is_edge_mark_char(s[start])
        invariant
            start <= n == s@.len(),
            forall|j: int| 0 <= j < start ==> #[trigger] is_edge_mark(s@[j]),
        decreases n - start,
    {
        start = start + 1;
    }
    proof {
        lemma_strip_start_suffix(s@, start as int);
    }
    let mut end: usize = n;
    while end > start && is_edge_mark_char(s[end - 1])
        invariant
            start <= end <= n == s@.len(),
            forall|j: int| end <= j < n ==> #[trigger] is_edge_mark(s@[j]),
        decreases end,
    {
        end = end - 1;
    }
    let ghost rest = s@.subrange(start as int, n as int);
    proof {
        if start < n {
            assert(!is_edge_mark(rest[0]));
            assert(strip_marks_start(rest) == rest);
        } else {
            assert(rest.len() == 0);
        }
        assert forall|j: int| end - start <= j < rest.len() implies #[trigger] is_edge_mark(
            rest[j],
        ) by {
            assert(rest[j] == s@[j + start]);
        }
        lemma_strip_end_prefix(rest, end - start);
        assert(rest.subrange(0, end - start) =~= s@.subrange(start as int, end as int));
        let kept = s@.subrange(start as int, end as int);
        if end > start {
            assert(!is_edge_mark(kept.last()));
        }
        assert(strip_marks_end(kept) == kept);
    }
    copy_range(s, start, end)
}

fn is_word_char_exec(c: char) -> (b: bool)
    ensures
        b == is_word_char(c),
{
    is_alphanumeric(c) || c == ':' || c == '.' || c == '-' || c == '\'' || c == '\u{2019}'
}

/// Turns one finished field into a token, when anything is left of it.
fn finish_field(out: &mut Vec<Token>, field: &Vec<char>)
    ensures
        token_views(final(out)@) == (if strip_marks(field@).len() > 0 {
            token_views(old(out)@).push(token_of(strip_marks(field@)))
        } else {
            token_views(old(out)@)
        }),
{
    let word = strip_marks_chars(field);
    if word.len() > 0 {
        let lower = lowercase_chars(&word);
        let number = number_of_word(&word);
        let ghost before = out@;
        out.push(Token { text: word, lower, number });
        assert(token_views(out@) =~= token_views(before).push(token_of(strip_marks(field@))));
    }
}

/// Splits on everything that is not part of a word, trims `:`, `.` and `-`
/// off the ends of each piece, and drops what is left empty.
pub fn tokenise(text: &[char]) -> (out: Vec<Token>)
    ensures
        token_views(out@) == phrase_tokens(text@),
{
    let mut out: Vec<Token> = Vec::new();
    let mut cur: Vec<char> = Vec::new();
    let ghost mut done: Seq<Seq<char>> = Seq::empty();
    let n = text.len();
    let mut i: usize = 0;
    assert(text@.take(0) =~= Seq::<char>::empty());
    assert(token_views(out@) =~= Seq::new(0, |k: int| token_of(stripped_words(done)[k])));
    while i < n
        invariant
            i <= n == text@.len(),
            word_fields(text@.take(i as int)) == done.push(cur@),
            token_views(out@) == Seq::new(
                stripped_words(done).len(),
                |k: int| token_of(stripped_words(done)[k]),
            ),
        decreases n - i,
    {
        let c = text[i];
        assert(text@.take(i as int + 1).drop_last() =~= text@.take(i as int));
        assert(text@.take(i as int + 1).last() == c);
        if !is_word_char_exec(c) {
            let ghost old_cur = cur@;
            let ghost old_out = token_views(out@);
            finish_field(&mut out, &cur);
            proof {
                assert(done.push(old_cur).drop_last() =~= done);
                let nw = stripped_words(done.push(old_cur));
                assert(token_views(out@) =~= Seq::new(nw.len(), |k: int| token_of(nw[k])));
                done = done.push(old_cur);
            }
            cur = Vec::new();
            assert(word_fields(text@.take(i as int + 1)) =~= done.push(cur@));
        } else {
            let ghost old_cur = cur@;
            cur.push(c);
            assert(word_fields(text@.take(i as int + 1)) =~= done.push(cur@)) by {
                assert(done.push(old_cur).drop_last() =~= done);
            }
        }
        i = i + 1;
    }
    assert(text@.take(n as int) =~= text@);
    let ghost old_cur = cur@;
    finish_field(&mut out, &cur);
    proof {
        assert(done.push(old_cur).drop_last() =~= done);
        let nw = stripped_words(done.push(old_cur));
        assert(token_views(out@) =~= Seq::new(nw.len(), |k: int| token_of(nw[k])));
    }
    out
}

// ---------------------------------------------------------------------------
// Numbers in the phrase
// ---------------------------------------------------------------------------

/// The value of a hyphenated pair such as "twenty-three".
pub open spec fn hyphenated_number(w: Seq<char>) -> Option<u32> {
    match index_of_from(w, '-', 0) {
        Some(k) => match (cardinal_of(w.take(k)), cardinal_of(w.skip(k + 1))) {
            (Some(tens), Some(unit)) => if is_tens_spec(tens) && 1 <= unit < 10 {
                Some((tens + unit) as u32)
            } else {
                None
            },
            _ => None,
        },
        None => None,
    }
}

/// A unit that can follow a round ten: the «три» of «двадцать три».
pub open spec fn unit_after(toks: Seq<TokenView>, index: int) -> Option<u32> {
    if 0 <= index + 1 < toks.len() {
        match cardinal_of(toks[index + 1].lower) {
            Some(u) => if 1 <= u < 10 {
                Some(u)
            } else {
                None
            },
            None => None,
        }
    } else {
        None
    }
}

/// A number at a position, whether it arrived as digits or as words, with the
/// count of tokens it took.
pub open spec fn number_at(toks: Seq<TokenView>, index: int) -> Option<(u32, int)> {
    if !(0 <= index < toks.len()) {
        None
    } else {
        let t = toks[index];
        match t.number {
            Some(v) => Some((v, 1)),
            None => match hyphenated_number(t.lower) {
                Some(v) => Some((v, 1)),
                None => match cardinal_of(t.lower) {
                    None => None,
                    Some(value) => if is_tens_spec(value) {
                        match unit_after(toks, index) {
                            Some(u) => Some(((value + u) as u32, 2)),
                            None => Some((value, 1)),
                        }
                    } else {
                        Some((value, 1))
                    },
                },
            },
        }
    }
}

fn hyphenated_number_chars(w: &[char]) -> (r: Option<u32>)
    ensures
        r == hyphenated_number(w@),
{
    match index_of(w, '-') {
        Some(k) => {
            let n = w.len();
            assert(k < n);
            let tens_part = copy_range(w, 0, k);
            let unit_part = copy_range(w, k + 1, n);
            assert(tens_part@ =~= w@.take(k as int));
            assert(unit_part@ =~= w@.skip(k + 1));
            let tens = cardinal_chars(&tens_part);
            let unit = cardinal_chars(&unit_part);
            proof {
                lemma_cardinal_bound(w@.take(k as int));
                lemma_cardinal_bound(w@.skip(k + 1));
            }
            match (tens, unit) {
                (Some(t), Some(u)) => if is_tens(t) && 1 <= u && u < 10 {
                    Some(t + u)
                } else {
                    None
                },
                _ => None,
            }
        },
        None => None,
    }
}

fn number_at_exec(tokens: &Vec<Token>, index: usize) -> (r: Option<(u32, usize)>)
    ensures
        match r {
            Some((v, l)) => number_at(token_views(tokens@), index as int) == Some((v, l as int))
                && 1 <= l <= 2 && index + l <= tokens@.len(),
            None => number_at(token_views(tokens@), index as int) is None,
        },
{
    let ghost toks = token_views(tokens@);
    if index >= tokens.len() {
        return None;
    }
    let t = &tokens[index];
    if let Some(v) = t.number {
        return Some((v, 1));
    }
    if let Some(v) = hyphenated_number_chars(&t.lower) {
        return Some((v, 1));
    }
    let value = match cardinal_chars(&t.lower) {
        Some(value) => value,
        None => {
            return None;
        },
    };
    proof {
        lemma_cardinal_bound(t.lower@);
    }
    if is_tens(value) && index + 1 < tokens.len() {
        let next = &tokens[index + 1];
        assert(toks[index + 1].lower == next.lower@);
        match cardinal_chars(&next.lower) {
            Some(u) => {
                if 1 <= u && u < 10 {
                    return Some((value + u, 2));
                }
            },
            None => {},
        }
    }
    Some((value, 1))
}

// ---------------------------------------------------------------------------
// Distances from now
// ---------------------------------------------------------------------------

/// «через 20 минут», «через час», «через полчаса», "in 2 hours", "in an hour":
/// how many tokens it took and how many minutes it names.
pub open spec fn match_distance(toks: Seq<TokenView>, index: int) -> Option<(int, i64)> {
    if !(0 <= index < toks.len()) || !is_distance_word(toks[index].lower) || index + 1
        >= toks.len() {
        None
    } else {
        let next = toks[index + 1];
        if is_half_hour_word(next.lower) {
            Some((2, 30))
        } else if unit_minutes_of(next.lower) is Some {
            Some((2, unit_minutes_of(next.lower)->0))
        } else {
            let counted: Option<(i64, int)> = match number_at(toks, index + 1) {
                Some((count, length)) => Some((count as i64, length)),
                None => if is_article(next.lower) {
                    Some((1i64, 1))
                } else {
                    None
                },
            };
            match counted {
                None => None,
                Some((count, length)) => if index + 1 + length < toks.len() {
                    match unit_minutes_of(toks[index + 1 + length].lower) {
                        Some(minutes) => Some((2 + length, clamp_i64(count * minutes) as i64)),
                        None => None,
                    }
                } else {
                    None
                },
            }
        }
    }
}

fn match_distance_exec(tokens: &Vec<Token>, index: usize) -> (r: Option<(usize, i64)>)
    requires
        index < tokens@.len() < usize::MAX - 8,
    ensures
        match r {
            Some((l, m)) => match_distance(token_views(tokens@), index as int) == Some((l as int, m))
                && 2 <= l <= 4 && index + l <= tokens@.len(),
            None => match_distance(token_views(tokens@), index as int) is None,
        },
{
    let ghost toks = token_views(tokens@);
    if !is_distance_word_chars(&tokens[index].lower) || index + 1 >= tokens.len() {
        return None;
    }
    let next = &tokens[index + 1];
    if is_half_hour_word_chars(&next.lower) {
        return Some((2, 30));
    }
    if let Some(minutes) = unit_minutes_chars(&next.lower) {
        return Some((2, minutes));
    }
    let (count, length): (i64, usize) = match number_at_exec(tokens, index + 1) {
        Some((count, length)) => (count as i64, length),
        None => {
            if is_article_chars(&next.lower) {
                (1, 1)
            } else {
                return None;
            }
        },
    };
    if index + 1 + length >= tokens.len() {
        return None;
    }
    match unit_minutes_chars(&tokens[index + 1 + length].lower) {
        Some(minutes) => Some((2 + length, crate::domain::clock::saturating_mul_i64(count, minutes))),
        None => None,
    }
}

// ---------------------------------------------------------------------------
// Clock times
// ---------------------------------------------------------------------------

/// A clock time as it was said.
#[derive(Clone, Copy, PartialEq, Eq, Debug, Structural)]
pub struct SpokenClock {
    pub hour: u32,
    pub minute: u32,
    /// True when the hour was said as a word with no part of day beside it,
    /// so it still has to be placed on the right half of the day.
    pub twelve_hour: bool,
}

pub ghost struct HitView {
    pub clock: SpokenClock,
    /// Token range the time occupies, preposition and meridiem included.
    pub start: int,
    pub end: int,
}

pub struct ClockHit {
    pub clock: SpokenClock,
    pub start: usize,
    pub end: usize,
}

pub open spec fn hit_view(h: ClockHit) -> HitView {
    HitView { clock: h.clock, start: h.start as int, end: h.end as int }
}

pub open spec fn hit(clock: SpokenClock, start: int, end: int) -> HitView {
    HitView { clock, start, end }
}

/// True when the number at this position was said rather than written.
pub open spec fn spoken_in_words(toks: Seq<TokenView>, index: int) -> bool {
    0 <= index < toks.len() && toks[index].number is None && !(exists|i: int|
        0 <= i < toks[index].text.len() && numeric(#[trigger] toks[index].text[i]))
}

fn spoken_in_words_exec(tokens: &Vec<Token>, index: usize) -> (b: bool)
    ensures
        b == spoken_in_words(token_views(tokens@), index as int),
{
    if index >= tokens.len() {
        return false;
    }
    let t = &tokens[index];
    assert(token_views(tokens@)[index as int] == token_view(tokens@[index as int]));
    if t.number.is_some() {
        return false;
    }
    let mut i: usize = 0;
    while i < t.text.len()
        invariant
            i <= t.text@.len(),
            index < tokens@.len(),
            t.text@ == token_views(tokens@)[index as int].text,
            forall|j: int| 0 <= j < i ==> !numeric(#[trigger] t.text@[j]),
        decreases t.text.len() - i,
    {
        if is_numeric(t.text[i]) {
            assert(numeric(token_views(tokens@)[index as int].text[i as int]));
            return false;
        }
        i = i + 1;
    }
    true
}

/// The hour a Russian half names is the one before: «полвторого» is 01:30.
pub open spec fn match_half(toks: Seq<TokenView>, index: int, start: int) -> Option<HitView> {
    let word = toks[index].lower;
    if is_half_half(word) {
        if index + 1 < toks.len() && is_past(toks[index + 1].lower) {
            match number_at(toks, index + 2) {
                Some((hour, length)) => if hour > 23 {
                    None
                } else {
                    Some(hit(SpokenClock { hour, minute: 30, twelve_hour: true }, start, index + 2 + length))
                },
                None => None,
            }
        } else {
            None
        }
    } else {
        let found: Option<(u32, int)> = match half_of_spec(word) {
            Some(o) => Some((o, index + 1)),
            None => if is_half_word(word) && index + 1 < toks.len() {
                match ordinal_of(toks[index + 1].lower) {
                    Some(o) => Some((o, index + 2)),
                    None => None,
                }
            } else {
                None
            },
        };
        match found {
            Some((o, end)) => Some(hit(SpokenClock { hour: (o - 1) as u32, minute: 30, twelve_hour: true }, start, end)),
            None => None,
        }
    }
}

fn match_half_exec(tokens: &Vec<Token>, index: usize, start: usize) -> (r: Option<ClockHit>)
    requires
        index < tokens@.len() < usize::MAX - 8,
    ensures
        match r {
            Some(h) => match_half(token_views(tokens@), index as int, start as int) == Some(hit_view(h))
                && index < h.end <= tokens@.len() && h.start == start,
            None => match_half(token_views(tokens@), index as int, start as int) is None,
        },
{
    let ghost toks = token_views(tokens@);
    let word = &tokens[index].lower;
    if is_half_half_chars(word) {
        if index + 1 < tokens.len() && is_past_chars(&tokens[index + 1].lower) {
            match number_at_exec(tokens, index + 2) {
                Some((hour, length)) => {
                    if hour > 23 {
                        return None;
                    }
                    return Some(ClockHit {
                        clock: SpokenClock { hour, minute: 30, twelve_hour: true },
                        start,
                        end: index + 2 + length,
                    });
                },
                None => {
                    return None;
                },
            }
        }
        return None;
    }
    proof {
        lemma_ordinal_bound(word@);
    }
    let (o, end): (u32, usize) = match half_of_chars(word) {
        Some(o) => (o, index + 1),
        None => {
            if is_half_word_chars(word) && index + 1 < tokens.len() {
                proof {
                    lemma_ordinal_bound(toks[index + 1].lower);
                }
                match ordinal_chars(&tokens[index + 1].lower) {
                    Some(o) => (o, index + 2),
                    None => {
                        return None;
                    },
                }
            } else {
                return None;
            }
        },
    };
    Some(ClockHit { clock: SpokenClock { hour: o - 1, minute: 30, twelve_hour: true }, start, end })
}

/// «без пятнадцати шесть», «без четверти шесть», "quarter to six",
/// "ten past three".
pub open spec fn match_minutes_around(toks: Seq<TokenView>, index: int, start: int) -> Option<
    HitView,
> {
    let word = toks[index].lower;
    if is_without(word) {
        match number_at(toks, index + 1) {
            None => None,
            Some((minutes, ml)) => if !(1 <= minutes < 60) {
                None
            } else {
                match number_at(toks, index + 1 + ml) {
                    None => None,
                    Some((hour, hl)) => if hour > 23 {
                        None
                    } else {
                        Some(hit(SpokenClock {
                            hour: if hour == 0 { 23 } else { (hour - 1) as u32 },
                            minute: (60 - minutes) as u32,
                            twelve_hour: spoken_in_words(toks, index + 1 + ml),
                        }, start, index + 1 + ml + hl))
                    },
                }
            },
        }
    } else {
        match number_at(toks, index) {
            None => None,
            Some((minutes, ml)) => if !(1 <= minutes < 60) || index + ml >= toks.len() {
                None
            } else {
                let direction = toks[index + ml].lower;
                match number_at(toks, index + ml + 1) {
                    None => None,
                    Some((hour, hl)) => if hour > 23 {
                        None
                    } else {
                        let end = index + ml + 1 + hl;
                        let twelve = spoken_in_words(toks, index + ml + 1);
                        if is_to(direction) {
                            Some(hit(SpokenClock {
                                hour: if hour == 0 { 23 } else { (hour - 1) as u32 },
                                minute: (60 - minutes) as u32,
                                twelve_hour: twelve,
                            }, start, end))
                        } else if is_past(direction) {
                            Some(hit(SpokenClock { hour, minute: minutes, twelve_hour: twelve }, start, end))
                        } else {
                            None
                        }
                    },
                }
            },
        }
    }
}

fn match_minutes_around_exec(tokens: &Vec<Token>, index: usize, start: usize) -> (r: Option<ClockHit>)
    requires
        index < tokens@.len() < usize::MAX - 8,
    ensures
        match r {
            Some(h) => match_minutes_around(token_views(tokens@), index as int, start as int) == Some(hit_view(h))
                && index < h.end <= tokens@.len() && h.start == start,
            None => match_minutes_around(token_views(tokens@), index as int, start as int) is None,
        },
{
    let ghost toks = token_views(tokens@);
    if is_without_chars(&tokens[index].lower) {
        let (minutes, ml) = match number_at_exec(tokens, index + 1) {
            Some(x) => x,
            None => {
                return None;
            },
        };
        if !(1 <= minutes && minutes < 60) {
            return None;
        }
        let (hour, hl) = match number_at_exec(tokens, index + 1 + ml) {
            Some(x) => x,
            None => {
                return None;
            },
        };
        if hour > 23 {
            return None;
        }
        let twelve = spoken_in_words_exec(tokens, index + 1 + ml);
        return Some(ClockHit {
            clock: SpokenClock {
                hour: if hour == 0 { 23 } else { hour - 1 },
                minute: 60 - minutes,
                twelve_hour: twelve,
            },
            start,
            end: index + 1 + ml + hl,
        });
    }
    let (minutes, ml) = match number_at_exec(tokens, index) {
        Some(x) => x,
        None => {
            return None;
        },
    };
    if !(1 <= minutes && minutes < 60) || index + ml >= tokens.len() {
        return None;
    }
    let (hour, hl) = match number_at_exec(tokens, index + ml + 1) {
        Some(x) => x,
        None => {
            return None;
        },
    };
    if hour > 23 {
        return None;
    }
    let end = index + ml + 1 + hl;
    let twelve = spoken_in_words_exec(tokens, index + ml + 1);
    let direction = &tokens[index + ml].lower;
    if is_to_chars(direction) {
        Some(ClockHit {
            clock: SpokenClock {
                hour: if hour == 0 { 23 } else { hour - 1 },
                minute: 60 - minutes,
                twelve_hour: twelve,
            },
            start,
            end,
        })
    } else if is_past_chars(direction) {
        Some(ClockHit { clock: SpokenClock { hour, minute: minutes, twelve_hour: twelve }, start, end })
    } else {
        None
    }
}

/// `HH:MM`, or `HH.MM` in the one other form a recogniser writes.
pub open spec fn written_time(w: Seq<char>) -> Option<(u32, u32)> {
    let split = match index_of_from(w, ':', 0) {
        Some(k) => Some(k),
        None => index_of_from(w, '.', 0),
    };
    match split {
        None => None,
        Some(k) => {
            let hour = w.take(k);
            let minute = w.skip(k + 1);
            if 1 <= hour.len() <= 2 && minute.len() == 2 && all_ascii_digits(hour)
                && all_ascii_digits(minute) {
                Some((digits_value(hour) as u32, digits_value(minute) as u32))
            } else {
                None
            }
        },
    }
}

fn small_digits_value(s: &[char]) -> (v: u32)
    requires
        1 <= s@.len() <= 2,
        all_ascii_digits(s@),
    ensures
        v == digits_value(s@),
{
    assert(s@.take(0) =~= Seq::<char>::empty());
    let d0 = (s[0] as u32) - 48;
    assert(s@.take(1).drop_last() =~= s@.take(0));
    assert(digits_value(s@.take(0)) == 0);
    assert(s@.take(1).last() == s@[0]);
    assert(digits_value(s@.take(1)) == d0);
    if s.len() == 1 {
        assert(s@.take(1) =~= s@);
        d0
    } else {
        let d1 = (s[1] as u32) - 48;
        assert(s@.take(2).drop_last() =~= s@.take(1));
        assert(s@.take(2) =~= s@);
        d0 * 10 + d1
    }
}

fn all_digits_exec(s: &[char]) -> (b: bool)
    ensures
        b == all_ascii_digits(s@),
{
    let mut i: usize = 0;
    while i < s.len()
        invariant
            i <= s@.len(),
            forall|j: int| 0 <= j < i ==> '0' <= #[trigger] s@[j] && s@[j] <= '9',
        decreases s.len() - i,
    {
        if !('0' <= s[i] && s[i] <= '9') {
            return false;
        }
        i = i + 1;
    }
    true
}

fn written_time_exec(w: &[char]) -> (r: Option<(u32, u32)>)
    ensures
        r == written_time(w@),
{
    let split = match index_of(w, ':') {
        Some(k) => Some(k),
        None => index_of(w, '.'),
    };
    let k = match split {
        Some(k) => k,
        None => {
            return None;
        },
    };
    let n = w.len();
    assert(k < n);
    let hour = copy_range(w, 0, k);
    let minute = copy_range(w, k + 1, n);
    assert(hour@ =~= w@.take(k as int));
    assert(minute@ =~= w@.skip(k + 1));
    if 1 <= hour.len() && hour.len() <= 2 && minute.len() == 2 && all_digits_exec(&hour)
        && all_digits_exec(&minute) {
        Some((small_digits_value(&hour), small_digits_value(&minute)))
    } else {
        None
    }
}

/// What a part-of-day word does to an hour: «9 вечера» is 21:00.
pub open spec fn shift_hour(m: Meridiem, hour: u32) -> u32 {
    match m {
        Meridiem::Evening => if hour < 12 { (hour + 12) as u32 } else { hour },
        _ => if hour == 12 { 0 } else { hour },
    }
}

fn shift_hour_exec(m: Meridiem, hour: u32) -> (r: u32)
    requires
        hour <= 23,
    ensures
        r == shift_hour(m, hour),
        r <= 23,
{
    match m {
        Meridiem::Evening => if hour < 12 { hour + 12 } else { hour },
        _ => if hour == 12 { 0 } else { hour },
    }
}

/// The meridiem word at a position, if there is one.
pub open spec fn meridiem_at(toks: Seq<TokenView>, index: int) -> Option<Meridiem> {
    if 0 <= index < toks.len() {
        meridiem_of(toks[index].lower)
    } else {
        None
    }
}

fn meridiem_at_exec(tokens: &Vec<Token>, index: usize) -> (r: Option<Meridiem>)
    ensures
        r == meridiem_at(token_views(tokens@), index as int),
{
    if index < tokens.len() {
        meridiem_chars(&tokens[index].lower)
    } else {
        None
    }
}

/// The bare reading of a plain clock time before units and meridiem: hour,
/// minute, the position after it, and whether it was written with digits and
/// a separator.
pub open spec fn plain_base(toks: Seq<TokenView>, index: int, vouching: bool) -> Option<(u32, u32, int, bool)> {
    let token = toks[index];
    match written_time(token.lower) {
        Some((hour, minute)) => if index_of_from(token.lower, ':', 0) is None && !(vouching
            || index + 1 == toks.len()) {
            None
        } else {
            Some((hour, minute, index + 1, true))
        },
        None => match number_at(toks, index) {
            None => None,
            Some((hour, hl)) => {
                let after = index + hl;
                if after < toks.len() && ((is_duration_unit(toks[after].lower) && meridiem_of(
                    toks[after].lower,
                ) is None) || is_counted_noun(toks[after].lower)) {
                    None
                } else {
                    let paired: Option<(u32, int)> = match number_at(toks, after) {
                        Some((minute, ml)) => if minute <= 59 && (toks[after].number is None
                            || toks[after].text.len() == 2) {
                            Some((minute, ml))
                        } else {
                            None
                        },
                        None => None,
                    };
                    match paired {
                        Some((minute, ml)) => if (vouching || after + ml == toks.len()) && hour
                            <= 23 {
                            Some((hour, minute, after + ml, false))
                        } else {
                            lone_hour(toks, hour, after, vouching)
                        },
                        None => lone_hour(toks, hour, after, vouching),
                    }
                }
            },
        },
    }
}

/// A lone number is only an hour when something says so: the preposition in
/// front of it, or the part of day behind it.
pub open spec fn lone_hour(toks: Seq<TokenView>, hour: u32, after: int, vouching: bool) -> Option<(u32, u32, int, bool)> {
    let vouched = vouching || meridiem_at(toks, after) is Some || (after < toks.len()
        && is_hour_word(toks[after].lower) && meridiem_at(toks, after + 1) is Some);
    if !vouched || hour > 23 {
        None
    } else {
        Some((hour, 0, after, false))
    }
}

pub open spec fn is_duration_unit(w: Seq<char>) -> bool {
    match unit_minutes_of(w) {
        Some(m) => m != 60,
        None => false,
    }
}

/// «в 15 часов 30 минут»: the minutes the unit word separates from their hour.
pub open spec fn with_units(toks: Seq<TokenView>, minute: u32, end: int) -> (u32, int) {
    if 0 <= end < toks.len() && is_hour_unit(toks[end].lower) {
        let end1 = end + 1;
        if minute == 0 {
            match number_at(toks, end1) {
                Some((spoken, length)) => if spoken <= 59 && end1 + length < toks.len()
                    && is_minute_unit(toks[end1 + length].lower) {
                    (spoken, end1 + length + 1)
                } else {
                    (minute, end1)
                },
                None => (minute, end1),
            }
        } else {
            (minute, end1)
        }
    } else {
        (minute, end)
    }
}

/// `15:00`, «в 15», «в 15 30», «в три часа дня», "at 9 pm".
pub open spec fn match_plain_clock(toks: Seq<TokenView>, index: int, start: int, preceded: bool) -> Option<HitView> {
    let vouching = index > 0 && vouches_bare_hour(toks[index - 1].lower) && preceded;
    match plain_base(toks, index, vouching) {
        None => None,
        Some((hour, minute, end, written)) => if hour > 23 || minute > 59 {
            None
        } else {
            let twelve0 = if written { false } else { spoken_in_words(toks, index) };
            let (minute2, end2) = with_units(toks, minute, end);
            match meridiem_at(toks, end2) {
                Some(m) => {
                    let h = shift_hour(m, hour);
                    Some(hit(SpokenClock { hour: h, minute: minute2, twelve_hour: false }, start, end2 + 1))
                },
                None => Some(hit(SpokenClock { hour, minute: minute2, twelve_hour: twelve0 && hour <= 12 }, start, end2)),
            }
        },
    }
}

fn plain_base_exec(tokens: &Vec<Token>, index: usize, vouching: bool) -> (r: Option<(u32, u32, usize, bool)>)
    requires
        index < tokens@.len() < usize::MAX - 8,
    ensures
        match r {
            Some((h, m, e, w)) => plain_base(token_views(tokens@), index as int, vouching) == Some((h, m, e as int, w))
                && index < e <= tokens@.len(),
            None => plain_base(token_views(tokens@), index as int, vouching) is None,
        },
{
    let ghost toks = token_views(tokens@);
    let token = &tokens[index];
    if let Some((hour, minute)) = written_time_exec(&token.lower) {
        if index_of(&token.lower, ':').is_none() && !(vouching || index + 1 == tokens.len()) {
            return None;
        }
        return Some((hour, minute, index + 1, true));
    }
    let (hour, hl) = match number_at_exec(tokens, index) {
        Some(x) => x,
        None => {
            return None;
        },
    };
    let after = index + hl;
    if after < tokens.len() {
        let next = &tokens[after].lower;
        let dur = match unit_minutes_chars(next) {
            Some(m) => m != 60,
            None => false,
        };
        if (dur && meridiem_chars(next).is_none()) || is_counted_noun_chars(next) {
            return None;
        }
    }
    let paired: Option<(u32, usize)> = match number_at_exec(tokens, after) {
        Some((minute, ml)) => {
            if minute <= 59 && (tokens[after].number.is_none() || tokens[after].text.len() == 2) {
                Some((minute, ml))
            } else {
                None
            }
        },
        None => None,
    };
    if let Some((minute, ml)) = paired {
        if (vouching || after + ml == tokens.len()) && hour <= 23 {
            return Some((hour, minute, after + ml, false));
        }
    }
    let vouched = vouching || meridiem_at_exec(tokens, after).is_some() || (after < tokens.len()
        && is_hour_word_chars(&tokens[after].lower) && meridiem_at_exec(tokens, after + 1).is_some());
    if !vouched || hour > 23 {
        return None;
    }
    Some((hour, 0, after, false))
}

fn with_units_exec(tokens: &Vec<Token>, minute: u32, end: usize) -> (r: (u32, usize))
    requires
        end <= tokens@.len() < usize::MAX - 8,
        minute <= 59,
    ensures
        with_units(token_views(tokens@), minute, end as int) == (r.0, r.1 as int),
        r.0 <= 59,
        end <= r.1 <= tokens@.len(),
{
    let ghost toks = token_views(tokens@);
    if end < tokens.len() && is_hour_unit_chars(&tokens[end].lower) {
        let end1 = end + 1;
        if minute == 0 {
            match number_at_exec(tokens, end1) {
                Some((spoken, length)) => {
                    if spoken <= 59 && end1 + length < tokens.len() && is_minute_unit_chars(
                        &tokens[end1 + length].lower,
                    ) {
                        return (spoken, end1 + length + 1);
                    }
                    (minute, end1)
                },
                None => (minute, end1),
            }
        } else {
            (minute, end1)
        }
    } else {
        (minute, end)
    }
}

fn match_plain_clock_exec(tokens: &Vec<Token>, index: usize, start: usize, preceded: bool) -> (r: Option<ClockHit>)
    requires
        index < tokens@.len() < usize::MAX - 8,
    ensures
        match r {
            Some(h) => match_plain_clock(token_views(tokens@), index as int, start as int, preceded) == Some(hit_view(h))
                && h.clock.hour <= 23 && h.clock.minute <= 59 && index < h.end <= tokens@.len()
                && h.start == start,
            None => match_plain_clock(token_views(tokens@), index as int, start as int, preceded) is None,
        },
{
    let vouching = index > 0 && vouches_bare_hour_chars(&tokens[index - 1].lower) && preceded;
    let (hour, minute, end, written) = match plain_base_exec(tokens, index, vouching) {
        Some(x) => x,
        None => {
            return None;
        },
    };
    if hour > 23 || minute > 59 {
        return None;
    }
    let twelve0 = if written { false } else { spoken_in_words_exec(tokens, index) };
    let (minute2, end2) = with_units_exec(tokens, minute, end);
    match meridiem_at_exec(tokens, end2) {
        Some(m) => {
            let h = shift_hour_exec(m, hour);
            Some(ClockHit { clock: SpokenClock { hour: h, minute: minute2, twelve_hour: false }, start, end: end2 + 1 })
        },
        None => Some(ClockHit {
            clock: SpokenClock { hour, minute: minute2, twelve_hour: twelve0 && hour <= 12 },
            start,
            end: end2,
        }),
    }
}

/// A clock time, in every shape a person says one, tried from the most
/// specific shape to the least.
pub open spec fn match_clock(toks: Seq<TokenView>, index: int, consumed: Seq<bool>) -> Option<HitView> {
    let preceded = index > 0 && !consumed[index - 1] && is_time_preposition(toks[index - 1].lower);
    let start = if preceded { index - 1 } else { index };
    match named_hour_of(toks[index].lower) {
        Some((hour, minute)) => Some(hit(SpokenClock { hour, minute, twelve_hour: false }, start, index + 1)),
        None => match match_half(toks, index, start) {
            Some(h) => Some(h),
            None => match match_minutes_around(toks, index, start) {
                Some(h) => Some(h),
                None => match_plain_clock(toks, index, start, preceded),
            },
        },
    }
}

fn match_clock_exec(tokens: &Vec<Token>, index: usize, consumed: &Vec<bool>) -> (r: Option<ClockHit>)
    requires
        index < tokens@.len() < usize::MAX - 8,
        consumed@.len() == tokens@.len(),
    ensures
        match r {
            Some(h) => match_clock(token_views(tokens@), index as int, consumed@) == Some(hit_view(h))
                && index < h.end <= tokens@.len() && (h.start == index || (index > 0 && h.start
                == index - 1)),
            None => match_clock(token_views(tokens@), index as int, consumed@) is None,
        },
{
    let preceded = index > 0 && !consumed[index - 1] && is_time_preposition_chars(&tokens[index - 1].lower);
    let start = if preceded { index - 1 } else { index };
    if let Some((hour, minute)) = named_hour_chars(&tokens[index].lower) {
        return Some(ClockHit { clock: SpokenClock { hour, minute, twelve_hour: false }, start, end: index + 1 });
    }
    if let Some(h) = match_half_exec(tokens, index, start) {
        return Some(h);
    }
    if let Some(h) = match_minutes_around_exec(tokens, index, start) {
        return Some(h);
    }
    match_plain_clock_exec(tokens, index, start, preceded)
}


// ---------------------------------------------------------------------------
// Days and parts of the day
// ---------------------------------------------------------------------------

/// Which day the phrase pointed at, before it is turned into a date.
#[derive(Clone, Copy, PartialEq, Eq, Debug, Structural)]
pub enum DayHint {
    /// Days from today: сегодня, завтра, послезавтра.
    Offset(i64),
    /// The next day that falls on this weekday, counted from Monday as nought.
    Named(u32),
}

pub open spec fn day_hint_of(w: Seq<char>) -> Option<DayHint> {
    match day_offset_of(w) {
        Some(days) => Some(DayHint::Offset(days)),
        None => match weekday_word_of(w) {
            Some(day) => Some(DayHint::Named(day)),
            None => None,
        },
    }
}

/// «завтра», «в понедельник», "tomorrow", "on monday": where the day starts,
/// how many tokens it takes and which day it is.
pub open spec fn match_day(toks: Seq<TokenView>, index: int, consumed: Seq<bool>) -> Option<
    (int, int, DayHint),
> {
    match day_hint_of(toks[index].lower) {
        None => None,
        Some(hint) => if index > 0 && !consumed[index - 1] && is_day_preposition(
            toks[index - 1].lower,
        ) {
            Some((index - 1, 2, hint))
        } else {
            Some((index, 1, hint))
        },
    }
}

fn match_day_exec(tokens: &Vec<Token>, index: usize, consumed: &Vec<bool>) -> (r: Option<
    (usize, usize, DayHint),
>)
    requires
        index < tokens@.len(),
        consumed@.len() == tokens@.len(),
    ensures
        match r {
            Some((s, l, h)) => match_day(token_views(tokens@), index as int, consumed@) == Some(
                (s as int, l as int, h),
            ) && s + l == index + 1,
            None => match_day(token_views(tokens@), index as int, consumed@) is None,
        },
{
    let word = &tokens[index].lower;
    let hint = match day_offset_chars(word) {
        Some(days) => DayHint::Offset(days),
        None => match weekday_word_chars(word) {
            Some(day) => DayHint::Named(day),
            None => {
                return None;
            },
        },
    };
    if index > 0 && !consumed[index - 1] && is_day_preposition_chars(&tokens[index - 1].lower) {
        Some((index - 1, 2, hint))
    } else {
        Some((index, 1, hint))
    }
}

/// How far back the words that only lead into a part of the day reach:
/// «с утра», "in the morning".
pub open spec fn lead_start(toks: Seq<TokenView>, consumed: Seq<bool>, start: int) -> int
    decreases start,
{
    if start > 0 && !consumed[start - 1] && leads_into_part_of_day(toks[start - 1].lower) {
        lead_start(toks, consumed, start - 1)
    } else {
        start
    }
}

/// «завтра утром», «вечером», "in the evening": where it starts, how many
/// tokens it takes and the hour it stands for.
pub open spec fn match_part_of_day(toks: Seq<TokenView>, index: int, consumed: Seq<bool>) -> Option<
    (int, int, (u32, u32)),
> {
    match part_of_day_of(toks[index].lower) {
        None => None,
        Some(at) => {
            let start = lead_start(toks, consumed, index);
            Some((start, index + 1 - start, at))
        },
    }
}

fn match_part_of_day_exec(tokens: &Vec<Token>, index: usize, consumed: &Vec<bool>) -> (r: Option<
    (usize, usize, (u32, u32)),
>)
    requires
        index < tokens@.len(),
        consumed@.len() == tokens@.len(),
    ensures
        match r {
            Some((s, l, at)) => match_part_of_day(token_views(tokens@), index as int, consumed@)
                == Some((s as int, l as int, at)) && s + l == index + 1,
            None => match_part_of_day(token_views(tokens@), index as int, consumed@) is None,
        },
{
    let at = match part_of_day_chars(&tokens[index].lower) {
        Some(at) => at,
        None => {
            return None;
        },
    };
    let ghost toks = token_views(tokens@);
    let n = tokens.len();
    assert(index < n);
    let after = index + 1;
    let mut start = index;
    while start > 0 && !consumed[start - 1] && leads_into_part_of_day_chars(
        &tokens[start - 1].lower,
    )
        invariant
            start <= index < tokens@.len(),
            consumed@.len() == tokens@.len(),
            toks == token_views(tokens@),
            lead_start(toks, consumed@, index as int) == lead_start(
                toks,
                consumed@,
                start as int,
            ),
        decreases start,
    {
        start = start - 1;
    }
    Some((start, after - start, at))
}

// ---------------------------------------------------------------------------
// Scanning
// ---------------------------------------------------------------------------

/// What one pass over the phrase found.
pub struct Found {
    pub consumed: Vec<bool>,
    pub day: Option<DayHint>,
    pub clock: Option<SpokenClock>,
    /// The hour a part of the day stands for, when no clock time was said.
    pub part_of_day: Option<(u32, u32)>,
    /// Minutes from now, for «через …».
    pub distance: Option<i64>,
}

pub ghost struct FoundView {
    pub consumed: Seq<bool>,
    pub day: Option<DayHint>,
    pub clock: Option<SpokenClock>,
    pub part_of_day: Option<(u32, u32)>,
    pub distance: Option<i64>,
}

pub open spec fn found_view(f: Found) -> FoundView {
    FoundView {
        consumed: f.consumed@,
        day: f.day,
        clock: f.clock,
        part_of_day: f.part_of_day,
        distance: f.distance,
    }
}

/// The flags with `length` of them from `start` on set.
pub open spec fn consume(consumed: Seq<bool>, start: int, length: int) -> Seq<bool> {
    Seq::new(consumed.len(), |i: int| consumed[i] || (start <= i && i < start + length))
}

/// One step of the scan at a position: what is found there, and where the scan
/// goes on from. Each kind is taken the first time it matches, in this order.
pub open spec fn scan_step(toks: Seq<TokenView>, f: FoundView, index: int) -> (FoundView, int) {
    if f.consumed[index] {
        (f, index + 1)
    } else if f.distance is None && match_distance(toks, index) is Some {
        let (length, minutes) = match_distance(toks, index)->0;
        (
            FoundView {
                consumed: consume(f.consumed, index, length),
                distance: Some(minutes),
                ..f
            },
            index + length,
        )
    } else if f.clock is None && match_clock(toks, index, f.consumed) is Some {
        let h = match_clock(toks, index, f.consumed)->0;
        (
            FoundView {
                consumed: consume(f.consumed, h.start, h.end - h.start),
                clock: Some(h.clock),
                ..f
            },
            h.end,
        )
    } else if f.day is None && match_day(toks, index, f.consumed) is Some {
        let (start, length, hint) = match_day(toks, index, f.consumed)->0;
        (
            FoundView { consumed: consume(f.consumed, start, length), day: Some(hint), ..f },
            start + length,
        )
    } else if f.part_of_day is None && match_part_of_day(toks, index, f.consumed) is Some {
        let (start, length, at) = match_part_of_day(toks, index, f.consumed)->0;
        (
            FoundView {
                consumed: consume(f.consumed, start, length),
                part_of_day: Some(at),
                ..f
            },
            start + length,
        )
    } else {
        (f, index + 1)
    }
}

/// The scan from a position to the end of the phrase.
pub open spec fn scan_from(toks: Seq<TokenView>, f: FoundView, index: int) -> FoundView
    decreases toks.len() - index,
{
    if index < 0 || index >= toks.len() {
        f
    } else {
        let (next_found, next) = scan_step(toks, f, index);
        if index < next <= toks.len() {
            scan_from(toks, next_found, next)
        } else {
            scan_from(toks, next_found, index + 1)
        }
    }
}

pub open spec fn nothing_found(n: nat) -> FoundView {
    FoundView {
        consumed: Seq::new(n, |i: int| false),
        day: None,
        clock: None,
        part_of_day: None,
        distance: None,
    }
}

/// The phrase walked once, left to right.
pub open spec fn scan(toks: Seq<TokenView>) -> FoundView {
    scan_from(toks, nothing_found(toks.len()), 0)
}

fn consume_exec(consumed: &mut Vec<bool>, start: usize, length: usize)
    requires
        start + length <= old(consumed)@.len(),
    ensures
        final(consumed)@ == consume(old(consumed)@, start as int, length as int),
{
    let ghost before = consumed@;
    let n = consumed.len();
    assert(start + length <= n);
    let end = start + length;
    let mut i = start;
    while i < end
        invariant
            start <= i <= end <= consumed@.len(),
            consumed@.len() == before.len(),
            forall|j: int|
                0 <= j < before.len() ==> #[trigger] consumed@[j] == (before[j] || (start <= j
                    && j < i)),
        decreases end - i,
    {
        consumed.set(i, true);
        i = i + 1;
    }
    assert(consumed@ =~= consume(before, start as int, length as int));
}

fn scan_exec(tokens: &Vec<Token>) -> (found: Found)
    requires
        tokens@.len() < usize::MAX - 8,
    ensures
        found_view(found) == scan(token_views(tokens@)),
        found.consumed@.len() == tokens@.len(),
{
    let ghost toks = token_views(tokens@);
    let n = tokens.len();
    let mut consumed: Vec<bool> = Vec::new();
    while consumed.len() < n
        invariant
            consumed@.len() <= n,
            forall|j: int| 0 <= j < consumed@.len() ==> !#[trigger] consumed@[j],
        decreases n - consumed.len(),
    {
        consumed.push(false);
    }
    let mut found = Found { consumed, day: None, clock: None, part_of_day: None, distance: None };
    assert(found_view(found) == nothing_found(n as nat)) by {
        assert(found.consumed@ =~= Seq::new(n as nat, |i: int| false));
    }
    let mut index: usize = 0;
    while index < n
        invariant
            index <= n == tokens@.len() < usize::MAX - 8,
            toks == token_views(tokens@),
            found.consumed@.len() == n,
            scan_from(toks, found_view(found), index as int) == scan(toks),
        decreases n - index,
    {
        let ghost before = found_view(found);
        let ghost step = scan_step(toks, before, index as int);
        let mut next = index + 1;
        if found.consumed[index] {
        } else {
            let mut done = false;
            if found.distance.is_none() {
                if let Some((length, minutes)) = match_distance_exec(tokens, index) {
                    found.distance = Some(minutes);
                    consume_exec(&mut found.consumed, index, length);
                    next = index + length;
                    done = true;
                }
            }
            if !done && found.clock.is_none() {
                if let Some(h) = match_clock_exec(tokens, index, &found.consumed) {
                    found.clock = Some(h.clock);
                    consume_exec(&mut found.consumed, h.start, h.end - h.start);
                    next = h.end;
                    done = true;
                }
            }
            if !done && found.day.is_none() {
                if let Some((start, length, hint)) = match_day_exec(tokens, index, &found.consumed) {
                    found.day = Some(hint);
                    consume_exec(&mut found.consumed, start, length);
                    next = start + length;
                    done = true;
                }
            }
            if !done && found.part_of_day.is_none() {
                if let Some((start, length, at)) = match_part_of_day_exec(
                    tokens,
                    index,
                    &found.consumed,
                ) {
                    found.part_of_day = Some(at);
                    consume_exec(&mut found.consumed, start, length);
                    next = start + length;
                }
            }
        }
        assert(found_view(found) == step.0 && next == step.1);
        index = next;
    }
    found
}


// ---------------------------------------------------------------------------
// Resolving
// ---------------------------------------------------------------------------

pub open spec fn invalid_transcript() -> AppError {
    AppError::Validation(ValidationError::Invalid { field: "transcript" })
}

pub open spec fn invalid_timestamp() -> AppError {
    AppError::Validation(ValidationError::Invalid { field: "timestamp" })
}

/// Which half of the day a spoken hour most likely meant: the hours up to six
/// are read as the afternoon, and «полпервого» as half past twelve in the day.
pub open spec fn daytime_reading(hour: u32) -> u32 {
    if hour == 0 {
        12
    } else if 1 <= hour <= 6 {
        (hour + 12) as u32
    } else {
        hour
    }
}

fn daytime_reading_exec(hour: u32) -> (r: u32)
    ensures
        r == daytime_reading(hour),
{
    if hour == 0 {
        12
    } else if 1 <= hour && hour <= 6 {
        hour + 12
    } else {
        hour
    }
}

/// The same reading on the other half of the clock face.
pub open spec fn twelve_hour_twin(hour: u32) -> u32 {
    if hour >= 12 {
        (hour - 12) as u32
    } else {
        (hour + 12) as u32
    }
}

fn twelve_hour_twin_exec(hour: u32) -> (r: u32)
    ensures
        r == twelve_hour_twin(hour),
{
    if hour >= 12 {
        hour - 12
    } else {
        hour + 12
    }
}

/// A local reading turned into an instant.
///
/// A reading the clocks skipped is moved an hour on rather than refused, and a
/// reading the clocks showed twice is the earlier of the two.
pub open spec fn instant_at(date: CivilDate, hour: u32, minute: u32, zone: Seq<char>) -> AppResult<
    Timestamp,
> {
    if hour >= 24 || minute >= 60 {
        Err(invalid_transcript())
    } else {
        let local = LocalDateTime { date, hour, minute, second: 0, milli: 0 };
        match earliest_instant(local, zone) {
            Some(millis) => Ok(Timestamp(millis)),
            None => match reading_plus_minutes(local, 60) {
                Some(later) => match earliest_instant(later, zone) {
                    Some(millis) => Ok(Timestamp(millis)),
                    None => Err(invalid_transcript()),
                },
                None => Err(invalid_transcript()),
            },
        }
    }
}

fn instant_at_exec(date: CivilDate, hour: u32, minute: u32, zone: &Zone) -> (r: AppResult<
    Timestamp,
>)
    ensures
        r == instant_at(date, hour, minute, zone@),
{
    if hour >= 24 || minute >= 60 {
        return Err(invalid("transcript"));
    }
    let local = LocalDateTime { date, hour, minute, second: 0, milli: 0 };
    match earliest_instant_at(local, zone.name()) {
        Some(millis) => Ok(Timestamp(millis)),
        None => match add_minutes(local, 60) {
            Some(later) => match earliest_instant_at(later, zone.name()) {
                Some(millis) => Ok(Timestamp(millis)),
                None => Err(invalid("transcript")),
            },
            None => Err(invalid("transcript")),
        },
    }
}

/// The same reading a number of days later.
pub open spec fn instant_days_later(
    date: CivilDate,
    days: int,
    hour: u32,
    minute: u32,
    zone: Seq<char>,
) -> AppResult<Timestamp> {
    match date_plus_days(date, days) {
        Some(later) => instant_at(later, hour, minute, zone),
        None => Err(invalid_transcript()),
    }
}

fn instant_days_later_exec(date: CivilDate, days: i64, hour: u32, minute: u32, zone: &Zone) -> (r:
    AppResult<Timestamp>)
    ensures
        r == instant_days_later(date, days as int, hour, minute, zone@),
{
    match add_days(date, days) {
        Some(later) => instant_at_exec(later, hour, minute, zone),
        None => Err(invalid("transcript")),
    }
}

/// The date a day hint points at from today.
pub open spec fn day_date(today: CivilDate, day: Option<DayHint>) -> AppResult<CivilDate> {
    match day {
        None => Ok(today),
        Some(DayHint::Offset(days)) => match date_plus_days(today, days as int) {
            Some(date) => Ok(date),
            None => Err(invalid_transcript()),
        },
        Some(DayHint::Named(wanted)) => match weekday_of(today) {
            Some(current) => match date_plus_days(today, (wanted + 7 - current) % 7) {
                Some(date) => Ok(date),
                None => Err(invalid_transcript()),
            },
            None => Err(invalid_transcript()),
        },
    }
}

/// The day of the week the calendar gives a day, counted from Monday as
/// nought: 1970-01-01, day nought, was a Thursday.
pub open spec fn weekday_number(d: CivilDate) -> int {
    (days_from_civil(d) + 3) % 7
}

/// Stepping from a day whose weekday is `current` to the weekday `wanted`.
proof fn lemma_weekday_step(days: int, wanted: int)
    requires
        0 <= wanted < 7,
    ensures
        0 <= (wanted + 7 - (days + 3) % 7) % 7 < 7,
        (days + (wanted + 7 - (days + 3) % 7) % 7 + 3) % 7 == wanted,
{
    let c = (days + 3) % 7;
    let q = (days + 3) / 7;
    vstd::arithmetic::div_mod::lemma_fundamental_div_mod(days + 3, 7);
    let a = (wanted + 7 - c) % 7;
    vstd::arithmetic::div_mod::lemma_fundamental_div_mod(wanted + 7 - c, 7);
    assert(0 <= c < 7);
    assert(a == wanted - c || a == wanted - c + 7);
    assert(days + a + 3 == 7 * q + wanted || days + a + 3 == 7 * (q + 1) + wanted);
    vstd::arithmetic::div_mod::lemma_mod_multiples_vanish(q, wanted, 7);
    vstd::arithmetic::div_mod::lemma_mod_multiples_vanish(q + 1, wanted, 7);
    vstd::arithmetic::div_mod::lemma_small_mod(wanted as nat, 7);
}

/// A named weekday is the coming one: from any day the calendar counts, the
/// day it points at falls on that weekday, today or within the next six days.
/// The calendar facts assumed are those of the day and its next six days.
pub proof fn lemma_named_weekday_is_the_coming_one(today: CivilDate, wanted: u32, d: CivilDate)
    requires
        wanted < 7,
        weekday_of(today) == Some(weekday_number(today) as u32),
        forall|k: int|
            0 <= k < 7 && #[trigger] date_plus_days(today, k) is Some ==> days_from_civil(
                date_plus_days(today, k)->0,
            ) == days_from_civil(today) + k,
        day_date(today, Some(DayHint::Named(wanted))) == Ok::<CivilDate, AppError>(d),
    ensures
        weekday_number(d) == wanted,
        0 <= days_from_civil(d) - days_from_civil(today) < 7,
{
    lemma_weekday_step(days_from_civil(today), wanted as int);
    let k = (wanted + 7 - weekday_number(today)) % 7;
    assert(date_plus_days(today, k) is Some);
}

fn day_date_exec(today: CivilDate, day: Option<DayHint>) -> (r: AppResult<CivilDate>)
    ensures
        r == day_date(today, day),
        day matches Some(DayHint::Named(wanted)) ==> (wanted < 7 ==> (r matches Ok(d) ==> {
            &&& weekday_number(d) == wanted
            &&& 0 <= days_from_civil(d) - days_from_civil(today) < 7
        })),
        day matches Some(DayHint::Named(wanted)) ==> (wanted < 7 && valid_date(today) && first_day()
            <= days_from_civil(today) && days_from_civil(today) + 6 <= last_day() ==> r is Ok),
{
    match day {
        None => Ok(today),
        Some(DayHint::Offset(days)) => match add_days(today, days) {
            Some(date) => Ok(date),
            None => Err(invalid("transcript")),
        },
        Some(DayHint::Named(wanted)) => match weekday(today) {
            Some(current) => {
                let ahead: i64 = (wanted as i64 + 7 - current as i64) % 7;
                proof {
                    if wanted < 7 {
                        lemma_weekday_step(days_from_civil(today), wanted as int);
                    }
                }
                match add_days(today, ahead) {
                    Some(date) => Ok(date),
                    None => Err(invalid("transcript")),
                }
            },
            None => Err(invalid("transcript")),
        },
    }
}

/// The hour, the minute, and whether a clock time was named; `None` when the
/// phrase named no time and no day.
pub open spec fn chosen_time(f: FoundView, fallback: TimePreset) -> Option<(u32, u32, bool)> {
    match f.clock {
        Some(clock) => Some(
            (
                if clock.twelve_hour {
                    daytime_reading(clock.hour)
                } else {
                    clock.hour
                },
                clock.minute,
                true,
            ),
        ),
        None => match f.part_of_day {
            Some((hour, minute)) => Some((hour, minute, false)),
            None => if f.day is Some {
                Some(((fallback@ / 60) as u32, (fallback@ % 60) as u32, false))
            } else {
                None
            },
        },
    }
}

/// A reading with no day named that has already gone today: its twelve-hour
/// twin while that is still ahead, else the same reading tomorrow.
pub open spec fn roll_forward(
    clock: Option<SpokenClock>,
    now: Timestamp,
    zone: Seq<char>,
    date: CivilDate,
    hour: u32,
    minute: u32,
) -> AppResult<Timestamp> {
    if clock matches Some(c) && c.twelve_hour {
        match instant_at(date, twelve_hour_twin(hour), minute, zone) {
            Err(e) => Err(e),
            Ok(twin_at) => if twin_at.0 > now.0 {
                Ok(twin_at)
            } else {
                instant_days_later(date, 1, hour, minute, zone)
            },
        }
    } else {
        instant_days_later(date, 1, hour, minute, zone)
    }
}

/// Where the reading lands: an hour with no day is the next time the clock
/// reads it, a named day stays where it was put, and a weekday is the coming
/// one.
pub open spec fn place(
    f: FoundView,
    now: Timestamp,
    zone: Seq<char>,
    date: CivilDate,
    hour: u32,
    minute: u32,
) -> AppResult<Timestamp> {
    match instant_at(date, hour, minute, zone) {
        Err(e) => Err(e),
        Ok(at) => {
            let rolled = if f.day is None && at.0 <= now.0 {
                roll_forward(f.clock, now, zone, date, hour, minute)
            } else {
                Ok(at)
            };
            match rolled {
                Err(e) => Err(e),
                Ok(at) => if f.day matches Some(DayHint::Named(_)) && at.0 <= now.0 {
                    instant_days_later(date, 7, hour, minute, zone)
                } else {
                    Ok(at)
                },
            }
        },
    }
}

/// Places what was found on the calendar: the instant, and whether a clock
/// time was named.
pub open spec fn resolve(f: FoundView, now: Timestamp, zone: Seq<char>, fallback: TimePreset) -> AppResult<
    (Option<Timestamp>, bool),
> {
    match f.distance {
        Some(minutes) => Ok(
            (Some(Timestamp(clamp_i64(now.0 + clamp_i64(minutes * 60_000)) as i64)), false),
        ),
        None => match zone_reading(now.0 as int, zone) {
            None => Err(invalid_timestamp()),
            Some(reading) => match chosen_time(f, fallback) {
                None => Ok((None, false)),
                Some((hour, minute, named)) => match day_date(reading.date, f.day) {
                    Err(e) => Err(e),
                    Ok(date) => match place(f, now, zone, date, hour, minute) {
                        Err(e) => Err(e),
                        Ok(at) => Ok((Some(at), named)),
                    },
                },
            },
        },
    }
}

fn place_exec(
    found: &Found,
    now: Timestamp,
    zone: &Zone,
    date: CivilDate,
    hour: u32,
    minute: u32,
) -> (r: AppResult<Timestamp>)
    ensures
        r == place(found_view(*found), now, zone@, date, hour, minute),
{
    let mut at = instant_at_exec(date, hour, minute, zone)?;
    if found.day.is_none() && at.0 <= now.0 {
        let twin = match found.clock {
            Some(clock) => clock.twelve_hour,
            None => false,
        };
        if twin {
            let twin_at = instant_at_exec(date, twelve_hour_twin_exec(hour), minute, zone)?;
            if twin_at.0 > now.0 {
                at = twin_at;
            } else {
                at = instant_days_later_exec(date, 1, hour, minute, zone)?;
            }
        } else {
            at = instant_days_later_exec(date, 1, hour, minute, zone)?;
        }
    }
    let named = match found.day {
        Some(DayHint::Named(_)) => true,
        _ => false,
    };
    if named && at.0 <= now.0 {
        at = instant_days_later_exec(date, 7, hour, minute, zone)?;
    }
    Ok(at)
}

fn resolve_exec(found: &Found, now: Timestamp, zone: &Zone, fallback: TimePreset) -> (r: AppResult<
    (Option<Timestamp>, bool),
>)
    ensures
        r == resolve(found_view(*found), now, zone@, fallback),
{
    if let Some(minutes) = found.distance {
        return Ok((Some(now.saturating_add_minutes(minutes)), false));
    }
    let today = now.to_zoned(zone)?.date;
    let (hour, minute, named): (u32, u32, bool) = match found.clock {
        Some(clock) => (
            if clock.twelve_hour {
                daytime_reading_exec(clock.hour)
            } else {
                clock.hour
            },
            clock.minute,
            true,
        ),
        None => match found.part_of_day {
            Some((hour, minute)) => (hour, minute, false),
            None => {
                if found.day.is_some() {
                    (fallback.hour() as u32, fallback.minute() as u32, false)
                } else {
                    return Ok((None, false));
                }
            },
        },
    };
    let date = day_date_exec(today, found.day)?;
    let at = place_exec(found, now, zone, date, hour, minute)?;
    Ok((Some(at), named))
}


// ---------------------------------------------------------------------------
// Title
// ---------------------------------------------------------------------------

/// The words of the first `n` tokens that no time took, as they were said.
pub open spec fn kept_words(toks: Seq<TokenView>, consumed: Seq<bool>, n: int) -> Seq<Seq<char>>
    decreases n,
{
    if n <= 0 {
        Seq::empty()
    } else if consumed[n - 1] {
        kept_words(toks, consumed, n - 1)
    } else {
        kept_words(toks, consumed, n - 1).push(toks[n - 1].text)
    }
}

/// The first character in upper case.
pub open spec fn capitalise(s: Seq<char>) -> Seq<char> {
    if s.len() == 0 {
        s
    } else {
        uppercase_of(s[0]) + s.skip(1)
    }
}

/// What is left once the time words are gone: the other words joined by single
/// spaces, or the whole transcript when nothing is left, capitalised and then
/// cut to the longest title, so that no title runs past it.
pub open spec fn title_from(toks: Seq<TokenView>, consumed: Seq<bool>, transcript: Seq<char>) -> Seq<
    char,
> {
    let kept = kept_words(toks, consumed, toks.len() as int);
    let title = if kept.len() == 0 {
        trim(transcript)
    } else {
        join_with(kept, ' ')
    };
    take_chars(capitalise(title), MAX_SPOKEN_TITLE_LEN as int)
}

fn capitalise_exec(s: &[char]) -> (out: Vec<char>)
    ensures
        out@ == capitalise(s@),
{
    if s.len() == 0 {
        return copy_range(s, 0, 0);
    }
    let mut chars = uppercase_char(s[0]);
    let rest = copy_range(s, 1, s.len());
    append_chars(&mut chars, &rest);
    assert(chars@ =~= capitalise(s@));
    chars
}

fn title_exec(tokens: &Vec<Token>, consumed: &Vec<bool>, transcript: &[char]) -> (title: String)
    requires
        consumed@.len() == tokens@.len(),
    ensures
        title@ == title_from(token_views(tokens@), consumed@, transcript@),
{
    let ghost toks = token_views(tokens@);
    let mut kept: Vec<Vec<char>> = Vec::new();
    let mut i: usize = 0;
    while i < tokens.len()
        invariant
            i <= tokens@.len() == consumed@.len(),
            toks == token_views(tokens@),
            vviews(kept@) == kept_words(toks, consumed@, i as int),
        decreases tokens.len() - i,
    {
        if !consumed[i] {
            let word = copy_range(&tokens[i].text, 0, tokens[i].text.len());
            let ghost before = vviews(kept@);
            kept.push(word);
            assert(word@ =~= toks[i as int].text);
            assert(vviews(kept@) =~= before.push(toks[i as int].text));
        }
        i = i + 1;
    }
    let whole = if kept.len() == 0 {
        trim_chars(transcript)
    } else {
        join_chars(&kept, ' ')
    };
    let capitalised = capitalise_exec(&whole);
    string_of(&take_prefix(&capitalised, MAX_SPOKEN_TITLE_LEN))
}

// ---------------------------------------------------------------------------
// Reading a phrase
// ---------------------------------------------------------------------------

proof fn lemma_word_fields_nonempty(s: Seq<char>)
    ensures
        word_fields(s).len() >= 1,
    decreases s.len(),
{
    if s.len() > 0 {
        lemma_word_fields_nonempty(s.drop_last());
    }
}

proof fn lemma_stripped_push(fields: Seq<Seq<char>>, w: Seq<char>)
    ensures
        stripped_words(fields.push(w)).len() <= stripped_words(fields).len() + (if w.len() > 0 {
            1int
        } else {
            0int
        }),
{
    assert(fields.push(w).drop_last() =~= fields);
    if w.len() == 0 {
        assert(strip_marks_start(w) == w);
        assert(strip_marks_end(w) == w);
    }
}

/// Every word that is kept holds at least one character of the text, so there
/// are never more words than characters.
proof fn lemma_word_count(s: Seq<char>)
    ensures
        stripped_words(word_fields(s).drop_last()).len() + (if word_fields(s).last().len() > 0 {
            1int
        } else {
            0int
        }) <= s.len(),
        phrase_words(s).len() <= s.len(),
    decreases s.len(),
{
    lemma_word_fields_nonempty(s);
    if s.len() > 0 {
        let prev = word_fields(s.drop_last());
        lemma_word_count(s.drop_last());
        lemma_word_fields_nonempty(s.drop_last());
        assert(prev =~= prev.drop_last().push(prev.last()));
        lemma_stripped_push(prev.drop_last(), prev.last());
        if !is_word_char(s.last()) {
            assert(word_fields(s).drop_last() =~= prev);
        } else {
            assert(word_fields(s).drop_last() =~= prev.drop_last());
        }
    }
    let fields = word_fields(s);
    assert(fields =~= fields.drop_last().push(fields.last()));
    lemma_stripped_push(fields.drop_last(), fields.last());
}

/// Reads a dictated phrase against a given moment and zone.
///
/// `fallback_time` is the hour a phrase that named a day but no time lands on;
/// a phrase that named neither comes back with no instant and lets the caller
/// decide.
///
/// # Errors
/// A required `transcript` for one with no words in it; an invalid `timestamp`
/// when `now` has no reading in the zone; an invalid `transcript` when what was
/// said cannot be placed on the calendar.
pub fn parse_phrase(transcript: &str, now: Timestamp, zone: &Zone, fallback_time: TimePreset) -> (r:
    AppResult<ParsedPhrase>)
    requires
        transcript@.len() <= isize::MAX,
    ensures
        phrase_tokens(transcript@).len() == 0 ==> r == Err::<ParsedPhrase, AppError>(
            AppError::Validation(ValidationError::Required { field: "transcript" }),
        ),
        phrase_tokens(transcript@).len() > 0 ==> {
            let toks = phrase_tokens(transcript@);
            let found = scan(toks);
            match resolve(found, now, zone@, fallback_time) {
                Err(e) => r == Err::<ParsedPhrase, AppError>(e),
                Ok((named_at, named_clock_time)) => r matches Ok(p) && p@ == PhraseView {
                    title: title_from(toks, found.consumed, transcript@),
                    named_at,
                    named_clock_time,
                },
            }
        },
        r matches Ok(p) ==> p.title@.len() <= MAX_SPOKEN_TITLE_LEN,
{
    let text = chars_of(transcript);
    let tokens = tokenise(&text);
    proof {
        lemma_word_count(transcript@);
        assert(token_views(tokens@).len() == tokens@.len());
    }
    if tokens.len() == 0 {
        return Err(AppError::Validation(ValidationError::Required { field: "transcript" }));
    }
    let found = scan_exec(&tokens);
    let title = title_exec(&tokens, &found.consumed, &text);
    let (named_at, named_clock_time) = resolve_exec(&found, now, zone, fallback_time)?;
    Ok(ParsedPhrase { title, named_at, named_clock_time })
}

/// The next time the clock reads a given time of day: today while it is still
/// ahead, tomorrow once it has passed.
pub open spec fn next_time_of_day_at(time: TimePreset, now: Timestamp, zone: Seq<char>) -> AppResult<
    Timestamp,
> {
    match zone_reading(now.0 as int, zone) {
        None => Err(invalid_timestamp()),
        Some(reading) => {
            let hour = (time@ / 60) as u32;
            let minute = (time@ % 60) as u32;
            match instant_at(reading.date, hour, minute, zone) {
                Err(e) => Err(e),
                Ok(at) => if at.0 > now.0 {
                    Ok(at)
                } else {
                    instant_days_later(reading.date, 1, hour, minute, zone)
                },
            }
        },
    }
}

/// The next time the clock reads a given time of day: today while it is still
/// ahead, tomorrow once it has passed.
///
/// # Errors
/// An invalid `timestamp` when `now` has no reading in the zone, and an invalid
/// `transcript` when the time cannot be placed on the calendar.
pub fn next_time_of_day(time: TimePreset, now: Timestamp, zone: &Zone) -> (r: AppResult<Timestamp>)
    ensures
        r == next_time_of_day_at(time, now, zone@),
{
    let today = now.to_zoned(zone)?.date;
    let hour = time.hour() as u32;
    let minute = time.minute() as u32;
    let at = instant_at_exec(today, hour, minute, zone)?;
    if at.0 > now.0 {
        return Ok(at);
    }
    instant_days_later_exec(today, 1, hour, minute, zone)
}

/// A time of day a number of days ahead: nought is the next time the clock
/// reads it, and any other number is that many days after today.
pub open spec fn time_of_day_in(time: TimePreset, now: Timestamp, zone: Seq<char>, days: u16) -> AppResult<
    Timestamp,
> {
    if days == 0 {
        next_time_of_day_at(time, now, zone)
    } else {
        match zone_reading(now.0 as int, zone) {
            None => Err(invalid_timestamp()),
            Some(reading) => instant_days_later(
                reading.date,
                days as int,
                (time@ / 60) as u32,
                (time@ % 60) as u32,
                zone,
            ),
        }
    }
}

/// The time of day a phrase with no time in it lands on, `days` ahead of today.
///
/// # Errors
/// As [`next_time_of_day`].
pub fn time_of_day_in_days(time: TimePreset, now: Timestamp, zone: &Zone, days: u16) -> (r: AppResult<
    Timestamp,
>)
    ensures
        r == time_of_day_in(time, now, zone@, days),
{
    if days == 0 {
        return next_time_of_day(time, now, zone);
    }
    let today = now.to_zoned(zone)?.date;
    instant_days_later_exec(today, days as i64, time.hour() as u32, time.minute() as u32, zone)
}


// ---------------------------------------------------------------------------
// Laws
// ---------------------------------------------------------------------------

/// A distance from now is measured from now, with nothing taken off it, and
/// is never a clock time the lead applies to.
pub proof fn lemma_distance_is_measured_from_now(
    f: FoundView,
    now: Timestamp,
    zone: Seq<char>,
    fallback: TimePreset,
    minutes: i64,
)
    requires
        f.distance == Some(minutes),
    ensures
        resolve(f, now, zone, fallback) == Ok::<(Option<Timestamp>, bool), AppError>(
            (Some(Timestamp(clamp_i64(now.0 + clamp_i64(minutes * 60_000)) as i64)), false),
        ),
{
}

/// A phrase that named no time, no day and no distance comes back with no
/// instant, so the caller decides where it lands.
pub proof fn lemma_nothing_named_is_not_placed(
    f: FoundView,
    now: Timestamp,
    zone: Seq<char>,
    fallback: TimePreset,
)
    requires
        f.distance is None,
        f.clock is None,
        f.part_of_day is None,
        f.day is None,
        zone_reading(now.0 as int, zone) is Some,
    ensures
        resolve(f, now, zone, fallback) == Ok::<(Option<Timestamp>, bool), AppError>((None, false)),
{
}

/// The lead applies exactly when a clock time was said: an instant placed
/// counts as a named clock time if and only if a clock time was found and no
/// distance from now was.
pub proof fn lemma_named_clock_time_means_a_clock(
    f: FoundView,
    now: Timestamp,
    zone: Seq<char>,
    fallback: TimePreset,
)
    ensures
        resolve(f, now, zone, fallback) matches Ok((_, named)) ==> (named <==> (f.distance is None
            && f.clock is Some)),
        resolve(f, now, zone, fallback) matches Ok((None, _)) ==> (f.distance is None && f.clock is None
            && f.part_of_day is None && f.day is None),
{
}

} // verus!
