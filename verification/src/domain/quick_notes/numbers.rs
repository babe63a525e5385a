//! Numbers said out loud.
//!
//! A recogniser writes `15:00` when someone says it with digits, but it writes
//! «в три часа», «полвторого» and «без пятнадцати шесть» exactly as they were
//! said. This module is the dictionary that turns those words into numbers.
//!
//! Only the words a clock needs are here: nothing above fifty-nine. A number
//! this table does not know stays a word and ends up in the note's title, which
//! is the safe direction to fail in. Declined Russian forms are listed beside
//! the nominative rather than stripped by rule, because a rule that guesses
//! endings would also accept words that are not numbers at all.

use vstd::prelude::*;

use crate::text::{chars_of, copy_range, eq_str};

verus! {

pub open spec fn cardinal_of(w: Seq<char>) -> Option<u32> {
    if w == "ноль"@ || w == "нуль"@ || w == "zero"@ {
        Some(0)
    } else if w == "один"@ || w == "одна"@ || w == "одного"@ || w == "час"@ || w == "one"@ {
        Some(1)
    } else if w == "два"@ || w == "две"@ || w == "двух"@ || w == "two"@ {
        Some(2)
    } else if w == "три"@ || w == "трёх"@ || w == "трех"@ || w == "three"@ {
        Some(3)
    } else if w == "четыре"@ || w == "четырёх"@ || w == "четырех"@ || w == "four"@ {
        Some(4)
    } else if w == "пять"@ || w == "пяти"@ || w == "five"@ {
        Some(5)
    } else if w == "шесть"@ || w == "шести"@ || w == "six"@ {
        Some(6)
    } else if w == "семь"@ || w == "семи"@ || w == "seven"@ {
        Some(7)
    } else if w == "восемь"@ || w == "восьми"@ || w == "eight"@ {
        Some(8)
    } else if w == "девять"@ || w == "девяти"@ || w == "nine"@ {
        Some(9)
    } else if w == "десять"@ || w == "десяти"@ || w == "ten"@ {
        Some(10)
    } else if w == "одиннадцать"@ || w == "одиннадцати"@ || w == "eleven"@ {
        Some(11)
    } else if w == "двенадцать"@ || w == "двенадцати"@ || w == "twelve"@ {
        Some(12)
    } else if w == "тринадцать"@ || w == "тринадцати"@ || w == "thirteen"@ {
        Some(13)
    } else if w == "четырнадцать"@ || w == "четырнадцати"@ || w == "fourteen"@ {
        Some(14)
    } else if w == "пятнадцать"@ || w == "пятнадцати"@ || w == "четверть"@ || w == "четверти"@ || w == "fifteen"@ || w == "quarter"@ {
        Some(15)
    } else if w == "шестнадцать"@ || w == "шестнадцати"@ || w == "sixteen"@ {
        Some(16)
    } else if w == "семнадцать"@ || w == "семнадцати"@ || w == "seventeen"@ {
        Some(17)
    } else if w == "восемнадцать"@ || w == "восемнадцати"@ || w == "eighteen"@ {
        Some(18)
    } else if w == "девятнадцать"@ || w == "девятнадцати"@ || w == "nineteen"@ {
        Some(19)
    } else if w == "двадцать"@ || w == "двадцати"@ || w == "twenty"@ {
        Some(20)
    } else if w == "тридцать"@ || w == "тридцати"@ || w == "thirty"@ {
        Some(30)
    } else if w == "сорок"@ || w == "сорока"@ || w == "forty"@ {
        Some(40)
    } else if w == "пятьдесят"@ || w == "пятидесяти"@ || w == "fifty"@ {
        Some(50)
    } else {
        None
    }
}

pub fn cardinal_chars(w: &[char]) -> (r: Option<u32>)
    ensures
        r == cardinal_of(w@),
{
    if eq_str(w, "ноль") || eq_str(w, "нуль") || eq_str(w, "zero") {
        Some(0)
    } else if eq_str(w, "один") || eq_str(w, "одна") || eq_str(w, "одного") || eq_str(w, "час") || eq_str(w, "one") {
        Some(1)
    } else if eq_str(w, "два") || eq_str(w, "две") || eq_str(w, "двух") || eq_str(w, "two") {
        Some(2)
    } else if eq_str(w, "три") || eq_str(w, "трёх") || eq_str(w, "трех") || eq_str(w, "three") {
        Some(3)
    } else if eq_str(w, "четыре") || eq_str(w, "четырёх") || eq_str(w, "четырех") || eq_str(w, "four") {
        Some(4)
    } else if eq_str(w, "пять") || eq_str(w, "пяти") || eq_str(w, "five") {
        Some(5)
    } else if eq_str(w, "шесть") || eq_str(w, "шести") || eq_str(w, "six") {
        Some(6)
    } else if eq_str(w, "семь") || eq_str(w, "семи") || eq_str(w, "seven") {
        Some(7)
    } else if eq_str(w, "восемь") || eq_str(w, "восьми") || eq_str(w, "eight") {
        Some(8)
    } else if eq_str(w, "девять") || eq_str(w, "девяти") || eq_str(w, "nine") {
        Some(9)
    } else if eq_str(w, "десять") || eq_str(w, "десяти") || eq_str(w, "ten") {
        Some(10)
    } else if eq_str(w, "одиннадцать") || eq_str(w, "одиннадцати") || eq_str(w, "eleven") {
        Some(11)
    } else if eq_str(w, "двенадцать") || eq_str(w, "двенадцати") || eq_str(w, "twelve") {
        Some(12)
    } else if eq_str(w, "тринадцать") || eq_str(w, "тринадцати") || eq_str(w, "thirteen") {
        Some(13)
    } else if eq_str(w, "четырнадцать") || eq_str(w, "четырнадцати") || eq_str(w, "fourteen") {
        Some(14)
    } else if eq_str(w, "пятнадцать") || eq_str(w, "пятнадцати") || eq_str(w, "четверть") || eq_str(w, "четверти") || eq_str(w, "fifteen") || eq_str(w, "quarter") {
        Some(15)
    } else if eq_str(w, "шестнадцать") || eq_str(w, "шестнадцати") || eq_str(w, "sixteen") {
        Some(16)
    } else if eq_str(w, "семнадцать") || eq_str(w, "семнадцати") || eq_str(w, "seventeen") {
        Some(17)
    } else if eq_str(w, "восемнадцать") || eq_str(w, "восемнадцати") || eq_str(w, "eighteen") {
        Some(18)
    } else if eq_str(w, "девятнадцать") || eq_str(w, "девятнадцати") || eq_str(w, "nineteen") {
        Some(19)
    } else if eq_str(w, "двадцать") || eq_str(w, "двадцати") || eq_str(w, "twenty") {
        Some(20)
    } else if eq_str(w, "тридцать") || eq_str(w, "тридцати") || eq_str(w, "thirty") {
        Some(30)
    } else if eq_str(w, "сорок") || eq_str(w, "сорока") || eq_str(w, "forty") {
        Some(40)
    } else if eq_str(w, "пятьдесят") || eq_str(w, "пятидесяти") || eq_str(w, "fifty") {
        Some(50)
    } else {
        None
    }
}

pub open spec fn ordinal_of(w: Seq<char>) -> Option<u32> {
    if w == "первого"@ || w == "первому"@ || w == "first"@ {
        Some(1)
    } else if w == "второго"@ || w == "второму"@ || w == "second"@ {
        Some(2)
    } else if w == "третьего"@ || w == "третьему"@ || w == "third"@ {
        Some(3)
    } else if w == "четвёртого"@ || w == "четвертого"@ || w == "fourth"@ {
        Some(4)
    } else if w == "пятого"@ || w == "fifth"@ {
        Some(5)
    } else if w == "шестого"@ || w == "sixth"@ {
        Some(6)
    } else if w == "седьмого"@ || w == "seventh"@ {
        Some(7)
    } else if w == "восьмого"@ || w == "eighth"@ {
        Some(8)
    } else if w == "девятого"@ || w == "ninth"@ {
        Some(9)
    } else if w == "десятого"@ || w == "tenth"@ {
        Some(10)
    } else if w == "одиннадцатого"@ || w == "eleventh"@ {
        Some(11)
    } else if w == "двенадцатого"@ || w == "twelfth"@ {
        Some(12)
    } else {
        None
    }
}

pub fn ordinal_chars(w: &[char]) -> (r: Option<u32>)
    ensures
        r == ordinal_of(w@),
{
    if eq_str(w, "первого") || eq_str(w, "первому") || eq_str(w, "first") {
        Some(1)
    } else if eq_str(w, "второго") || eq_str(w, "второму") || eq_str(w, "second") {
        Some(2)
    } else if eq_str(w, "третьего") || eq_str(w, "третьему") || eq_str(w, "third") {
        Some(3)
    } else if eq_str(w, "четвёртого") || eq_str(w, "четвертого") || eq_str(w, "fourth") {
        Some(4)
    } else if eq_str(w, "пятого") || eq_str(w, "fifth") {
        Some(5)
    } else if eq_str(w, "шестого") || eq_str(w, "sixth") {
        Some(6)
    } else if eq_str(w, "седьмого") || eq_str(w, "seventh") {
        Some(7)
    } else if eq_str(w, "восьмого") || eq_str(w, "eighth") {
        Some(8)
    } else if eq_str(w, "девятого") || eq_str(w, "ninth") {
        Some(9)
    } else if eq_str(w, "десятого") || eq_str(w, "tenth") {
        Some(10)
    } else if eq_str(w, "одиннадцатого") || eq_str(w, "eleventh") {
        Some(11)
    } else if eq_str(w, "двенадцатого") || eq_str(w, "twelfth") {
        Some(12)
    } else {
        None
    }
}

pub open spec fn named_hour_of(w: Seq<char>) -> Option<(u32, u32)> {
    if w == "полдень"@ || w == "полудня"@ || w == "noon"@ || w == "midday"@ {
        Some((12u32, 0u32))
    } else if w == "полночь"@ || w == "полуночи"@ || w == "midnight"@ {
        Some((0u32, 0u32))
    } else {
        None
    }
}

pub fn named_hour_chars(w: &[char]) -> (r: Option<(u32, u32)>)
    ensures
        r == named_hour_of(w@),
{
    if eq_str(w, "полдень") || eq_str(w, "полудня") || eq_str(w, "noon") || eq_str(w, "midday") {
        Some((12u32, 0u32))
    } else if eq_str(w, "полночь") || eq_str(w, "полуночи") || eq_str(w, "midnight") {
        Some((0u32, 0u32))
    } else {
        None
    }
}

pub open spec fn part_of_day_of(w: Seq<char>) -> Option<(u32, u32)> {
    if w == "утро"@ || w == "утром"@ || w == "утра"@ || w == "morning"@ {
        Some((9u32, 0u32))
    } else if w == "день"@ || w == "днём"@ || w == "днем"@ || w == "полдня"@ || w == "afternoon"@ {
        Some((13u32, 0u32))
    } else if w == "вечер"@ || w == "вечером"@ || w == "вечера"@ || w == "evening"@ {
        Some((19u32, 0u32))
    } else if w == "ночь"@ || w == "ночью"@ || w == "ночи"@ || w == "night"@ {
        Some((22u32, 0u32))
    } else {
        None
    }
}

pub fn part_of_day_chars(w: &[char]) -> (r: Option<(u32, u32)>)
    ensures
        r == part_of_day_of(w@),
{
    if eq_str(w, "утро") || eq_str(w, "утром") || eq_str(w, "утра") || eq_str(w, "morning") {
        Some((9u32, 0u32))
    } else if eq_str(w, "день") || eq_str(w, "днём") || eq_str(w, "днем") || eq_str(w, "полдня") || eq_str(w, "afternoon") {
        Some((13u32, 0u32))
    } else if eq_str(w, "вечер") || eq_str(w, "вечером") || eq_str(w, "вечера") || eq_str(w, "evening") {
        Some((19u32, 0u32))
    } else if eq_str(w, "ночь") || eq_str(w, "ночью") || eq_str(w, "ночи") || eq_str(w, "night") {
        Some((22u32, 0u32))
    } else {
        None
    }
}


/// Whether `w` begins with `prefix`.
pub open spec fn starts_with(w: Seq<char>, prefix: Seq<char>) -> bool {
    prefix.len() <= w.len() && w.take(prefix.len() as int) == prefix
}

pub fn starts_with_str(w: &[char], prefix: &str) -> (b: bool)
    ensures
        b == starts_with(w@, prefix@),
{
    let p = chars_of(prefix);
    if p.len() > w.len() {
        return false;
    }
    let mut i: usize = 0;
    while i < p.len()
        invariant
            i <= p@.len() <= w@.len(),
            p@ == prefix@,
            forall|j: int| 0 <= j < i ==> w@[j] == p@[j],
        decreases p.len() - i,
    {
        if w[i] != p[i] {
            assert(w@.take(p@.len() as int)[i as int] != p@[i as int]);
            return false;
        }
        i = i + 1;
    }
    assert(w@.take(p@.len() as int) =~= p@);
    true
}

/// The hour named by a written-together half: «полвторого» is half of the
/// second hour, and names 2.
pub open spec fn half_of_spec(w: Seq<char>) -> Option<u32> {
    if starts_with(w, "пол"@) && w.len() > "пол"@.len() {
        ordinal_of(w.skip("пол"@.len() as int))
    } else {
        None
    }
}

pub fn half_of_chars(w: &[char]) -> (r: Option<u32>)
    ensures
        r == half_of_spec(w@),
{
    if !starts_with_str(w, "пол") {
        return None;
    }
    let prefix = chars_of("пол");
    if w.len() <= prefix.len() {
        return None;
    }
    let rest = copy_range(w, prefix.len(), w.len());
    assert(rest@ =~= w@.skip(prefix@.len() as int));
    ordinal_chars(&rest)
}

/// Every cardinal the table knows is at most fifty.
pub proof fn lemma_cardinal_bound(w: Seq<char>)
    ensures
        cardinal_of(w) matches Some(v) ==> v <= 50,
{
}

/// Ordinals run from the first hour to the twelfth.
pub proof fn lemma_ordinal_bound(w: Seq<char>)
    ensures
        ordinal_of(w) matches Some(v) ==> 1 <= v <= 12,
        half_of_spec(w) matches Some(v) ==> 1 <= v <= 12,
{
}

/// A cardinal — «три», «пятнадцать», "twenty" — as far as a clock needs them.
pub fn cardinal(word: &str) -> (r: Option<u32>)
    ensures
        r == cardinal_of(word@),
        r matches Some(v) ==> v <= 50,
{
    cardinal_chars(&chars_of(word))
}

pub open spec fn is_tens_spec(value: u32) -> bool {
    value == 20 || value == 30 || value == 40 || value == 50
}

/// True for the numbers that can carry units behind them: «двадцать три».
pub fn is_tens(value: u32) -> (b: bool)
    ensures
        b == is_tens_spec(value),
{
    value == 20 || value == 30 || value == 40 || value == 50
}

/// An ordinal in the genitive — «второго», «третьего» — the case Russian uses
/// for halves.
pub fn ordinal(word: &str) -> (r: Option<u32>)
    ensures
        r == ordinal_of(word@),
        r matches Some(v) ==> 1 <= v <= 12,
{
    ordinal_chars(&chars_of(word))
}

/// The hour named by a written-together half: «полвторого» → 2, meaning 01:30.
pub fn half_of(word: &str) -> (r: Option<u32>)
    ensures
        r == half_of_spec(word@),
        r matches Some(v) ==> 1 <= v <= 12,
{
    half_of_chars(&chars_of(word))
}

/// The two hours that have names instead of numbers.
pub fn named_hour(word: &str) -> (r: Option<(u32, u32)>)
    ensures
        r == named_hour_of(word@),
{
    named_hour_chars(&chars_of(word))
}

/// The rough hour a part of the day stands for, for phrases that name no clock
/// time at all — «завтра утром».
pub fn part_of_day(word: &str) -> (r: Option<(u32, u32)>)
    ensures
        r == part_of_day_of(word@),
        r matches Some((h, m)) ==> h < 24 && m == 0,
{
    part_of_day_chars(&chars_of(word))
}

} // verus!
