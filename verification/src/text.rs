//! Characters and strings: the small text operations everything else is built on.
//!
//! Text is handled as a sequence of Unicode scalar values, which is what a
//! `str` is to the verifier. Whitespace follows the Unicode `White_Space`
//! property, exactly as `char::is_whitespace` documents it; the letter tables
//! behind case folding and `is_alphanumeric` are far larger and are taken from
//! the standard library under a name.

use vstd::prelude::*;

verus! {

// ------------------------------------------------------------ whitespace --

/// The Unicode `White_Space` property.
pub open spec fn is_ws(c: char) -> bool {
    let v = c as u32;
    ||| 9 <= v <= 13
    ||| v == 32
    ||| v == 0x85
    ||| v == 0xA0
    ||| v == 0x1680
    ||| 0x2000 <= v <= 0x200A
    ||| v == 0x2028
    ||| v == 0x2029
    ||| v == 0x202F
    ||| v == 0x205F
    ||| v == 0x3000
}

pub fn is_whitespace(c: char) -> (b: bool)
    ensures
        b == is_ws(c),
{
    let v = c as u32;
    (9 <= v && v <= 13) || v == 32 || v == 0x85 || v == 0xA0 || v == 0x1680 || (0x2000 <= v
        && v <= 0x200A) || v == 0x2028 || v == 0x2029 || v == 0x202F || v == 0x205F || v == 0x3000
}

// ---------------------------------------------------------------- trims --

/// The text with leading whitespace removed.
pub open spec fn trim_start(s: Seq<char>) -> Seq<char>
    decreases s.len(),
{
    if s.len() > 0 && is_ws(s[0]) {
        trim_start(s.drop_first())
    } else {
        s
    }
}

/// The text with trailing whitespace removed.
pub open spec fn trim_end(s: Seq<char>) -> Seq<char>
    decreases s.len(),
{
    if s.len() > 0 && is_ws(s.last()) {
        trim_end(s.drop_last())
    } else {
        s
    }
}

/// The text with whitespace removed from both ends.
pub open spec fn trim(s: Seq<char>) -> Seq<char> {
    trim_end(trim_start(s))
}

pub proof fn lemma_trim_start_suffix(s: Seq<char>, i: int)
    requires
        0 <= i <= s.len(),
        forall|j: int| 0 <= j < i ==> #[trigger] is_ws(s[j]),
    ensures
        trim_start(s) == trim_start(s.subrange(i, s.len() as int)),
    decreases i,
{
    if i > 0 {
        assert(s.drop_first() =~= s.subrange(1, s.len() as int));
        lemma_trim_start_suffix(s.drop_first(), i - 1);
        assert(s.drop_first().subrange(i - 1, s.drop_first().len() as int) =~= s.subrange(
            i,
            s.len() as int,
        ));
    } else {
        assert(s.subrange(0, s.len() as int) =~= s);
    }
}

pub proof fn lemma_trim_end_prefix(s: Seq<char>, k: int)
    requires
        0 <= k <= s.len(),
        forall|j: int| k <= j < s.len() ==> #[trigger] is_ws(s[j]),
    ensures
        trim_end(s) == trim_end(s.subrange(0, k)),
    decreases s.len() - k,
{
    if k < s.len() {
        assert(s.drop_last() =~= s.subrange(0, s.len() - 1));
        lemma_trim_end_prefix(s.drop_last(), k);
        assert(s.drop_last().subrange(0, k) =~= s.subrange(0, k));
    } else {
        assert(s.subrange(0, k) =~= s);
    }
}

/// Copies a range of characters.
pub fn copy_range(s: &[char], from: usize, to: usize) -> (out: Vec<char>)
    requires
        from <= to <= s@.len(),
    ensures
        out@ == s@.subrange(from as int, to as int),
{
    let mut out: Vec<char> = Vec::new();
    let mut i = from;
    while i < to
        invariant
            from <= i <= to <= s@.len(),
            out@ == s@.subrange(from as int, i as int),
        decreases to - i,
    {
        out.push(s[i]);
        i = i + 1;
    }
    out
}

/// The characters with whitespace removed from both ends.
pub fn trim_chars(s: &[char]) -> (out: Vec<char>)
    ensures
        out@ == trim(s@),
{
    let n = s.len();
    let mut start: usize = 0;
    while start < n && is_whitespace(s[start])
        invariant
            start <= n == s@.len(),
            forall|j: int| 0 <= j < start ==> #[trigger] is_ws(s@[j]),
        decreases n - start,
    {
        start = start + 1;
    }
    proof {
        lemma_trim_start_suffix(s@, start as int);
    }
    let mut end: usize = n;
    while end > start && is_whitespace(s[end - 1])
        invariant
            start <= end <= n == s@.len(),
            forall|j: int| end <= j < n ==> #[trigger] is_ws(s@[j]),
        decreases end,
    {
        end = end - 1;
    }
    let ghost rest = s@.subrange(start as int, n as int);
    proof {
        // trim_start(s) is exactly `rest` when it does not begin with a space.
        if start < n {
            assert(!is_ws(rest[0]));
            assert(trim_start(rest) == rest);
        } else {
            assert(rest.len() == 0);
        }
        assert forall|j: int| end - start <= j < rest.len() implies #[trigger] is_ws(rest[j]) by {
            assert(rest[j] == s@[j + start]);
        }
        lemma_trim_end_prefix(rest, end - start);
        assert(rest.subrange(0, end - start) =~= s@.subrange(start as int, end as int));
        let kept = s@.subrange(start as int, end as int);
        if end > start {
            assert(!is_ws(kept.last()));
        }
        assert(trim_end(kept) == kept);
    }
    copy_range(s, start, end)
}

// --------------------------------------------------------------- fields --

/// The text cut at every whitespace character, as `str::split` would cut it:
/// `n` separators make `n + 1` fields, empty ones included.
pub open spec fn ws_fields(s: Seq<char>) -> Seq<Seq<char>>
    decreases s.len(),
{
    if s.len() == 0 {
        seq![Seq::<char>::empty()]
    } else {
        let prev = ws_fields(s.drop_last());
        if is_ws(s.last()) {
            prev.push(Seq::<char>::empty())
        } else {
            prev.drop_last().push(prev.last().push(s.last()))
        }
    }
}

/// The text cut at every line feed.
pub open spec fn line_fields(s: Seq<char>) -> Seq<Seq<char>>
    decreases s.len(),
{
    if s.len() == 0 {
        seq![Seq::<char>::empty()]
    } else {
        let prev = line_fields(s.drop_last());
        if s.last() == '\n' {
            prev.push(Seq::<char>::empty())
        } else {
            prev.drop_last().push(prev.last().push(s.last()))
        }
    }
}

pub proof fn lemma_ws_fields_nonempty(s: Seq<char>)
    ensures
        ws_fields(s).len() >= 1,
    decreases s.len(),
{
    if s.len() > 0 {
        lemma_ws_fields_nonempty(s.drop_last());
    }
}

pub proof fn lemma_line_fields_nonempty(s: Seq<char>)
    ensures
        line_fields(s).len() >= 1,
    decreases s.len(),
{
    if s.len() > 0 {
        lemma_line_fields_nonempty(s.drop_last());
    }
}

/// The parts that are not empty, in order.
pub open spec fn nonempty_parts(parts: Seq<Seq<char>>) -> Seq<Seq<char>>
    decreases parts.len(),
{
    if parts.len() == 0 {
        Seq::empty()
    } else {
        let prev = nonempty_parts(parts.drop_last());
        if parts.last().len() > 0 {
            prev.push(parts.last())
        } else {
            prev
        }
    }
}

pub proof fn lemma_nonempty_parts_push(parts: Seq<Seq<char>>, x: Seq<char>)
    ensures
        nonempty_parts(parts.push(x)) == (if x.len() > 0 {
            nonempty_parts(parts).push(x)
        } else {
            nonempty_parts(parts)
        }),
{
    assert(parts.push(x).drop_last() =~= parts);
}

/// Every part of `nonempty_parts` has something in it.
pub proof fn lemma_nonempty_parts_are_nonempty(parts: Seq<Seq<char>>)
    ensures
        forall|i: int|
            0 <= i < nonempty_parts(parts).len() ==> #[trigger] nonempty_parts(parts)[i].len() > 0,
    decreases parts.len(),
{
    if parts.len() > 0 {
        lemma_nonempty_parts_are_nonempty(parts.drop_last());
        let prev = nonempty_parts(parts.drop_last());
        if parts.last().len() > 0 {
            assert forall|i: int| 0 <= i < prev.push(parts.last()).len() implies #[trigger] prev.push(
                parts.last(),
            )[i].len() > 0 by {
                if i < prev.len() {
                    assert(prev.push(parts.last())[i] == prev[i]);
                }
            }
        }
    }
}

/// The views of a vector of character vectors.
pub open spec fn vviews(v: Seq<Vec<char>>) -> Seq<Seq<char>> {
    Seq::new(v.len(), |i: int| v[i]@)
}

/// The words of a text: runs of non-whitespace, as `str::split_whitespace` yields them.
pub open spec fn words(s: Seq<char>) -> Seq<Seq<char>> {
    nonempty_parts(ws_fields(s))
}

pub fn split_words(s: &[char]) -> (out: Vec<Vec<char>>)
    ensures
        vviews(out@) == words(s@),
{
    let mut out: Vec<Vec<char>> = Vec::new();
    let mut cur: Vec<char> = Vec::new();
    let ghost mut done: Seq<Seq<char>> = Seq::empty();
    let n = s.len();
    let mut i: usize = 0;
    assert(s@.take(0) =~= Seq::<char>::empty());
    while i < n
        invariant
            i <= n == s@.len(),
            ws_fields(s@.take(i as int)) == done.push(cur@),
            vviews(out@) == nonempty_parts(done),
        decreases n - i,
    {
        let c = s[i];
        let ghost before = s@.take(i as int);
        assert(s@.take(i as int + 1).drop_last() =~= before);
        assert(s@.take(i as int + 1).last() == c);
        if is_whitespace(c) {
            proof {
                lemma_nonempty_parts_push(done, cur@);
            }
            let ghost old_cur = cur@;
            if cur.len() > 0 {
                let finished = cur;
                out.push(finished);
                proof {
                    assert(vviews(out@) =~= nonempty_parts(done).push(old_cur));
                }
            }
            cur = Vec::new();
            proof {
                done = done.push(old_cur);
            }
            assert(ws_fields(s@.take(i as int + 1)) =~= done.push(cur@));
        } else {
            let ghost old_cur = cur@;
            cur.push(c);
            assert(ws_fields(s@.take(i as int + 1)) =~= done.push(cur@)) by {
                assert(done.push(old_cur).drop_last() =~= done);
            }
        }
        i = i + 1;
    }
    assert(s@.take(n as int) =~= s@);
    proof {
        lemma_nonempty_parts_push(done, cur@);
    }
    if cur.len() > 0 {
        let ghost last = cur@;
        out.push(cur);
        assert(vviews(out@) =~= nonempty_parts(done).push(last));
    }
    out
}

/// The text cut at every line feed, as `line_fields` describes it.
pub fn split_lines(s: &[char]) -> (out: Vec<Vec<char>>)
    ensures
        vviews(out@) == line_fields(s@),
{
    let mut out: Vec<Vec<char>> = Vec::new();
    let mut cur: Vec<char> = Vec::new();
    let n = s.len();
    let mut i: usize = 0;
    assert(s@.take(0) =~= Seq::<char>::empty());
    assert(vviews(out@).push(cur@) =~= line_fields(s@.take(0)));
    while i < n
        invariant
            i <= n == s@.len(),
            line_fields(s@.take(i as int)) == vviews(out@).push(cur@),
        decreases n - i,
    {
        let c = s[i];
        assert(s@.take(i as int + 1).drop_last() =~= s@.take(i as int));
        assert(s@.take(i as int + 1).last() == c);
        let ghost before = vviews(out@);
        let ghost old_cur = cur@;
        if c == '\n' {
            let finished = cur;
            out.push(finished);
            cur = Vec::new();
            assert(vviews(out@) =~= before.push(old_cur));
            assert(line_fields(s@.take(i as int + 1)) =~= vviews(out@).push(cur@));
        } else {
            cur.push(c);
            assert(before.push(old_cur).drop_last() =~= before);
            assert(line_fields(s@.take(i as int + 1)) =~= vviews(out@).push(cur@));
        }
        i = i + 1;
    }
    assert(s@.take(n as int) =~= s@);
    let ghost before = vviews(out@);
    out.push(cur);
    assert(vviews(out@) =~= before.push(out@.last()@));
    out
}

// ------------------------------------------------------------- digits --

pub open spec fn all_ascii_digits(s: Seq<char>) -> bool {
    forall|i: int| 0 <= i < s.len() ==> '0' <= #[trigger] s[i] && s[i] <= '9'
}

/// The value of a run of decimal digits.
pub open spec fn digits_value(s: Seq<char>) -> nat
    decreases s.len(),
{
    if s.len() == 0 {
        0
    } else {
        digits_value(s.drop_last()) * 10 + ((s.last() as u32) - 48) as nat
    }
}

// ------------------------------------------------------------- finding --

/// The first position at or after `i` holding `c`.
pub open spec fn index_of_from(s: Seq<char>, c: char, i: int) -> Option<int>
    decreases s.len() - i,
{
    if i < 0 || i >= s.len() {
        None
    } else if s[i] == c {
        Some(i)
    } else {
        index_of_from(s, c, i + 1)
    }
}

pub fn index_of(s: &[char], c: char) -> (r: Option<usize>)
    ensures
        match r {
            Some(k) => index_of_from(s@, c, 0) == Some(k as int) && k < s@.len(),
            None => index_of_from(s@, c, 0) is None,
        },
{
    let mut i: usize = 0;
    while i < s.len()
        invariant
            i <= s@.len(),
            index_of_from(s@, c, 0) == index_of_from(s@, c, i as int),
        decreases s.len() - i,
    {
        if s[i] == c {
            return Some(i);
        }
        i = i + 1;
    }
    None
}

/// The first position at or after `from` holding `c`.
pub fn index_of_at(s: &[char], c: char, from: usize) -> (r: Option<usize>)
    ensures
        match r {
            Some(k) => index_of_from(s@, c, from as int) == Some(k as int) && from <= k < s@.len()
                && s@[k as int] == c,
            None => index_of_from(s@, c, from as int) is None,
        },
{
    let mut i: usize = from;
    while i < s.len()
        invariant
            from <= i,
            index_of_from(s@, c, from as int) == index_of_from(s@, c, i as int),
        decreases s.len() - i,
    {
        if s[i] == c {
            return Some(i);
        }
        i = i + 1;
    }
    None
}

pub proof fn lemma_index_of_bound(s: Seq<char>, c: char, i: int)
    ensures
        index_of_from(s, c, i) matches Some(k) ==> i <= k < s.len() && s[k] == c,
    decreases s.len() - i,
{
    if 0 <= i < s.len() && s[i] != c {
        lemma_index_of_bound(s, c, i + 1);
    }
}

// ----------------------------------------------------- comparing, joining --

/// Whether the characters spell exactly the given text.
pub fn eq_str(v: &[char], lit: &str) -> (b: bool)
    ensures
        b == (v@ == lit@),
{
    let mut i: usize = 0;
    let n = v.len();
    let mut same = true;
    for c in it: lit.chars()
        invariant
            n == v@.len(),
            it.seq() == lit@,
            same ==> (i == it.index() && i <= n && v@.take(i as int) == lit@.take(i as int)),
            !same ==> v@ != lit@,
    {
        if same {
            if i < n && v[i] == c {
                assert(v@.take(i as int + 1) =~= v@.take(i as int).push(c));
                assert(lit@.take(i as int + 1) =~= lit@.take(i as int).push(c));
                i = i + 1;
            } else {
                if i < n {
                    assert(v@[i as int] != lit@[i as int]);
                } else {
                    assert(lit@.len() > n);
                }
                same = false;
            }
        }
    }
    if same {
        assert(lit@.take(i as int) =~= lit@);
        if i == n {
            assert(v@.take(i as int) =~= v@);
            true
        } else {
            assert(v@.len() != lit@.len());
            false
        }
    } else {
        false
    }
}

/// Whether two character sequences are equal.
pub fn eq_chars(a: &[char], b: &[char]) -> (r: bool)
    ensures
        r == (a@ == b@),
{
    if a.len() != b.len() {
        return false;
    }
    let mut i: usize = 0;
    while i < a.len()
        invariant
            i <= a@.len() == b@.len(),
            forall|j: int| 0 <= j < i ==> a@[j] == b@[j],
        decreases a.len() - i,
    {
        if a[i] != b[i] {
            return false;
        }
        i = i + 1;
    }
    assert(a@ =~= b@);
    true
}

/// Appends all of `tail` to `out`.
pub fn append_chars(out: &mut Vec<char>, tail: &[char])
    ensures
        final(out)@ == old(out)@ + tail@,
{
    let mut i: usize = 0;
    let ghost start = out@;
    while i < tail.len()
        invariant
            i <= tail@.len(),
            out@ == start + tail@.take(i as int),
        decreases tail.len() - i,
    {
        out.push(tail[i]);
        i = i + 1;
        assert(start + tail@.take(i as int) =~= (start + tail@.take(i - 1 as int)).push(
            tail@[i - 1 as int],
        ));
    }
    assert(tail@.take(tail@.len() as int) =~= tail@);
}

/// Appends the characters of a string to `out`.
pub fn append_str(out: &mut Vec<char>, tail: &str)
    ensures
        final(out)@ == old(out)@ + tail@,
{
    let t = chars_of(tail);
    append_chars(out, &t);
}

/// The first `n` characters, or all of them when there are fewer.
pub open spec fn take_chars(s: Seq<char>, n: int) -> Seq<char> {
    if s.len() <= n {
        s
    } else {
        s.take(n)
    }
}

pub fn take_prefix(s: &[char], n: usize) -> (out: Vec<char>)
    ensures
        out@ == take_chars(s@, n as int),
{
    if s.len() <= n {
        copy_range(s, 0, s.len())
    } else {
        copy_range(s, 0, n)
    }
}

/// The parts joined with one separator character between each pair.
pub open spec fn join_with(parts: Seq<Seq<char>>, sep: char) -> Seq<char>
    decreases parts.len(),
{
    if parts.len() == 0 {
        Seq::empty()
    } else if parts.len() == 1 {
        parts[0]
    } else {
        join_with(parts.drop_last(), sep).push(sep) + parts.last()
    }
}

pub fn join_chars(parts: &Vec<Vec<char>>, sep: char) -> (out: Vec<char>)
    ensures
        out@ == join_with(vviews(parts@), sep),
{
    let mut out: Vec<char> = Vec::new();
    let mut i: usize = 0;
    let ghost all = vviews(parts@);
    while i < parts.len()
        invariant
            i <= parts@.len(),
            all == vviews(parts@),
            out@ == join_with(all.take(i as int), sep),
        decreases parts.len() - i,
    {
        let ghost before = out@;
        assert(all.take(i as int + 1).drop_last() =~= all.take(i as int));
        assert(all.take(i as int + 1).last() == parts[i as int]@);
        if i > 0 {
            out.push(sep);
        }
        append_chars(&mut out, &parts[i]);
        if i == 0 {
            assert(all.take(1)[0] == parts[0]@);
            assert(out@ =~= parts[0]@);
        }
        i = i + 1;
    }
    assert(all.take(parts.len() as int) =~= all);
    out
}

// ------------------------------------------------------------ conversion --

/// The characters of a string, in order.
pub fn chars_of(s: &str) -> (out: Vec<char>)
    ensures
        out@ == s@,
{
    let mut out: Vec<char> = Vec::new();
    for c in it: s.chars()
        invariant
            out@ == it.seq().take(it.index() as int),
            it.seq() == s@,
    {
        out.push(c);
    }
    out
}

/// `String::push`.
#[verifier::external_body]
pub(crate) fn push_char(s: &mut String, c: char)
    ensures
        final(s)@ == old(s)@.push(c),
{
    s.push(c);
}

/// Builds a `String` from a sequence of characters.
pub fn string_of(chars: &[char]) -> (out: String)
    ensures
        out@ == chars@,
{
    let mut out = String::new();
    let mut i: usize = 0;
    while i < chars.len()
        invariant
            i <= chars@.len(),
            out@ == chars@.take(i as int),
        decreases chars.len() - i,
    {
        push_char(&mut out, chars[i]);
        i = i + 1;
        assert(out@ =~= chars@.take(i as int));
    }
    assert(chars@.take(chars@.len() as int) =~= chars@);
    out
}

/// A string holding a copy of the given text.
pub fn owned(s: &str) -> (out: String)
    ensures
        out@ == s@,
{
    s.to_owned()
}

// ----------------------------------------------------------- letter case --

/// What `str::to_lowercase` makes of a text. Unicode case mapping is a table
/// of several thousand entries, with context rules for final sigma, and is
/// taken from the standard library rather than restated.
pub uninterp spec fn lowercase(s: Seq<char>) -> Seq<char>;

/// What `char::to_uppercase` makes of one character.
pub uninterp spec fn uppercase_of(c: char) -> Seq<char>;

/// Whether `char::is_alphanumeric` holds of a character.
pub uninterp spec fn alphanumeric(c: char) -> bool;

/// Whether `char::is_numeric` holds of a character.
pub uninterp spec fn numeric(c: char) -> bool;

/// `str::to_lowercase`, applied to the text these characters spell.
#[verifier::external_body]
pub(crate) fn lowercase_chars(s: &[char]) -> (out: Vec<char>)
    ensures
        out@ == lowercase(s@),
{
    let text: String = s.iter().collect();
    text.to_lowercase().chars().collect()
}

/// `char::to_uppercase`, as the characters it yields.
#[verifier::external_body]
pub(crate) fn uppercase_char(c: char) -> (out: Vec<char>)
    ensures
        out@ == uppercase_of(c),
{
    c.to_uppercase().collect()
}

/// An ASCII letter or digit.
pub open spec fn ascii_alphanumeric(c: char) -> bool {
    ('a' <= c <= 'z') || ('A' <= c <= 'Z') || ('0' <= c <= '9')
}

/// `char::is_alphanumeric`: Unicode's Alphabetic property or a numeric general
/// category. Among the ASCII characters those are exactly the letters and the
/// digits, which is all that is claimed beyond the name.
#[verifier::external_body]
pub(crate) fn is_alphanumeric(c: char) -> (b: bool)
    ensures
        b == alphanumeric(c),
        c <= '\x7f' ==> (b <==> ascii_alphanumeric(c)),
{
    c.is_alphanumeric()
}

/// `char::is_numeric`: a numeric general category (Nd, Nl, No). Among the
/// ASCII characters those are exactly the digits, which is all that is claimed
/// beyond the name.
#[verifier::external_body]
pub(crate) fn is_numeric(c: char) -> (b: bool)
    ensures
        b == numeric(c),
        c <= '\x7f' ==> (b <==> '0' <= c <= '9'),
{
    c.is_numeric()
}

/// Lowercases a whole string.
pub fn to_lowercase(s: &str) -> (out: String)
    ensures
        out@ == lowercase(s@),
{
    let chars = chars_of(s);
    let lowered = lowercase_chars(&chars);
    string_of(&lowered)
}

// ------------------------------------------------------------- numerals --

/// The character for one decimal digit.
pub open spec fn digit_char(d: nat) -> char {
    if d == 0 { '0' }
    else if d == 1 { '1' }
    else if d == 2 { '2' }
    else if d == 3 { '3' }
    else if d == 4 { '4' }
    else if d == 5 { '5' }
    else if d == 6 { '6' }
    else if d == 7 { '7' }
    else if d == 8 { '8' }
    else { '9' }
}

/// A number written in decimal, with no leading zeros.
pub open spec fn decimal(n: nat) -> Seq<char>
    decreases n,
{
    if n < 10 {
        seq![digit_char(n)]
    } else {
        decimal(n / 10).push(digit_char(n % 10))
    }
}

/// A signed number written in decimal, with a leading minus when negative.
pub open spec fn signed_decimal(i: int) -> Seq<char> {
    if i < 0 {
        seq!['-'] + decimal((-i) as nat)
    } else {
        decimal(i as nat)
    }
}

pub fn digit(d: u64) -> (c: char)
    requires
        d < 10,
    ensures
        c == digit_char(d as nat),
{
    if d == 0 { '0' }
    else if d == 1 { '1' }
    else if d == 2 { '2' }
    else if d == 3 { '3' }
    else if d == 4 { '4' }
    else if d == 5 { '5' }
    else if d == 6 { '6' }
    else if d == 7 { '7' }
    else if d == 8 { '8' }
    else { '9' }
}

pub fn decimal_chars(n: u64) -> (out: Vec<char>)
    ensures
        out@ == decimal(n as nat),
    decreases n,
{
    if n < 10 {
        let mut out: Vec<char> = Vec::new();
        out.push(digit(n));
        assert(out@ =~= seq![digit_char(n as nat)]);
        out
    } else {
        let mut out = decimal_chars(n / 10);
        out.push(digit(n % 10));
        out
    }
}

pub fn signed_decimal_chars(i: i64) -> (out: Vec<char>)
    ensures
        out@ == signed_decimal(i as int),
{
    if i < 0 {
        let magnitude: u64 = (0i128 - i as i128) as u64;
        let digits = decimal_chars(magnitude);
        let mut out: Vec<char> = Vec::new();
        out.push('-');
        append_chars(&mut out, &digits);
        assert(out@ =~= seq!['-'] + decimal((-(i as int)) as nat));
        out
    } else {
        decimal_chars(i as u64)
    }
}

} // verus!
