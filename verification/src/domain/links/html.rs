//! Reading a title and an icon out of a page, without a parser.
//!
//! Everything here is a scan over the raw text rather than a DOM: the app needs
//! two facts out of the `<head>` of an arbitrary page, and a real HTML parser
//! is a large dependency for two facts. The scan is deliberately forgiving —
//! unquoted attributes, uppercase tags, and attributes in any order all read —
//! and every function answers `None` rather than guessing when the page does
//! not say.
//!
//! Positions here count characters; every tag and attribute name looked for is
//! ASCII, so a match can only ever start on a whole character.

use vstd::prelude::*;

use crate::text::{
    append_chars, chars_of, index_of_at, index_of_from, is_whitespace, is_ws, join_chars,
    join_with, split_words, string_of, take_prefix, trim, trim_chars, vviews, words,
};

verus! {

/// Longest title kept. A page is free to put a paragraph in its `<title>`; a
/// line in a note is not the place for it.
pub const TITLE_LIMIT: usize = 120;

/// The icon size the editor draws at, doubled for a dense screen. Nothing is
/// resized to it; it is only what «closest» is measured against.
pub const WANTED_SIZE: u32 = 48;

// ------------------------------------------------------------- searching --

pub open spec fn ascii_lower(c: char) -> char {
    if 'A' <= c && c <= 'Z' {
        ((c as u32) + 32) as char
    } else {
        c
    }
}

fn ascii_lower_exec(c: char) -> (r: char)
    ensures
        r == ascii_lower(c),
{
    if 'A' <= c && c <= 'Z' {
        ((c as u8) + 32) as char
    } else {
        c
    }
}

/// The needle sits at `start`, ignoring ASCII case.
pub open spec fn matches_ci_at(hay: Seq<char>, pin: Seq<char>, start: int) -> bool {
    forall|k: int| 0 <= k < pin.len() ==> ascii_lower(#[trigger] hay[start + k]) == ascii_lower(
        pin[k],
    )
}

/// The first position at or after `from` where the needle sits, ignoring ASCII
/// case; `None` for an empty needle.
pub open spec fn find_ci_from(hay: Seq<char>, pin: Seq<char>, from: int) -> Option<int>
    decreases hay.len() - from,
{
    if pin.len() == 0 || from < 0 || from + pin.len() > hay.len() {
        None
    } else if matches_ci_at(hay, pin, from) {
        Some(from)
    } else {
        find_ci_from(hay, pin, from + 1)
    }
}

/// Case-insensitive `find` over ASCII case, from a position on.
pub fn find_ascii_ci(hay: &[char], pin: &[char], from: usize) -> (r: Option<usize>)
    ensures
        match r {
            Some(k) => find_ci_from(hay@, pin@, from as int) == Some(k as int) && from <= k && k
                + pin@.len() <= hay@.len() && pin@.len() > 0,
            None => find_ci_from(hay@, pin@, from as int) is None,
        },
{
    let n = hay.len();
    let m = pin.len();
    if m == 0 || m > n {
        return None;
    }
    let mut i: usize = from;
    while i <= n - m
        invariant
            from <= i,
            0 < m <= n,
            n == hay@.len(),
            m == pin@.len(),
            find_ci_from(hay@, pin@, from as int) == find_ci_from(hay@, pin@, i as int),
        decreases n - i,
    {
        let mut k: usize = 0;
        let mut same = true;
        while k < m && same
            invariant
                k <= m,
                i + m <= n,
                n == hay@.len(),
                m == pin@.len(),
                same ==> forall|j: int| 0 <= j < k ==> ascii_lower(#[trigger] hay@[i + j])
                    == ascii_lower(pin@[j]),
                !same ==> !matches_ci_at(hay@, pin@, i as int),
            decreases m - k,
        {
            if ascii_lower_exec(hay[i + k]) != ascii_lower_exec(pin[k]) {
                assert(ascii_lower(hay@[i + k as int]) != ascii_lower(pin@[k as int]));
                same = false;
            }
            k = k + 1;
        }
        if same {
            return Some(i);
        }
        i = i + 1;
    }
    None
}

/// The first position at or after `i` that is not whitespace.
pub open spec fn skip_ws(s: Seq<char>, i: int) -> int
    decreases s.len() - i,
{
    if 0 <= i < s.len() && is_ws(s[i]) {
        skip_ws(s, i + 1)
    } else {
        i
    }
}

fn skip_ws_exec(s: &[char], from: usize) -> (r: usize)
    requires
        from <= s@.len(),
    ensures
        r == skip_ws(s@, from as int),
        from <= r <= s@.len(),
{
    let mut i = from;
    while i < s.len() && is_whitespace(s[i])
        invariant
            from <= i <= s@.len(),
            skip_ws(s@, from as int) == skip_ws(s@, i as int),
        decreases s.len() - i,
    {
        i = i + 1;
    }
    i
}

// ------------------------------------------------------------ attributes --

/// Where an unquoted value ends: at whitespace, at `>` or at the end.
pub open spec fn value_end(s: Seq<char>, i: int) -> int
    decreases s.len() - i,
{
    if 0 <= i < s.len() && !(is_ws(s[i]) || s[i] == '>') {
        value_end(s, i + 1)
    } else {
        i
    }
}

/// The value that starts at `v`: up to the matching quote when it is quoted,
/// up to whitespace or `>` when it is not.
pub open spec fn attribute_value(tag: Seq<char>, v: int) -> Option<Seq<char>> {
    if v < 0 || v >= tag.len() {
        None
    } else if tag[v] == '"' || tag[v] == '\'' {
        match index_of_from(tag, tag[v], v + 1) {
            Some(end) => Some(tag.subrange(v + 1, end)),
            None => None,
        }
    } else {
        Some(tag.subrange(v, value_end(tag, v)))
    }
}

/// The value of an attribute, looking from `offset` on: the first place the
/// name stands at a word boundary with an `=` after it.
pub open spec fn attribute_from(tag: Seq<char>, name: Seq<char>, offset: int) -> Option<Seq<char>>
    decreases tag.len() - offset,
{
    match find_ci_from(tag, name, offset) {
        None => None,
        Some(at) => {
            let boundary = at == offset || is_ws(tag[at - 1]);
            let after = at + name.len();
            let eq = skip_ws(tag, after);
            if boundary && 0 <= eq < tag.len() && tag[eq] == '=' {
                attribute_value(tag, skip_ws(tag, eq + 1))
            } else if offset < after <= tag.len() {
                attribute_from(tag, name, after)
            } else {
                None
            }
        },
    }
}

/// The value of one attribute inside a single tag's text.
pub open spec fn attribute_of(tag: Seq<char>, name: Seq<char>) -> Option<Seq<char>> {
    attribute_from(tag, name, 0)
}

proof fn lemma_skip_ws_bound(s: Seq<char>, i: int)
    requires
        0 <= i <= s.len(),
    ensures
        i <= skip_ws(s, i) <= s.len(),
    decreases s.len() - i,
{
    if 0 <= i < s.len() && is_ws(s[i]) {
        lemma_skip_ws_bound(s, i + 1);
    }
}

fn value_end_exec(s: &[char], from: usize) -> (r: usize)
    requires
        from <= s@.len(),
    ensures
        r == value_end(s@, from as int),
        from <= r <= s@.len(),
{
    let mut i = from;
    while i < s.len() && !(is_whitespace(s[i]) || s[i] == '>')
        invariant
            from <= i <= s@.len(),
            value_end(s@, from as int) == value_end(s@, i as int),
        decreases s.len() - i,
    {
        i = i + 1;
    }
    i
}

fn attribute_value_exec(tag: &[char], v: usize) -> (r: Option<Vec<char>>)
    requires
        v <= tag@.len(),
    ensures
        match r {
            Some(x) => attribute_value(tag@, v as int) == Some(x@),
            None => attribute_value(tag@, v as int) is None,
        },
{
    if v >= tag.len() {
        return None;
    }
    let first = tag[v];
    if first == '"' || first == '\'' {
        match index_of_at(tag, first, v + 1) {
            Some(end) => Some(crate::text::copy_range(tag, v + 1, end)),
            None => None,
        }
    } else {
        let end = value_end_exec(tag, v);
        Some(crate::text::copy_range(tag, v, end))
    }
}

/// The value of one attribute inside a single tag's text.
///
/// `tag` is what sits between `<` and `>`, so the search cannot wander into the
/// rest of the document. `property` must not match when `name` is `name`, and
/// `data-title` must not match `title`, so both sides are checked for a
/// boundary.
pub fn attribute(tag: &[char], name: &[char]) -> (r: Option<Vec<char>>)
    ensures
        match r {
            Some(x) => attribute_of(tag@, name@) == Some(x@),
            None => attribute_of(tag@, name@) is None,
        },
{
    let mut offset: usize = 0;
    while offset <= tag.len()
        invariant
            attribute_of(tag@, name@) == attribute_from(tag@, name@, offset as int),
        decreases tag.len() + 1 - offset,
    {
        let at = match find_ascii_ci(tag, name, offset) {
            Some(at) => at,
            None => {
                return None;
            },
        };
        let boundary = at == offset || is_whitespace(tag[at - 1]);
        let after = at + name.len();
        let eq = skip_ws_exec(tag, after);
        if boundary && eq < tag.len() && tag[eq] == '=' {
            let v = skip_ws_exec(tag, eq + 1);
            return attribute_value_exec(tag, v);
        }
        offset = after;
    }
    None
}

// ------------------------------------------------------------------ tags --

/// Every `<name ...>` tag from `offset` on, as the text between the brackets
/// without the name: the name has to end where the tag says, so `<linkedin>`
/// is not `<link>`.
pub open spec fn tags_from(html: Seq<char>, opening: Seq<char>, offset: int) -> Seq<Seq<char>>
    decreases html.len() - offset,
{
    match find_ci_from(html, opening, offset) {
        None => Seq::empty(),
        Some(at) => {
            let start = at + opening.len();
            let ends_here = 0 <= start < html.len() && (is_ws(html[start]) || html[start] == '>'
                || html[start] == '/');
            match index_of_from(html, '>', start) {
                None => Seq::empty(),
                Some(close) => {
                    let tail = if offset < close <= html.len() {
                        tags_from(html, opening, close)
                    } else {
                        Seq::empty()
                    };
                    if ends_here {
                        seq![html.subrange(start, close)] + tail
                    } else {
                        tail
                    }
                },
            }
        },
    }
}

pub open spec fn tags_of(html: Seq<char>, name: Seq<char>) -> Seq<Seq<char>> {
    tags_from(html, seq!['<'] + name, 0)
}

/// Every `<name ...>` tag in the document, as the text between the brackets.
pub fn tags(html: &[char], name: &[char]) -> (found: Vec<Vec<char>>)
    ensures
        vviews(found@) == tags_of(html@, name@),
{
    let mut opening: Vec<char> = Vec::new();
    opening.push('<');
    append_chars(&mut opening, name);
    assert(opening@ =~= seq!['<'] + name@);
    let mut found: Vec<Vec<char>> = Vec::new();
    let mut offset: usize = 0;
    assert(vviews(found@) + tags_from(html@, opening@, 0) =~= tags_from(html@, opening@, 0));
    while offset <= html.len()
        invariant
            opening@ == seq!['<'] + name@,
            vviews(found@) + tags_from(html@, opening@, offset as int) == tags_from(
                html@,
                opening@,
                0,
            ),
        decreases html.len() + 1 - offset,
    {
        let at = match find_ascii_ci(html, &opening, offset) {
            Some(at) => at,
            None => {
                assert(vviews(found@) =~= vviews(found@) + Seq::<Seq<char>>::empty());
                return found;
            },
        };
        let start = at + opening.len();
        let ends_here = start < html.len() && (is_whitespace(html[start]) || html[start] == '>'
            || html[start] == '/');
        let close = match index_of_at(html, '>', start) {
            Some(close) => close,
            None => {
                assert(vviews(found@) =~= vviews(found@) + Seq::<Seq<char>>::empty());
                return found;
            },
        };
        let ghost before = vviews(found@);
        let ghost tail = tags_from(html@, opening@, close as int);
        if ends_here {
            let piece = crate::text::copy_range(html, start, close);
            found.push(piece);
            assert(vviews(found@) =~= before.push(html@.subrange(start as int, close as int)));
            assert(vviews(found@) + tail =~= before + (seq![html@.subrange(start as int, close as int)] + tail));
        }
        offset = close;
    }
    found
}


// -------------------------------------------------------------- numbers --

/// The value of a digit in a radix: `0`–`9`, then letters of either case.
pub open spec fn digit_in(c: char, radix: nat) -> Option<nat> {
    let v: nat = if '0' <= c && c <= '9' {
        (c as u32 - 48) as nat
    } else if 'a' <= c && c <= 'z' {
        (c as u32 - 87) as nat
    } else if 'A' <= c && c <= 'Z' {
        (c as u32 - 55) as nat
    } else {
        99
    };
    if v < radix {
        Some(v)
    } else {
        None
    }
}

/// The value of a run of digits, or `None` at the first character that is not
/// a digit or the first step past `u32::MAX`.
pub open spec fn radix_value(s: Seq<char>, radix: nat) -> Option<nat>
    decreases s.len(),
{
    if s.len() == 0 {
        Some(0)
    } else {
        match radix_value(s.drop_last(), radix) {
            None => None,
            Some(v) => match digit_in(s.last(), radix) {
                None => None,
                Some(d) => if v * radix + d > u32::MAX {
                    None
                } else {
                    Some(v * radix + d)
                },
            },
        }
    }
}

/// What `u32::from_str_radix` reads: an optional `+`, then at least one digit.
pub open spec fn parse_u32_radix(s: Seq<char>, radix: nat) -> Option<u32> {
    if s.len() == 0 || (s.len() == 1 && s[0] == '+') {
        None
    } else {
        let digits = if s[0] == '+' {
            s.skip(1)
        } else {
            s
        };
        match radix_value(digits, radix) {
            Some(v) => Some(v as u32),
            None => None,
        }
    }
}

fn digit_in_exec(c: char, radix: u32) -> (r: Option<u32>)
    requires
        radix <= 36,
    ensures
        match r {
            Some(d) => digit_in(c, radix as nat) == Some(d as nat),
            None => digit_in(c, radix as nat) is None,
        },
{
    let v: u32 = if '0' <= c && c <= '9' {
        (c as u32) - 48
    } else if 'a' <= c && c <= 'z' {
        (c as u32) - 87
    } else if 'A' <= c && c <= 'Z' {
        (c as u32) - 55
    } else {
        99
    };
    if v < radix {
        Some(v)
    } else {
        None
    }
}

/// `u32::from_str_radix` over characters `from..to`.
pub fn parse_u32_in(s: &[char], from: usize, to: usize, radix: u32) -> (r: Option<u32>)
    requires
        from <= to <= s@.len(),
        2 <= radix <= 36,
    ensures
        r == parse_u32_radix(s@.subrange(from as int, to as int), radix as nat),
{
    let ghost text = s@.subrange(from as int, to as int);
    if from == to || (to - from == 1 && s[from] == '+') {
        return None;
    }
    let start = if s[from] == '+' {
        from + 1
    } else {
        from
    };
    let ghost digits = s@.subrange(start as int, to as int);
    assert(digits =~= (if text[0] == '+' {
        text.skip(1)
    } else {
        text
    }));
    let mut value: u64 = 0;
    let mut i: usize = start;
    assert(digits.take(0) =~= Seq::<char>::empty());
    while i < to
        invariant
            start <= i <= to <= s@.len(),
            2 <= radix <= 36,
            digits == s@.subrange(start as int, to as int),
            text == s@.subrange(from as int, to as int),
            !(text.len() == 0 || (text.len() == 1 && text[0] == '+')),
            digits == (if text[0] == '+' {
                text.skip(1)
            } else {
                text
            }),
            radix_value(digits.take(i - start), radix as nat) == Some(value as nat),
            value <= u32::MAX,
        decreases to - i,
    {
        let c = s[i];
        assert(digits.take(i - start + 1).drop_last() =~= digits.take(i - start));
        assert(digits.take(i - start + 1).last() == c);
        let d = match digit_in_exec(c, radix) {
            Some(d) => d,
            None => {
                assert(radix_value(digits.take(i - start + 1), radix as nat) is None);
                proof {
                    lemma_radix_none_stays(digits, radix as nat, i - start + 1);
                }
                assert(digits.take(digits.len() as int) =~= digits);
                return None;
            },
        };
        assert(value * (radix as u64) + (d as u64) <= 4294967295 * 36 + 36) by (nonlinear_arith)
            requires
                value <= 4294967295,
                radix <= 36,
                d < 36,
        ;
        let next = value * (radix as u64) + (d as u64);
        if next > u32::MAX as u64 {
            proof {
                lemma_radix_none_stays(digits, radix as nat, i - start + 1);
            }
            assert(digits.take(digits.len() as int) =~= digits);
            return None;
        }
        value = next;
        i = i + 1;
    }
    assert(digits.take(digits.len() as int) =~= digits);
    Some(value as u32)
}

proof fn lemma_radix_none_stays(s: Seq<char>, radix: nat, k: int)
    requires
        0 <= k <= s.len(),
        radix_value(s.take(k), radix) is None,
    ensures
        radix_value(s, radix) is None,
    decreases s.len() - k,
{
    if k < s.len() {
        assert(s.take(k + 1).drop_last() =~= s.take(k));
        lemma_radix_none_stays(s, radix, k + 1);
    } else {
        assert(s.take(k) =~= s);
    }
}

// ------------------------------------------------------------- entities --

/// How many bytes a character takes in UTF-8.
pub open spec fn byte_width(c: char) -> int {
    if (c as u32) < 0x80 {
        1
    } else if (c as u32) < 0x800 {
        2
    } else if (c as u32) < 0x10000 {
        3
    } else {
        4
    }
}

/// How many bytes the characters `a..b` take in UTF-8.
pub open spec fn bytes_between(t: Seq<char>, a: int, b: int) -> int
    decreases b - a,
{
    if b <= a {
        0
    } else {
        bytes_between(t, a, b - 1) + byte_width(t[b - 1])
    }
}

proof fn lemma_bytes_grow(t: Seq<char>, a: int, k: int, b: int)
    requires
        a <= k <= b,
    ensures
        bytes_between(t, a, k) <= bytes_between(t, a, b),
    decreases b - k,
{
    if k < b {
        lemma_bytes_grow(t, a, k, b - 1);
    }
}

/// The character a code point is, when it is one.
pub open spec fn scalar_of(v: u32) -> Option<char> {
    if v <= 0x10FFFF && !(0xD800 <= v <= 0xDFFF) {
        Some(v as char)
    } else {
        None
    }
}

/// `char::from_u32`.
#[verifier::external_body]
fn char_from_u32(v: u32) -> (r: Option<char>)
    ensures
        r == scalar_of(v),
{
    char::from_u32(v)
}

/// The character an entity's name stands for: the five named ones prose
/// contains, `nbsp` as a plain space, and the numeric forms.
pub open spec fn entity_char(name: Seq<char>) -> Option<char> {
    if name == "amp"@ {
        Some('&')
    } else if name == "lt"@ {
        Some('<')
    } else if name == "gt"@ {
        Some('>')
    } else if name == "quot"@ {
        Some('"')
    } else if name == "apos"@ || name == "#39"@ {
        Some('\'')
    } else if name == "nbsp"@ {
        Some(' ')
    } else if name.len() > 0 && name[0] == '#' {
        let number = name.skip(1);
        let value = if number.len() > 0 && (number[0] == 'x' || number[0] == 'X') {
            parse_u32_radix(number.skip(1), 16)
        } else {
            parse_u32_radix(number, 10)
        };
        match value {
            Some(v) => scalar_of(v),
            None => None,
        }
    } else {
        None
    }
}

/// The entity that starts at an `&`: its character and where the text goes on,
/// when a `;` closes it within ten bytes and its name is one that is read.
pub open spec fn entity_at(t: Seq<char>, i: int) -> Option<(char, int)> {
    match index_of_from(t, ';', i) {
        None => None,
        Some(end) => if bytes_between(t, i, end) > 10 {
            None
        } else {
            match entity_char(t.subrange(i + 1, end)) {
                Some(c) => Some((c, end + 1)),
                None => None,
            }
        },
    }
}

/// The text from `i` on with its entities read.
pub open spec fn decoded_from(t: Seq<char>, i: int) -> Seq<char>
    decreases t.len() - i,
{
    if i < 0 || i >= t.len() {
        Seq::empty()
    } else if t[i] != '&' {
        seq![t[i]] + decoded_from(t, i + 1)
    } else {
        match entity_at(t, i) {
            Some((c, next)) => if i < next <= t.len() {
                seq![c] + decoded_from(t, next)
            } else {
                Seq::empty()
            },
            None => seq!['&'] + decoded_from(t, i + 1),
        }
    }
}

/// A character as HTML writes it in text: `&`, `<`, `>` and `"` as their
/// named entities, anything else as itself.
pub open spec fn escaped_char(c: char) -> Seq<char> {
    if c == '&' {
        "&amp;"@
    } else if c == '<' {
        "&lt;"@
    } else if c == '>' {
        "&gt;"@
    } else if c == '"' {
        "&quot;"@
    } else {
        seq![c]
    }
}

/// A text as HTML writes it, each character escaped.
pub open spec fn html_escaped(s: Seq<char>) -> Seq<char>
    decreases s.len(),
{
    if s.len() == 0 {
        Seq::empty()
    } else {
        escaped_char(s[0]) + html_escaped(s.skip(1))
    }
}

proof fn lemma_first_from(t: Seq<char>, c: char, j: int, e: int)
    requires
        0 <= j <= e < t.len(),
        t[e] == c,
        forall|m: int| j <= m < e ==> t[m] != c,
    ensures
        index_of_from(t, c, j) == Some(e),
    decreases e - j,
{
    if j < e {
        lemma_first_from(t, c, j + 1, e);
    }
}

proof fn lemma_ascii_bytes(t: Seq<char>, a: int, b: int)
    requires
        0 <= a <= b <= t.len(),
        forall|m: int| a <= m < b ==> (t[m] as u32) < 0x80,
    ensures
        bytes_between(t, a, b) == b - a,
    decreases b - a,
{
    if a < b {
        lemma_ascii_bytes(t, a, b - 1);
    }
}

/// A named entity written at `i`, `&` name `;`, reads as its character.
proof fn lemma_entity_reads(t: Seq<char>, i: int, name: Seq<char>, c: char)
    requires
        0 <= i,
        1 <= name.len() <= 4,
        i + name.len() + 2 <= t.len(),
        t[i] == '&',
        t.subrange(i + 1, i + 1 + name.len()) == name,
        t[i + 1 + name.len()] == ';',
        forall|m: int| 0 <= m < name.len() ==> name[m] != ';' && (name[m] as u32) < 0x80,
        entity_char(name) == Some(c),
    ensures
        decoded_from(t, i) == seq![c] + decoded_from(t, i + name.len() + 2),
{
    let e = i + 1 + name.len();
    assert forall|m: int| i <= m < e implies t[m] != ';' by {
        if m > i {
            assert(t[m] == t.subrange(i + 1, e)[m - i - 1]);
        }
    }
    lemma_first_from(t, ';', i, e);
    assert forall|m: int| i <= m < e implies (t[m] as u32) < 0x80 by {
        if m > i {
            assert(t[m] == t.subrange(i + 1, e)[m - i - 1]);
        }
    }
    lemma_ascii_bytes(t, i, e);
    assert(entity_at(t, i) == Some((c, e + 1)));
}

/// What follows `p` in `p` + the escaped `s` decodes to `s`.
proof fn lemma_decoded_after(p: Seq<char>, s: Seq<char>)
    ensures
        decoded_from(p + html_escaped(s), p.len() as int) == s,
    decreases s.len(),
{
    reveal_strlit("&amp;");
    reveal_strlit("&lt;");
    reveal_strlit("&gt;");
    reveal_strlit("&quot;");
    reveal_strlit("amp");
    reveal_strlit("lt");
    reveal_strlit("gt");
    reveal_strlit("quot");
    let t = p + html_escaped(s);
    let i = p.len() as int;
    if s.len() == 0 {
        assert(t =~= p);
    } else {
        let c = s[0];
        let rest = s.skip(1);
        let q = p + escaped_char(c);
        assert(t =~= q + html_escaped(rest));
        lemma_decoded_after(q, rest);
        let k = escaped_char(c).len() as int;
        assert(t.subrange(i, i + k) =~= escaped_char(c));
        if c == '&' {
            assert(t.subrange(i + 1, i + 4) =~= "amp"@);
            lemma_entity_reads(t, i, "amp"@, '&');
        } else if c == '<' {
            assert(t.subrange(i + 1, i + 3) =~= "lt"@);
            lemma_entity_reads(t, i, "lt"@, '<');
        } else if c == '>' {
            assert(t.subrange(i + 1, i + 3) =~= "gt"@);
            assert("gt"@[0] != "lt"@[0] && "gt"@.len() != "amp"@.len());
            lemma_entity_reads(t, i, "gt"@, '>');
        } else if c == '"' {
            assert(t.subrange(i + 1, i + 5) =~= "quot"@);
            lemma_entity_reads(t, i, "quot"@, '"');
        } else {
            assert(t[i] == c);
        }
        assert(s =~= seq![c] + rest);
    }
}

/// Reading entities undoes HTML escaping: the escaped form of any text
/// decodes back to that text.
pub proof fn lemma_decoding_inverts_escaping(s: Seq<char>)
    ensures
        decoded_from(html_escaped(s), 0) == s,
{
    lemma_decoded_after(Seq::empty(), s);
    assert(Seq::<char>::empty() + html_escaped(s) =~= html_escaped(s));
}

fn entity_char_exec(t: &[char], from: usize, to: usize) -> (r: Option<char>)
    requires
        from <= to <= t@.len(),
    ensures
        r == entity_char(t@.subrange(from as int, to as int)),
{
    let ghost name = t@.subrange(from as int, to as int);
    let piece = crate::text::copy_range(t, from, to);
    if crate::text::eq_str(&piece, "amp") {
        return Some('&');
    }
    if crate::text::eq_str(&piece, "lt") {
        return Some('<');
    }
    if crate::text::eq_str(&piece, "gt") {
        return Some('>');
    }
    if crate::text::eq_str(&piece, "quot") {
        return Some('"');
    }
    if crate::text::eq_str(&piece, "apos") || crate::text::eq_str(&piece, "#39") {
        return Some('\'');
    }
    if crate::text::eq_str(&piece, "nbsp") {
        return Some(' ');
    }
    if to > from && t[from] == '#' {
        let value = if to > from + 1 && (t[from + 1] == 'x' || t[from + 1] == 'X') {
            assert(t@.subrange(from as int + 2, to as int) =~= name.skip(1).skip(1));
            parse_u32_in(t, from + 2, to, 16)
        } else {
            assert(t@.subrange(from as int + 1, to as int) =~= name.skip(1));
            parse_u32_in(t, from + 1, to, 10)
        };
        return match value {
            Some(v) => char_from_u32(v),
            None => None,
        };
    }
    None
}

/// Turns the handful of entities that actually appear in titles back into text.
///
/// Not a general decoder: a title is a line of prose, and the numeric forms
/// plus the five named ones cover what prose contains. Anything else is left
/// alone, which shows the entity rather than swallowing the sentence.
pub fn decode_entities(text: &[char]) -> (out: Vec<char>)
    ensures
        out@ == decoded_from(text@, 0),
{
    let mut out: Vec<char> = Vec::new();
    let mut i: usize = 0;
    let n = text.len();
    while i < n
        invariant
            i <= n == text@.len(),
            out@ + decoded_from(text@, i as int) == decoded_from(text@, 0),
        decreases n - i,
    {
        let c = text[i];
        let ghost before = out@;
        if c != '&' {
            out.push(c);
            assert(out@ + decoded_from(text@, i as int + 1) =~= before + decoded_from(
                text@,
                i as int,
            ));
            i = i + 1;
        } else {
            let mut next: usize = i + 1;
            let mut decoded: Option<char> = None;
            match index_of_at(text, ';', i) {
                Some(end) => {
                    let mut bytes: usize = 0;
                    let mut k: usize = i;
                    while k < end && bytes <= 10
                        invariant
                            i <= k <= end < n,
                            n == text@.len(),
                            bytes == bytes_between(text@, i as int, k as int),
                        decreases end - k,
                    {
                        let code = text[k] as u32;
                        let w: usize = if code < 0x80 {
                            1
                        } else if code < 0x800 {
                            2
                        } else if code < 0x10000 {
                            3
                        } else {
                            4
                        };
                        bytes = bytes + w;
                        k = k + 1;
                    }
                    proof {
                        lemma_bytes_grow(text@, i as int, k as int, end as int);
                    }
                    if bytes <= 10 {
                        match entity_char_exec(text, i + 1, end) {
                            Some(ch) => {
                                decoded = Some(ch);
                                next = end + 1;
                            },
                            None => {},
                        }
                    }
                },
                None => {},
            }
            match decoded {
                Some(ch) => {
                    out.push(ch);
                },
                None => {
                    out.push('&');
                },
            }
            assert(out@ + decoded_from(text@, next as int) =~= before + decoded_from(
                text@,
                i as int,
            ));
            i = next;
        }
    }
    assert(out@ =~= out@ + decoded_from(text@, n as int));
    out
}

// --------------------------------------------------------------- titles --

/// One line, trimmed, with runs of whitespace collapsed and a length cap; `None`
/// when nothing is left.
pub open spec fn tidy_text(raw: Seq<char>) -> Option<Seq<char>> {
    let joined = join_with(words(decoded_from(raw, 0)), ' ');
    if joined.len() == 0 {
        None
    } else if joined.len() > TITLE_LIMIT {
        Some(joined.take(TITLE_LIMIT - 1).push('…'))
    } else {
        Some(joined)
    }
}

/// A `<title>` is often laid out across several indented lines in the source,
/// and that indentation is not part of what the page is called.
pub fn tidy(raw: &[char]) -> (r: Option<Vec<char>>)
    ensures
        match r {
            Some(x) => tidy_text(raw@) == Some(x@),
            None => tidy_text(raw@) is None,
        },
{
    let decoded = decode_entities(raw);
    let ws = split_words(&decoded);
    let joined = join_chars(&ws, ' ');
    if joined.len() == 0 {
        return None;
    }
    if joined.len() > TITLE_LIMIT {
        let mut cut = take_prefix(&joined, TITLE_LIMIT - 1);
        cut.push('…');
        return Some(cut);
    }
    Some(joined)
}

/// The two texts are equal ignoring ASCII case.
pub open spec fn eq_ci(a: Seq<char>, b: Seq<char>) -> bool {
    a.len() == b.len() && forall|k: int| 0 <= k < a.len() ==> ascii_lower(#[trigger] a[k])
        == ascii_lower(b[k])
}

fn eq_ci_exec(a: &[char], b: &[char]) -> (r: bool)
    ensures
        r == eq_ci(a@, b@),
{
    if a.len() != b.len() {
        return false;
    }
    let mut k: usize = 0;
    while k < a.len()
        invariant
            k <= a@.len() == b@.len(),
            forall|j: int| 0 <= j < k ==> ascii_lower(#[trigger] a@[j]) == ascii_lower(b@[j]),
        decreases a.len() - k,
    {
        if ascii_lower_exec(a[k]) != ascii_lower_exec(b[k]) {
            return false;
        }
        k = k + 1;
    }
    true
}

/// What a `<meta>` is keyed by: its `property`, or its `name` when it has no
/// `property`.
pub open spec fn meta_key(tag: Seq<char>) -> Option<Seq<char>> {
    match attribute_of(tag, "property"@) {
        Some(p) => Some(p),
        None => attribute_of(tag, "name"@),
    }
}

pub open spec fn first_meta(ts: Seq<Seq<char>>, key: Seq<char>, k: int) -> Option<Seq<char>>
    decreases ts.len() - k,
{
    if k < 0 || k >= ts.len() {
        None
    } else if meta_key(ts[k]) matches Some(found) && eq_ci(found, key) {
        attribute_of(ts[k], "content"@)
    } else {
        first_meta(ts, key, k + 1)
    }
}

/// The `content` of the first `<meta>` whose `property` or `name` matches.
pub open spec fn meta_content_of(html: Seq<char>, key: Seq<char>) -> Option<Seq<char>> {
    first_meta(tags_of(html, "meta"@), key, 0)
}

pub fn meta_content(html: &[char], key: &[char]) -> (r: Option<Vec<char>>)
    ensures
        match r {
            Some(x) => meta_content_of(html@, key@) == Some(x@),
            None => meta_content_of(html@, key@) is None,
        },
{
    let meta = chars_of("meta");
    let property = chars_of("property");
    let name = chars_of("name");
    let content = chars_of("content");
    let found = tags(html, &meta);
    let ghost ts = vviews(found@);
    let mut k: usize = 0;
    while k < found.len()
        invariant
            k <= found@.len(),
            ts == vviews(found@),
            ts == tags_of(html@, "meta"@),
            property@ == "property"@,
            name@ == "name"@,
            content@ == "content"@,
            meta_content_of(html@, key@) == first_meta(ts, key@, k as int),
        decreases found.len() - k,
    {
        let tag = &found[k];
        assert(ts[k as int] == tag@);
        let keyed = match attribute(tag, &property) {
            Some(p) => Some(p),
            None => attribute(tag, &name),
        };
        let hit = match keyed {
            Some(f) => eq_ci_exec(&f, key),
            None => false,
        };
        if hit {
            return attribute(tag, &content);
        }
        k = k + 1;
    }
    None
}

/// The title a page gives itself in its `<title>`.
pub open spec fn title_tag_text(html: Seq<char>) -> Option<Seq<char>> {
    match find_ci_from(html, "<title"@, 0) {
        None => None,
        Some(at) => match index_of_from(html, '>', at) {
            None => None,
            Some(gt) => match find_ci_from(html, "</title>"@, gt + 1) {
                None => None,
                Some(close) => tidy_text(html.subrange(gt + 1, close)),
            },
        },
    }
}

/// What to call a page: its `og:title`, tidied, and failing that its
/// `<title>`, tidied.
pub open spec fn page_title(html: Seq<char>) -> Option<Seq<char>> {
    match meta_content_of(html, "og:title"@) {
        Some(raw) if tidy_text(raw) is Some => tidy_text(raw),
        _ => title_tag_text(html),
    }
}

/// What to call the page.
///
/// `og:title` first, because it is what a site writes for exactly this purpose
/// — a link shown somewhere else — while `<title>` also carries whatever the
/// site appends for search engines.
pub fn title_of(html: &str) -> (r: Option<String>)
    ensures
        match r {
            Some(s) => page_title(html@) == Some(s@),
            None => page_title(html@) is None,
        },
{
    let page = chars_of(html);
    let og = chars_of("og:title");
    if let Some(raw) = meta_content(&page, &og) {
        if let Some(title) = tidy(&raw) {
            return Some(string_of(&title));
        }
    }
    let open_tag = chars_of("<title");
    let close_tag = chars_of("</title>");
    let at = match find_ascii_ci(&page, &open_tag, 0) {
        Some(at) => at,
        None => {
            return None;
        },
    };
    let gt = match index_of_at(&page, '>', at) {
        Some(gt) => gt,
        None => {
            return None;
        },
    };
    let close = match find_ascii_ci(&page, &close_tag, gt + 1) {
        Some(close) => close,
        None => {
            return None;
        },
    };
    let inner = crate::text::copy_range(&page, gt + 1, close);
    match tidy(&inner) {
        Some(title) => Some(string_of(&title)),
        None => None,
    }
}


// ---------------------------------------------------------------- icons --

pub open spec fn lower_all(s: Seq<char>) -> Seq<char> {
    Seq::new(s.len(), |i: int| ascii_lower(s[i]))
}

fn lower_all_exec(s: &[char]) -> (out: Vec<char>)
    ensures
        out@ == lower_all(s@),
{
    let mut out: Vec<char> = Vec::new();
    let mut i: usize = 0;
    while i < s.len()
        invariant
            i <= s@.len(),
            out@ == lower_all(s@).take(i as int),
        decreases s.len() - i,
    {
        out.push(ascii_lower_exec(s[i]));
        i = i + 1;
        assert(out@ =~= lower_all(s@).take(i as int));
    }
    assert(lower_all(s@).take(s@.len() as int) =~= lower_all(s@));
    out
}

pub open spec fn is_icon_word(w: Seq<char>) -> bool {
    w == "icon"@ || w == "shortcut"@ || w == "apple-touch-icon"@
}

/// A `rel` that names an icon among its words, in any case.
pub open spec fn rel_names_icon(rel: Seq<char>) -> bool {
    exists|k: int| 0 <= k < words(lower_all(rel)).len() && is_icon_word(
        #[trigger] words(lower_all(rel))[k],
    )
}

/// The pieces of a `sizes` value cut at `x`, `X` and spaces, empty ones
/// included.
pub open spec fn size_fields(s: Seq<char>) -> Seq<Seq<char>>
    decreases s.len(),
{
    if s.len() == 0 {
        seq![Seq::<char>::empty()]
    } else {
        let prev = size_fields(s.drop_last());
        let c = s.last();
        if c == 'x' || c == 'X' || c == ' ' {
            prev.push(Seq::<char>::empty())
        } else {
            prev.drop_last().push(prev.last().push(c))
        }
    }
}

/// The largest number among the pieces, or nought when none is a number.
pub open spec fn largest_number(parts: Seq<Seq<char>>) -> u32
    decreases parts.len(),
{
    if parts.len() == 0 {
        0
    } else {
        let rest = largest_number(parts.drop_last());
        match parse_u32_radix(parts.last(), 10) {
            Some(v) => if v > rest {
                v
            } else {
                rest
            },
            None => rest,
        }
    }
}

/// The size a tag declares, or nought.
pub open spec fn declared_size(tag: Seq<char>) -> u32 {
    match attribute_of(tag, "sizes"@) {
        Some(sizes) => largest_number(size_fields(sizes)),
        None => 0,
    }
}

pub open spec fn contains_at(s: Seq<char>, pat: Seq<char>, i: int) -> bool {
    0 <= i && i + pat.len() <= s.len() && s.subrange(i, i + pat.len()) == pat
}

/// The text holds `.svg` somewhere.
pub open spec fn has_svg(s: Seq<char>) -> bool {
    exists|i: int| contains_at(s, ".svg"@, i)
}

/// The icon is a vector image.
pub open spec fn href_is_svg(tag: Seq<char>) -> bool {
    match attribute_of(tag, "href"@) {
        Some(href) => has_svg(lower_all(href)),
        None => false,
    }
}

/// How good an icon a `<link rel>` promises, or `None` when it promises none:
/// a vector image beats every bitmap, a bitmap scores by how close it is to
/// the size the slot wants, and one that names no size scores below every one
/// that does.
pub open spec fn icon_rank_of(tag: Seq<char>) -> Option<u32> {
    match attribute_of(tag, "rel"@) {
        None => None,
        Some(rel) => if !rel_names_icon(rel) {
            None
        } else if href_is_svg(tag) {
            Some(1000)
        } else {
            let size = declared_size(tag);
            if size == 0 {
                Some(1)
            } else {
                let distance = if size >= WANTED_SIZE {
                    size - WANTED_SIZE
                } else {
                    WANTED_SIZE - size
                };
                let closeness = if distance >= 300 {
                    0
                } else {
                    300 - distance
                };
                Some(
                    if closeness > 2 {
                        closeness as u32
                    } else {
                        2
                    },
                )
            }
        },
    }
}

fn rel_names_icon_exec(rel: &[char]) -> (b: bool)
    ensures
        b == rel_names_icon(rel@),
{
    let lowered = lower_all_exec(rel);
    let ws = split_words(&lowered);
    let ghost wv = vviews(ws@);
    let mut k: usize = 0;
    while k < ws.len()
        invariant
            k <= ws@.len(),
            wv == vviews(ws@),
            wv == words(lower_all(rel@)),
            forall|j: int| 0 <= j < k ==> !is_icon_word(#[trigger] wv[j]),
        decreases ws.len() - k,
    {
        let w = &ws[k];
        assert(wv[k as int] == w@);
        if crate::text::eq_str(w, "icon") || crate::text::eq_str(w, "shortcut")
            || crate::text::eq_str(w, "apple-touch-icon") {
            assert(is_icon_word(wv[k as int]));
            return true;
        }
        k = k + 1;
    }
    false
}

fn largest_size_exec(s: &[char]) -> (r: u32)
    ensures
        r == largest_number(size_fields(s@)),
{
    let mut best: u32 = 0;
    let mut field_start: usize = 0;
    let mut i: usize = 0;
    let ghost mut done: Seq<Seq<char>> = Seq::empty();
    assert(s@.take(0) =~= Seq::<char>::empty());
    assert(s@.subrange(0, 0) =~= Seq::<char>::empty());
    while i < s.len()
        invariant
            field_start <= i <= s@.len(),
            size_fields(s@.take(i as int)) == done.push(s@.subrange(field_start as int, i as int)),
            best == largest_number(done),
        decreases s.len() - i,
    {
        let c = s[i];
        assert(s@.take(i as int + 1).drop_last() =~= s@.take(i as int));
        assert(s@.take(i as int + 1).last() == c);
        if c == 'x' || c == 'X' || c == ' ' {
            let ghost piece = s@.subrange(field_start as int, i as int);
            let parsed = parse_u32_in(s, field_start, i, 10);
            match parsed {
                Some(v) => {
                    if v > best {
                        best = v;
                    }
                },
                None => {},
            }
            proof {
                assert(done.push(piece).drop_last() =~= done);
                done = done.push(piece);
            }
            field_start = i + 1;
            assert(s@.subrange(field_start as int, i as int + 1) =~= Seq::<char>::empty());
            assert(size_fields(s@.take(i as int + 1)) =~= done.push(
                s@.subrange(field_start as int, i as int + 1),
            ));
        } else {
            let ghost prev = done.push(s@.subrange(field_start as int, i as int));
            assert(prev.drop_last() =~= done);
            assert(s@.subrange(field_start as int, i as int + 1) =~= s@.subrange(
                field_start as int,
                i as int,
            ).push(c));
            assert(size_fields(s@.take(i as int + 1)) =~= done.push(
                s@.subrange(field_start as int, i as int + 1),
            ));
        }
        i = i + 1;
    }
    assert(s@.take(s@.len() as int) =~= s@);
    let ghost piece = s@.subrange(field_start as int, s@.len() as int);
    let parsed = parse_u32_in(s, field_start, s.len(), 10);
    assert(done.push(piece).drop_last() =~= done);
    match parsed {
        Some(v) => {
            if v > best {
                best = v;
            }
        },
        None => {},
    }
    best
}

fn contains_svg(s: &[char]) -> (b: bool)
    ensures
        b == has_svg(s@),
{
    let pat = chars_of(".svg");
    proof {
        reveal_strlit(".svg");
    }
    let n = s.len();
    if n < 4 {
        assert forall|i: int| !contains_at(s@, ".svg"@, i) by {
            reveal_strlit(".svg");
        }
        return false;
    }
    let mut i: usize = 0;
    while i <= n - 4
        invariant
            n == s@.len() >= 4,
            pat@ == ".svg"@,
            pat@.len() == 4,
            forall|j: int| 0 <= j < i ==> !contains_at(s@, ".svg"@, j),
        decreases n - i,
    {
        let piece = crate::text::copy_range(s, i, i + 4);
        if crate::text::eq_chars(&piece, &pat) {
            assert(contains_at(s@, ".svg"@, i as int));
            return true;
        }
        i = i + 1;
    }
    assert forall|j: int| !contains_at(s@, ".svg"@, j) by {
        if 0 <= j && j + 4 <= n {
            assert(j < i);
        }
    }
    false
}

/// How good an icon a `<link rel>` promises, or `None` when it promises none.
pub fn icon_rank(tag: &[char]) -> (r: Option<u32>)
    ensures
        r == icon_rank_of(tag@),
{
    let rel_name = chars_of("rel");
    let sizes_name = chars_of("sizes");
    let href_name = chars_of("href");
    let rel = match attribute(tag, &rel_name) {
        Some(rel) => rel,
        None => {
            return None;
        },
    };
    if !rel_names_icon_exec(&rel) {
        return None;
    }
    let size: u32 = match attribute(tag, &sizes_name) {
        Some(sizes) => largest_size_exec(&sizes),
        None => 0,
    };
    let svg = match attribute(tag, &href_name) {
        Some(href) => {
            let lowered = lower_all_exec(&href);
            contains_svg(&lowered)
        },
        None => false,
    };
    if svg {
        return Some(1000);
    }
    if size == 0 {
        return Some(1);
    }
    let distance = if size >= WANTED_SIZE {
        size - WANTED_SIZE
    } else {
        WANTED_SIZE - size
    };
    let closeness: u32 = if distance >= 300 {
        0
    } else {
        300 - distance
    };
    Some(if closeness > 2 {
        closeness
    } else {
        2
    })
}

/// The best-ranked icon among the tags from `k` on, the later one winning a
/// tie, starting from the best found before `k`.
pub open spec fn best_icon(ts: Seq<Seq<char>>, k: int, best: Option<(u32, Seq<char>)>) -> Option<
    (u32, Seq<char>),
>
    decreases ts.len() - k,
{
    if k < 0 || k >= ts.len() {
        best
    } else {
        let next = match icon_rank_of(ts[k]) {
            None => best,
            Some(rank) => match best {
                None => Some((rank, ts[k])),
                Some((held, _)) => if rank >= held {
                    Some((rank, ts[k]))
                } else {
                    best
                },
            },
        };
        best_icon(ts, k + 1, next)
    }
}

/// The `href` of the best icon a page declares, exactly as written, unless it
/// is blank.
pub open spec fn icon_href(html: Seq<char>) -> Option<Seq<char>> {
    match best_icon(tags_of(html, "link"@), 0, None) {
        None => None,
        Some((_, tag)) => match attribute_of(tag, "href"@) {
            Some(href) => if trim(href).len() > 0 {
                Some(href)
            } else {
                None
            },
            None => None,
        },
    }
}

/// A `<link>` is ranked as an icon exactly when its `rel`, lowercased and cut
/// into words, holds `icon`, `shortcut` or `apple-touch-icon`.
pub proof fn lemma_icon_rel_words_rank(tag: Seq<char>, rel: Seq<char>)
    requires
        attribute_of(tag, "rel"@) == Some(rel),
    ensures
        (exists|k: int|
            0 <= k < words(lower_all(rel)).len() && {
                let w = #[trigger] words(lower_all(rel))[k];
                w == "icon"@ || w == "shortcut"@ || w == "apple-touch-icon"@
            }) <==> icon_rank_of(tag) is Some,
{
}

/// A page whose only `<link>` names an icon, with an `href` that is not
/// blank, has that `href` as its icon.
pub proof fn lemma_lone_icon_link_is_the_icon(html: Seq<char>, tag: Seq<char>, href: Seq<char>)
    requires
        tags_of(html, "link"@) == seq![tag],
        icon_rank_of(tag) is Some,
        attribute_of(tag, "href"@) == Some(href),
        trim(href).len() > 0,
    ensures
        icon_href(html) == Some(href),
{
    let ts = seq![tag];
    assert(best_icon(ts, 1, Some((icon_rank_of(tag)->0, tag))) == Some((icon_rank_of(tag)->0, tag)));
    assert(best_icon(ts, 0, None) == Some((icon_rank_of(tag)->0, tag)));
}

/// The address of the best icon the page declares, exactly as written.
///
/// Relative — resolving it against the page's own address is the caller's job,
/// because only the caller knows where the page finally came from after
/// redirects.
pub fn icon_href_of(html: &str) -> (r: Option<String>)
    ensures
        match r {
            Some(s) => icon_href(html@) == Some(s@),
            None => icon_href(html@) is None,
        },
{
    let page = chars_of(html);
    let link = chars_of("link");
    let href_name = chars_of("href");
    let found = tags(&page, &link);
    let ghost ts = vviews(found@);
    let mut best_rank: u32 = 0;
    let mut best_at: Option<usize> = None;
    let mut k: usize = 0;
    while k < found.len()
        invariant
            k <= found@.len(),
            ts == vviews(found@),
            ts == tags_of(page@, "link"@),
            page@ == html@,
            best_at matches Some(at) ==> at < k,
            best_icon(ts, 0, None) == best_icon(
                ts,
                k as int,
                match best_at {
                    Some(at) => Some((best_rank, ts[at as int])),
                    None => None,
                },
            ),
        decreases found.len() - k,
    {
        assert(ts[k as int] == found@[k as int]@);
        match icon_rank(&found[k]) {
            Some(rank) => {
                match best_at {
                    None => {
                        best_rank = rank;
                        best_at = Some(k);
                    },
                    Some(_) => {
                        if rank >= best_rank {
                            best_rank = rank;
                            best_at = Some(k);
                        }
                    },
                }
            },
            None => {},
        }
        k = k + 1;
    }
    let at = match best_at {
        Some(at) => at,
        None => {
            return None;
        },
    };
    assert(ts[at as int] == found@[at as int]@);
    match attribute(&found[at], &href_name) {
        Some(href) => {
            let trimmed = trim_chars(&href);
            if trimmed.len() > 0 {
                Some(string_of(&href))
            } else {
                None
            }
        },
        None => None,
    }
}

} // verus!
