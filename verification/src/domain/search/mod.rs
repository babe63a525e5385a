//! Search.
//!
//! User input never reaches the full-text index verbatim. A query like `хлеб"`
//! or `AND` is valid text to a person and a syntax error to FTS5, so
//! [`build_match_expression`] rewrites whatever was typed into a well-formed
//! MATCH expression.

use vstd::prelude::*;

use crate::domain::clock::Timestamp;
use crate::domain::ids::{FolderId, TagId};
use crate::domain::notes::{NoteType, Page, PageRequest};
use crate::error::AppResult;
use crate::text::{
    alphanumeric, append_chars, append_str, chars_of, is_alphanumeric, nonempty_parts,
    split_words, string_of, trim, trim_chars, vviews, words,
};

verus! {

#[derive(Clone, Copy, PartialEq, Eq, Debug, Structural)]
pub enum SearchEntity {
    Note,
    Task,
    Attachment,
}

#[derive(Clone, Debug, Default)]
pub struct SearchQuery {
    /// Raw text as typed.
    pub text: String,
    /// Which indexes to consult. Empty means all of them.
    pub entities: Vec<SearchEntity>,
    pub folder_id: Option<FolderId>,
    pub tag_id: Option<TagId>,
    pub note_type: Option<NoteType>,
    pub created_after: Option<Timestamp>,
    pub created_before: Option<Timestamp>,
    /// Restrict to notes that carry at least one enabled reminder.
    pub has_reminder: bool,
    /// Restrict to notes that carry at least one attachment.
    pub has_attachment: bool,
    pub include_archived: bool,
    pub include_trashed: bool,
}

/// Markers wrapped around matches in a snippet. Chosen to be text the user
/// cannot type by accident, so the UI can split on them without escaping HTML.
pub const HIGHLIGHT_OPEN: &'static str = "\u{2062}[";
pub const HIGHLIGHT_CLOSE: &'static str = "]\u{2062}";

/// The characters a search term keeps: letters, digits and the underscore.
pub open spec fn is_term_char(c: char) -> bool {
    alphanumeric(c) || c == '_'
}

pub open spec fn term_of(word: Seq<char>) -> Seq<char>
    decreases word.len(),
{
    if word.len() == 0 {
        Seq::empty()
    } else if is_term_char(word.last()) {
        term_of(word.drop_last()).push(word.last())
    } else {
        term_of(word.drop_last())
    }
}

/// The terms of a query: each word with everything but term characters taken
/// out, and the words left empty by that dropped.
pub open spec fn search_terms(text: Seq<char>) -> Seq<Seq<char>> {
    nonempty_parts(Seq::new(words(text).len(), |i: int| term_of(words(text)[i])))
}

/// A term in double quotes, with a `*` after the last so results narrow while
/// the user is still typing.
pub open spec fn quoted_term(term: Seq<char>, last: bool) -> Seq<char> {
    if last {
        seq!['"'] + term + seq!['"', '*']
    } else {
        seq!['"'] + term + seq!['"']
    }
}

/// The first `n` terms, quoted and joined by ` AND `.
pub open spec fn joined_terms(terms: Seq<Seq<char>>, n: int) -> Seq<char>
    decreases n,
{
    if n <= 0 {
        Seq::empty()
    } else if n == 1 {
        quoted_term(terms[0], terms.len() == 1)
    } else {
        joined_terms(terms, n - 1) + " AND "@ + quoted_term(terms[n - 1], n == terms.len())
    }
}

/// Double quotes doubled, which is how FTS5 escapes them inside a string.
pub open spec fn escape_quotes(s: Seq<char>) -> Seq<char>
    decreases s.len(),
{
    if s.len() == 0 {
        Seq::empty()
    } else if s.last() == '"' {
        escape_quotes(s.drop_last()) + seq!['"', '"']
    } else {
        escape_quotes(s.drop_last()).push(s.last())
    }
}

/// The text between a pair of surrounding double quotes, when it holds more
/// than quotes: an explicit phrase, kept as one unit.
pub open spec fn is_explicit_phrase(t: Seq<char>) -> bool {
    &&& t.len() >= 2
    &&& t[0] == '"'
    &&& t.last() == '"'
    &&& exists|i: int| 1 <= i < t.len() - 1 && t[i] != '"'
}

/// The MATCH expression for what was typed, or `None` when nothing searchable
/// remains.
pub open spec fn match_expression(text: Seq<char>) -> Option<Seq<char>> {
    let t = trim(text);
    if t.len() == 0 {
        None
    } else if is_explicit_phrase(t) {
        Some(seq!['"'] + escape_quotes(t.subrange(1, t.len() - 1)) + seq!['"'])
    } else {
        let terms = search_terms(t);
        if terms.len() == 0 {
            None
        } else {
            Some(joined_terms(terms, terms.len() as int))
        }
    }
}

/// The `i`-th of `terms` as it stands in the expression: ` AND ` before every
/// term but the first, the term in double quotes, and `*` after the last.
pub open spec fn and_piece(terms: Seq<Seq<char>>, i: int) -> Seq<char> {
    (if i == 0 {
        Seq::<char>::empty()
    } else {
        " AND "@
    }) + seq!['"'] + terms[i] + (if i == terms.len() - 1 {
        seq!['"', '*']
    } else {
        seq!['"']
    })
}

proof fn lemma_joined_pieces(terms: Seq<Seq<char>>, m: int)
    requires
        1 <= m <= terms.len(),
    ensures
        joined_terms(terms, m) == Seq::new(m as nat, |i: int| and_piece(terms, i)).flatten_alt(),
    decreases m,
{
    let pieces = Seq::new(m as nat, |i: int| and_piece(terms, i));
    if m == 1 {
        let front = Seq::new(0, |i: int| and_piece(terms, i));
        assert(pieces.drop_last() =~= front);
        assert(front.flatten_alt() =~= Seq::<char>::empty());
        assert(and_piece(terms, 0) =~= quoted_term(terms[0], terms.len() == 1));
        assert(pieces.flatten_alt() =~= and_piece(terms, 0));
    } else {
        lemma_joined_pieces(terms, m - 1);
        assert(pieces.drop_last() =~= Seq::new((m - 1) as nat, |i: int| and_piece(terms, i)));
        assert(and_piece(terms, m - 1) =~= " AND "@ + quoted_term(terms[m - 1], m == terms.len()));
        assert(joined_terms(terms, m) =~= pieces.flatten_alt());
    }
}

/// Every term of a query is required: when it is not an explicit phrase, the
/// expression is its terms in order, each in double quotes, with ` AND `
/// between every two neighbours and `*` after the last.
pub proof fn lemma_every_term_is_required(text: Seq<char>)
    requires
        !is_explicit_phrase(trim(text)),
        search_terms(trim(text)).len() > 0,
    ensures
        match_expression(text) == Some(
            Seq::new(
                search_terms(trim(text)).len(),
                |i: int| and_piece(search_terms(trim(text)), i),
            ).flatten(),
        ),
{
    let terms = search_terms(trim(text));
    let pieces = Seq::new(terms.len(), |i: int| and_piece(terms, i));
    if trim(text).len() == 0 {
        let e = trim(text);
        assert(crate::text::ws_fields(e) =~= seq![Seq::<char>::empty()]);
        let fields = seq![Seq::<char>::empty()];
        assert(fields.drop_last() =~= Seq::<Seq<char>>::empty());
        assert(nonempty_parts(Seq::<Seq<char>>::empty()) =~= Seq::<Seq<char>>::empty());
        assert(nonempty_parts(fields) == nonempty_parts(fields.drop_last()));
        assert(words(e) =~= Seq::<Seq<char>>::empty());
        let mapped = Seq::new(words(e).len(), |i: int| term_of(words(e)[i]));
        assert(mapped =~= Seq::<Seq<char>>::empty());
        assert(terms.len() == 0);
    }
    lemma_joined_pieces(terms, terms.len() as int);
    pieces.lemma_flatten_and_flatten_alt_are_equivalent();
}

fn term_of_exec(word: &[char]) -> (out: Vec<char>)
    ensures
        out@ == term_of(word@),
{
    let mut out: Vec<char> = Vec::new();
    let mut i: usize = 0;
    assert(word@.take(0) =~= Seq::<char>::empty());
    while i < word.len()
        invariant
            i <= word@.len(),
            out@ == term_of(word@.take(i as int)),
        decreases word.len() - i,
    {
        let c = word[i];
        assert(word@.take(i as int + 1).drop_last() =~= word@.take(i as int));
        assert(word@.take(i as int + 1).last() == c);
        if is_alphanumeric(c) || c == '_' {
            out.push(c);
        }
        i = i + 1;
    }
    assert(word@.take(word@.len() as int) =~= word@);
    out
}

fn escape_quotes_exec(s: &[char], from: usize, to: usize) -> (out: Vec<char>)
    requires
        from <= to <= s@.len(),
    ensures
        out@ == escape_quotes(s@.subrange(from as int, to as int)),
{
    let mut out: Vec<char> = Vec::new();
    let mut i: usize = from;
    assert(s@.subrange(from as int, from as int) =~= Seq::<char>::empty());
    while i < to
        invariant
            from <= i <= to <= s@.len(),
            out@ == escape_quotes(s@.subrange(from as int, i as int)),
        decreases to - i,
    {
        let c = s[i];
        assert(s@.subrange(from as int, i as int + 1).drop_last() =~= s@.subrange(
            from as int,
            i as int,
        ));
        assert(s@.subrange(from as int, i as int + 1).last() == c);
        let ghost before = out@;
        if c == '"' {
            out.push('"');
            out.push('"');
            assert(out@ =~= before + seq!['"', '"']);
        } else {
            out.push(c);
        }
        i = i + 1;
    }
    out
}

/// Rewrites free text into a safe FTS5 MATCH expression.
///
/// Each whitespace-separated term becomes a quoted string, and the final term
/// gains a `*` so results narrow as the user is still typing. Returns `None`
/// when nothing searchable remains, which the caller treats as an empty result
/// rather than as "match everything".
pub fn build_match_expression(text: &str) -> (r: Option<String>)
    ensures
        match match_expression(text@) {
            Some(e) => r matches Some(s) && s@ == e,
            None => r is None,
        },
{
    let chars = chars_of(text);
    let t = trim_chars(&chars);
    let n = t.len();
    if n == 0 {
        return None;
    }
    if n >= 2 && t[0] == '"' && t[n - 1] == '"' {
        let mut inner_has_text = false;
        let mut i: usize = 1;
        while i < n - 1 && !inner_has_text
            invariant
                1 <= i <= n - 1,
                n == t@.len() >= 2,
                inner_has_text ==> exists|j: int| 1 <= j < n - 1 && t@[j] != '"',
                !inner_has_text ==> forall|j: int| 1 <= j < i ==> t@[j] == '"',
            decreases n - i,
        {
            if t[i] != '"' {
                assert(t@[i as int] != '"');
                inner_has_text = true;
            }
            i = i + 1;
        }
        if inner_has_text {
            let mut out: Vec<char> = Vec::new();
            out.push('"');
            let escaped = escape_quotes_exec(&t, 1, n - 1);
            append_chars(&mut out, &escaped);
            out.push('"');
            assert(out@ =~= seq!['"'] + escape_quotes(t@.subrange(1, n - 1)) + seq!['"']);
            return Some(string_of(&out));
        }
    }
    let ws = split_words(&t);
    let ghost wv = vviews(ws@);
    let mut terms: Vec<Vec<char>> = Vec::new();
    let mut k: usize = 0;
    assert(wv.take(0) =~= Seq::<Seq<char>>::empty());
    while k < ws.len()
        invariant
            k <= ws@.len(),
            wv == vviews(ws@),
            vviews(terms@) == nonempty_parts(
                Seq::new(k as nat, |i: int| term_of(wv[i])),
            ),
        decreases ws.len() - k,
    {
        let term = term_of_exec(&ws[k]);
        let ghost parts = Seq::new(k as nat, |i: int| term_of(wv[i]));
        let ghost next = Seq::new(k as nat + 1, |i: int| term_of(wv[i]));
        assert(next =~= parts.push(term@));
        proof {
            crate::text::lemma_nonempty_parts_push(parts, term@);
        }
        if term.len() > 0 {
            let ghost before = vviews(terms@);
            terms.push(term);
            assert(vviews(terms@) =~= before.push(terms@.last()@));
        }
        k = k + 1;
    }
    assert(Seq::new(ws@.len(), |i: int| term_of(wv[i])) =~= Seq::new(
        words(t@).len(),
        |i: int| term_of(words(t@)[i]),
    ));
    let ghost tv = vviews(terms@);
    let count = terms.len();
    if count == 0 {
        return None;
    }
    let mut out: Vec<char> = Vec::new();
    let mut j: usize = 0;
    while j < count
        invariant
            j <= count == terms@.len() == tv.len(),
            tv == vviews(terms@),
            out@ == joined_terms(tv, j as int),
        decreases count - j,
    {
        let ghost before = out@;
        if j > 0 {
            append_str(&mut out, " AND ");
        }
        out.push('"');
        append_chars(&mut out, &terms[j]);
        out.push('"');
        if j + 1 == count {
            out.push('*');
        }
        assert(tv[j as int] == terms@[j as int]@);
        assert(out@ =~= joined_terms(tv, j as int + 1));
        j = j + 1;
    }
    Some(string_of(&out))
}

/// The full-text index. A hit carries a rank that only storage interprets, so
/// the core passes hits through as the implementation's own type.
pub trait SearchRepository {
    type Hit;

    fn search(&self, query: &SearchQuery, page: PageRequest) -> AppResult<Page<Self::Hit>>;

    /// Records a query the user actually ran, for the recent-searches list.
    fn record_history(&self, text: &str, result_count: u32) -> AppResult<()>;

    /// Most recent distinct queries, newest first.
    fn recent_queries(&self, limit: u32) -> AppResult<Vec<String>>;

    fn clear_history(&self) -> AppResult<()>;
}

} // verus!
