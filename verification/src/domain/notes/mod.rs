//! Notes: the entity and its invariants.
//!
//! The note type changes how the UI presents a note, never how it is stored:
//! one durable row shape serves all seventeen types, so switching a checklist
//! to a journal entry can never lose the text that was already written.

pub mod repository;

use vstd::prelude::*;

use crate::domain::clock::Timestamp;
use crate::domain::ids::NoteId;
use crate::error::{AppError, AppResult, ValidationError};
use crate::text::{
    chars_of, eq_str, line_fields, split_lines, split_words, string_of, take_chars,
    take_prefix, trim, trim_chars, vviews, words,
};

pub use repository::{NoteFilter, NoteScope, NoteSort, Page, PageRequest};

verus! {

/// Longest accepted title. Generous for a heading, short enough that a runaway
/// paste cannot turn the note list into a wall of text.
pub const MAX_TITLE_LEN: usize = 500;

/// Longest accepted body, in characters. Roughly a 400-page book.
pub const MAX_CONTENT_LEN: usize = 1000000;

/// Longest title derived from the body: what fits a list row.
pub const MAX_DERIVED_TITLE_LEN: usize = 80;

#[derive(Clone, Copy, PartialEq, Eq, Hash, Debug, Structural)]
pub enum NoteType {
    Text,
    RichText,
    Checklist,
    TaskList,
    Journal,
    DailyNote,
    Meeting,
    Idea,
    Project,
    Contact,
    ShoppingList,
    Habit,
    PasswordHint,
    Bookmark,
    CodeSnippet,
    VoiceNote,
    Drawing,
}

/// The stored discriminator of each type.
pub open spec fn note_type_text(t: NoteType) -> Seq<char> {
    match t {
        NoteType::Text => "text"@,
        NoteType::RichText => "rich_text"@,
        NoteType::Checklist => "checklist"@,
        NoteType::TaskList => "task_list"@,
        NoteType::Journal => "journal"@,
        NoteType::DailyNote => "daily_note"@,
        NoteType::Meeting => "meeting"@,
        NoteType::Idea => "idea"@,
        NoteType::Project => "project"@,
        NoteType::Contact => "contact"@,
        NoteType::ShoppingList => "shopping_list"@,
        NoteType::Habit => "habit"@,
        NoteType::PasswordHint => "password_hint"@,
        NoteType::Bookmark => "bookmark"@,
        NoteType::CodeSnippet => "code_snippet"@,
        NoteType::VoiceNote => "voice_note"@,
        NoteType::Drawing => "drawing"@,
    }
}

/// The type a stored discriminator names, if any.
pub open spec fn note_type_named(text: Seq<char>) -> Option<NoteType> {
    if text == "text"@ {
        Some(NoteType::Text)
    } else if text == "rich_text"@ {
        Some(NoteType::RichText)
    } else if text == "checklist"@ {
        Some(NoteType::Checklist)
    } else if text == "task_list"@ {
        Some(NoteType::TaskList)
    } else if text == "journal"@ {
        Some(NoteType::Journal)
    } else if text == "daily_note"@ {
        Some(NoteType::DailyNote)
    } else if text == "meeting"@ {
        Some(NoteType::Meeting)
    } else if text == "idea"@ {
        Some(NoteType::Idea)
    } else if text == "project"@ {
        Some(NoteType::Project)
    } else if text == "contact"@ {
        Some(NoteType::Contact)
    } else if text == "shopping_list"@ {
        Some(NoteType::ShoppingList)
    } else if text == "habit"@ {
        Some(NoteType::Habit)
    } else if text == "password_hint"@ {
        Some(NoteType::PasswordHint)
    } else if text == "bookmark"@ {
        Some(NoteType::Bookmark)
    } else if text == "code_snippet"@ {
        Some(NoteType::CodeSnippet)
    } else if text == "voice_note"@ {
        Some(NoteType::VoiceNote)
    } else if text == "drawing"@ {
        Some(NoteType::Drawing)
    } else {
        None
    }
}

impl NoteType {
    pub fn as_str(self) -> (s: &'static str)
        ensures
            s@ == note_type_text(self),
    {
        match self {
            NoteType::Text => "text",
            NoteType::RichText => "rich_text",
            NoteType::Checklist => "checklist",
            NoteType::TaskList => "task_list",
            NoteType::Journal => "journal",
            NoteType::DailyNote => "daily_note",
            NoteType::Meeting => "meeting",
            NoteType::Idea => "idea",
            NoteType::Project => "project",
            NoteType::Contact => "contact",
            NoteType::ShoppingList => "shopping_list",
            NoteType::Habit => "habit",
            NoteType::PasswordHint => "password_hint",
            NoteType::Bookmark => "bookmark",
            NoteType::CodeSnippet => "code_snippet",
            NoteType::VoiceNote => "voice_note",
            NoteType::Drawing => "drawing",
        }
    }

    /// Parses the stored discriminator.
    ///
    /// # Errors
    /// An invalid `note_type` for an unknown value, which means the row was
    /// written by a newer build or hand-edited.
    pub fn parse(value: &str) -> (r: AppResult<NoteType>)
        ensures
            match note_type_named(value@) {
                Some(t) => r == Ok::<NoteType, AppError>(t),
                None => r == Err::<NoteType, AppError>(
                    AppError::Validation(ValidationError::Invalid { field: "note_type" }),
                ),
            },
    {
        let chars = chars_of(value);
        if eq_str(&chars, "text") {
            return Ok(NoteType::Text);
        }
        if eq_str(&chars, "rich_text") {
            return Ok(NoteType::RichText);
        }
        if eq_str(&chars, "checklist") {
            return Ok(NoteType::Checklist);
        }
        if eq_str(&chars, "task_list") {
            return Ok(NoteType::TaskList);
        }
        if eq_str(&chars, "journal") {
            return Ok(NoteType::Journal);
        }
        if eq_str(&chars, "daily_note") {
            return Ok(NoteType::DailyNote);
        }
        if eq_str(&chars, "meeting") {
            return Ok(NoteType::Meeting);
        }
        if eq_str(&chars, "idea") {
            return Ok(NoteType::Idea);
        }
        if eq_str(&chars, "project") {
            return Ok(NoteType::Project);
        }
        if eq_str(&chars, "contact") {
            return Ok(NoteType::Contact);
        }
        if eq_str(&chars, "shopping_list") {
            return Ok(NoteType::ShoppingList);
        }
        if eq_str(&chars, "habit") {
            return Ok(NoteType::Habit);
        }
        if eq_str(&chars, "password_hint") {
            return Ok(NoteType::PasswordHint);
        }
        if eq_str(&chars, "bookmark") {
            return Ok(NoteType::Bookmark);
        }
        if eq_str(&chars, "code_snippet") {
            return Ok(NoteType::CodeSnippet);
        }
        if eq_str(&chars, "voice_note") {
            return Ok(NoteType::VoiceNote);
        }
        if eq_str(&chars, "drawing") {
            return Ok(NoteType::Drawing);
        }
        Err(AppError::Validation(ValidationError::Invalid { field: "note_type" }))
    }
}

/// Every note type survives a round trip through its stored discriminator.
pub proof fn lemma_note_type_round_trip(t: NoteType)
    ensures
        note_type_named(note_type_text(t)) == Some(t),
{
    reveal_strlit("text");
    reveal_strlit("rich_text");
    reveal_strlit("checklist");
    reveal_strlit("task_list");
    reveal_strlit("journal");
    reveal_strlit("daily_note");
    reveal_strlit("meeting");
    reveal_strlit("idea");
    reveal_strlit("project");
    reveal_strlit("contact");
    reveal_strlit("shopping_list");
    reveal_strlit("habit");
    reveal_strlit("password_hint");
    reveal_strlit("bookmark");
    reveal_strlit("code_snippet");
    reveal_strlit("voice_note");
    reveal_strlit("drawing");
    assert("text"@.len() == 4 && "text"@[0] == 't');
    assert("rich_text"@.len() == 9 && "rich_text"@[0] == 'r');
    assert("checklist"@.len() == 9 && "checklist"@[0] == 'c');
    assert("task_list"@.len() == 9 && "task_list"@[0] == 't');
    assert("journal"@.len() == 7 && "journal"@[0] == 'j');
    assert("daily_note"@.len() == 10 && "daily_note"@[0] == 'd');
    assert("meeting"@.len() == 7 && "meeting"@[0] == 'm');
    assert("idea"@.len() == 4 && "idea"@[0] == 'i');
    assert("project"@.len() == 7 && "project"@[0] == 'p');
    assert("contact"@.len() == 7 && "contact"@[0] == 'c');
    assert("shopping_list"@.len() == 13 && "shopping_list"@[0] == 's');
    assert("habit"@.len() == 5 && "habit"@[0] == 'h');
    assert("password_hint"@.len() == 13 && "password_hint"@[0] == 'p');
    assert("bookmark"@.len() == 8 && "bookmark"@[0] == 'b');
    assert("code_snippet"@.len() == 12 && "code_snippet"@[0] == 'c');
    assert("voice_note"@.len() == 10 && "voice_note"@[0] == 'v');
    assert("drawing"@.len() == 7 && "drawing"@[0] == 'd');
}

/// A stored note.
#[derive(Clone, Debug, PartialEq, Eq)]
pub struct Note {
    pub id: NoteId,
    pub note_type: NoteType,
    pub title: String,
    /// Plain-text projection of the document: what search indexes and what
    /// Markdown export starts from.
    pub content_text: String,
    /// Rich document as JSON, when the type uses one.
    pub content_json: Option<String>,
    pub color: Option<String>,
    pub background: Option<String>,
    pub is_pinned: bool,
    pub is_favorite: bool,
    pub is_archived: bool,
    pub is_readonly: bool,
    pub position: i64,
    pub word_count: i64,
    pub char_count: i64,
    pub revision: i64,
    pub created_at: Timestamp,
    pub updated_at: Timestamp,
    pub deleted_at: Option<Timestamp>,
}

impl Note {
    pub fn is_in_trash(&self) -> (b: bool)
        ensures
            b == self.deleted_at is Some,
    {
        self.deleted_at.is_some()
    }
}

/// Everything needed to create a note. Fields absent here get schema defaults.
#[derive(Clone, Debug, Default)]
pub struct NoteDraft {
    pub note_type: Option<NoteType>,
    pub title: Option<String>,
    pub content_text: Option<String>,
    pub content_json: Option<String>,
    pub color: Option<String>,
    pub background: Option<String>,
}

/// A partial update. `None` means "leave as is", which is what lets the editor
/// autosave just the body without touching pin or archive state.
#[derive(Clone, Debug, Default)]
pub struct NotePatch {
    pub note_type: Option<NoteType>,
    pub title: Option<String>,
    pub content_text: Option<String>,
    /// Outer `None` leaves the document alone; inner `None` clears it.
    pub content_json: Option<Option<String>>,
    pub color: Option<Option<String>>,
    pub background: Option<Option<String>>,
    pub is_pinned: Option<bool>,
    pub is_favorite: Option<bool>,
    pub is_archived: Option<bool>,
    pub is_readonly: Option<bool>,
    pub position: Option<i64>,
}

impl NotePatch {
    /// True when the patch would not change anything.
    pub fn is_empty(&self) -> (b: bool)
        ensures
            b == (self.note_type is None && self.title is None && self.content_text is None
                && self.content_json is None && self.color is None && self.background is None
                && self.is_pinned is None && self.is_favorite is None && self.is_archived is None
                && self.is_readonly is None && self.position is None),
    {
        self.note_type.is_none() && self.title.is_none() && self.content_text.is_none()
            && self.content_json.is_none() && self.color.is_none() && self.background.is_none()
            && self.is_pinned.is_none() && self.is_favorite.is_none() && self.is_archived.is_none()
            && self.is_readonly.is_none() && self.position.is_none()
    }
}

/// A count held within `i64`.
pub open spec fn count_i64(n: nat) -> i64 {
    if n > i64::MAX as nat {
        i64::MAX
    } else {
        n as i64
    }
}

fn count_as_i64(n: usize) -> (r: i64)
    ensures
        r == count_i64(n as nat),
{
    if n as u64 > i64::MAX as u64 {
        i64::MAX
    } else {
        n as i64
    }
}

/// Counts words and characters the way the editor footer reports them.
///
/// Characters are counted in Unicode scalar values, not bytes, so Cyrillic text
/// does not read as twice its length.
pub fn measure(text: &str) -> (r: (i64, i64))
    ensures
        r == (count_i64(words(text@).len()), count_i64(text@.len())),
{
    let chars = chars_of(text);
    let found = split_words(&chars);
    proof {
        assert(vviews(found@).len() == found@.len());
    }
    (count_as_i64(found.len()), count_as_i64(chars.len()))
}

/// The error for text longer than a field allows.
pub open spec fn too_long(field: &'static str, max: usize) -> AppError {
    AppError::Validation(ValidationError::TooLong { field, max })
}

/// Rejects a title that is too long.
///
/// # Errors
/// A too-long `title` past [`MAX_TITLE_LEN`] characters.
pub fn validate_title(title: &str) -> (r: AppResult<()>)
    ensures
        title@.len() <= MAX_TITLE_LEN ==> r == Ok::<(), AppError>(()),
        title@.len() > MAX_TITLE_LEN ==> r == Err::<(), AppError>(too_long("title", MAX_TITLE_LEN)),
{
    let chars = chars_of(title);
    if chars.len() > MAX_TITLE_LEN {
        return Err(AppError::Validation(ValidationError::TooLong { field: "title", max: MAX_TITLE_LEN }));
    }
    Ok(())
}

/// Rejects a body that is too long.
///
/// # Errors
/// A too-long `content_text` past [`MAX_CONTENT_LEN`] characters.
pub fn validate_content(content: &str) -> (r: AppResult<()>)
    ensures
        content@.len() <= MAX_CONTENT_LEN ==> r == Ok::<(), AppError>(()),
        content@.len() > MAX_CONTENT_LEN ==> r == Err::<(), AppError>(
            too_long("content_text", MAX_CONTENT_LEN),
        ),
{
    let chars = chars_of(content);
    if chars.len() > MAX_CONTENT_LEN {
        return Err(
            AppError::Validation(
                ValidationError::TooLong { field: "content_text", max: MAX_CONTENT_LEN },
            ),
        );
    }
    Ok(())
}

/// The first line of the body with something in it, trimmed; empty when there
/// is none.
pub open spec fn first_nonempty_line(lines: Seq<Seq<char>>) -> Seq<char>
    decreases lines.len(),
{
    if lines.len() == 0 {
        Seq::empty()
    } else if trim(lines[0]).len() > 0 {
        trim(lines[0])
    } else {
        first_nonempty_line(lines.drop_first())
    }
}

/// Whole words taken from the front while the row still has room: a word fits
/// while the text so far, the word and one space come to at most the limit.
pub open spec fn fill_row(ws: Seq<Seq<char>>, acc: Seq<char>) -> Seq<char>
    decreases ws.len(),
{
    if ws.len() == 0 || acc.len() + ws[0].len() + 1 > MAX_DERIVED_TITLE_LEN {
        acc
    } else {
        fill_row(
            ws.drop_first(),
            if acc.len() == 0 {
                ws[0]
            } else {
                acc.push(' ') + ws[0]
            },
        )
    }
}

/// The display title of a note: its own title trimmed, or, for a note never
/// titled, the whole words of the first non-empty line of the body that fit a
/// list row — or the row's worth of characters when even the first word does
/// not fit.
pub open spec fn derived_title(title: Seq<char>, content: Seq<char>) -> Seq<char> {
    if trim(title).len() > 0 {
        trim(title)
    } else {
        let line = first_nonempty_line(line_fields(content));
        let row = fill_row(words(line), Seq::empty());
        if line.len() == 0 {
            Seq::empty()
        } else if row.len() == 0 {
            take_chars(line, MAX_DERIVED_TITLE_LEN as int)
        } else {
            row
        }
    }
}

proof fn lemma_fill_row_bound(ws: Seq<Seq<char>>, acc: Seq<char>)
    requires
        acc.len() <= MAX_DERIVED_TITLE_LEN,
    ensures
        fill_row(ws, acc).len() <= MAX_DERIVED_TITLE_LEN,
    decreases ws.len(),
{
    if ws.len() > 0 && acc.len() + ws[0].len() + 1 <= MAX_DERIVED_TITLE_LEN {
        let next = if acc.len() == 0 {
            ws[0]
        } else {
            acc.push(' ') + ws[0]
        };
        lemma_fill_row_bound(ws.drop_first(), next);
    }
}

/// A title derived from the body never runs past a list row.
pub proof fn lemma_derived_title_fits_a_row(title: Seq<char>, content: Seq<char>)
    requires
        trim(title).len() == 0,
    ensures
        derived_title(title, content).len() <= MAX_DERIVED_TITLE_LEN,
{
    let line = first_nonempty_line(line_fields(content));
    lemma_fill_row_bound(words(line), Seq::empty());
}

/// Derives a display title for a note the user never titled, using the first
/// non-empty line of the body. An untitled note in a list is useless.
pub fn derive_title(title: &str, content_text: &str) -> (r: String)
    ensures
        r@ == derived_title(title@, content_text@),
{
    let title_chars = chars_of(title);
    let trimmed = trim_chars(&title_chars);
    if trimmed.len() > 0 {
        return string_of(&trimmed);
    }
    let content = chars_of(content_text);
    let lines = split_lines(&content);
    let ghost all = vviews(lines@);
    let mut line: Vec<char> = Vec::new();
    let mut i: usize = 0;
    assert(all.skip(0) =~= all);
    while i < lines.len() && line.len() == 0
        invariant
            i <= lines@.len(),
            all == vviews(lines@),
            line@.len() == 0 ==> first_nonempty_line(all) == first_nonempty_line(all.skip(i as int)),
            line@.len() > 0 ==> line@ == first_nonempty_line(all),
        decreases lines.len() - i,
    {
        let candidate = trim_chars(&lines[i]);
        assert(all.skip(i as int).drop_first() =~= all.skip(i as int + 1));
        assert(all.skip(i as int)[0] == lines@[i as int]@);
        if candidate.len() > 0 {
            line = candidate;
        }
        i = i + 1;
    }
    proof {
        if line@.len() == 0 {
            assert(all.skip(i as int).len() == 0);
        }
    }
    assert(line@ == first_nonempty_line(all));
    if line.len() == 0 {
        return string_of(&line);
    }
    let ws = split_words(&line);
    let ghost wsv = vviews(ws@);
    let mut row: Vec<char> = Vec::new();
    let mut k: usize = 0;
    let mut full = false;
    assert(wsv.skip(0) =~= wsv);
    while k < ws.len() && !full
        invariant
            k <= ws@.len(),
            wsv == vviews(ws@),
            row@.len() <= MAX_DERIVED_TITLE_LEN,
            !full ==> fill_row(wsv, Seq::empty()) == fill_row(wsv.skip(k as int), row@),
            full ==> fill_row(wsv, Seq::empty()) == row@,
        decreases ws.len() - k,
    {
        let word = &ws[k];
        assert(wsv.skip(k as int)[0] == word@);
        if word.len() >= MAX_DERIVED_TITLE_LEN - row.len() {
            full = true;
        } else {
            assert(wsv.skip(k as int).drop_first() =~= wsv.skip(k as int + 1));
            let ghost before = row@;
            if row.len() > 0 {
                row.push(' ');
            }
            let mut j: usize = 0;
            while j < word.len()
                invariant
                    j <= word@.len(),
                    row@ == (if before.len() == 0 {
                        Seq::<char>::empty()
                    } else {
                        before.push(' ')
                    }) + word@.take(j as int),
                decreases word.len() - j,
            {
                row.push(word[j]);
                j = j + 1;
                assert(row@ =~= (if before.len() == 0 {
                    Seq::<char>::empty()
                } else {
                    before.push(' ')
                }) + word@.take(j as int));
            }
            assert(word@.take(word@.len() as int) =~= word@);
        }
        k = k + 1;
    }
    proof {
        if !full {
            assert(wsv.skip(k as int).len() == 0);
        }
    }
    if row.len() == 0 {
        let cut = take_prefix(&line, MAX_DERIVED_TITLE_LEN);
        return string_of(&cut);
    }
    string_of(&row)
}

} // verus!
