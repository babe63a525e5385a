//! Putting notes in folders and wearing tags: the identifiers a request names
//! are all checked before any of them reaches storage.

use std::sync::Arc;

use vstd::prelude::*;

use crate::domain::clock::Clock;
use crate::domain::ids::{uuid_parse, FolderId, NoteId, TagId};
use crate::domain::organisation::{Folder, LabelName, OrganisationRepository, Tag};
use crate::error::{AppError, AppResult, ValidationError};
use crate::text::trim;

verus! {

/// The first text among `texts` that is not a UUID, if any.
pub open spec fn first_malformed(texts: Seq<Seq<char>>, k: int) -> Option<int>
    decreases texts.len() - k,
{
    if k < 0 || k >= texts.len() {
        None
    } else if uuid_parse(texts[k]) is None {
        Some(k)
    } else {
        first_malformed(texts, k + 1)
    }
}

pub open spec fn string_views(v: Seq<String>) -> Seq<Seq<char>> {
    Seq::new(v.len(), |i: int| v[i]@)
}

/// Parses every tag id of a request, or none of them: one malformed id leaves
/// the whole set as it was.
///
/// # Errors
/// An invalid `tag_id` when any text is not a UUID.
pub fn parse_tag_ids(texts: &[String]) -> (r: AppResult<Vec<TagId>>)
    ensures
        first_malformed(string_views(texts@), 0) is Some ==> r == Err::<Vec<TagId>, AppError>(
            AppError::Validation(ValidationError::Invalid { field: "tag_id" }),
        ),
        first_malformed(string_views(texts@), 0) is None ==> (r matches Ok(ids) && ids@.len()
            == texts@.len() && forall|i: int|
            0 <= i < texts@.len() ==> Some((#[trigger] ids@[i])@) == uuid_parse(texts@[i]@)),
{
    let ghost views = string_views(texts@);
    let mut ids: Vec<TagId> = Vec::new();
    let mut i: usize = 0;
    while i < texts.len()
        invariant
            i <= texts@.len(),
            views == string_views(texts@),
            ids@.len() == i,
            forall|j: int| 0 <= j < i ==> Some((#[trigger] ids@[j])@) == uuid_parse(views[j]),
            first_malformed(views, 0) == first_malformed(views, i as int),
        decreases texts.len() - i,
    {
        assert(views[i as int] == texts@[i as int]@);
        let id = TagId::parse(texts[i].as_str())?;
        ids.push(id);
        i = i + 1;
    }
    Ok(ids)
}

/// Parses every folder id of a request, or none of them.
///
/// # Errors
/// An invalid `folder_id` when any text is not a UUID.
pub fn parse_folder_ids(texts: &[String]) -> (r: AppResult<Vec<FolderId>>)
    ensures
        first_malformed(string_views(texts@), 0) is Some ==> r == Err::<Vec<FolderId>, AppError>(
            AppError::Validation(ValidationError::Invalid { field: "folder_id" }),
        ),
        first_malformed(string_views(texts@), 0) is None ==> (r matches Ok(ids) && ids@.len()
            == texts@.len() && forall|i: int|
            0 <= i < texts@.len() ==> Some((#[trigger] ids@[i])@) == uuid_parse(texts@[i]@)),
{
    let ghost views = string_views(texts@);
    let mut ids: Vec<FolderId> = Vec::new();
    let mut i: usize = 0;
    while i < texts.len()
        invariant
            i <= texts@.len(),
            views == string_views(texts@),
            ids@.len() == i,
            forall|j: int| 0 <= j < i ==> Some((#[trigger] ids@[j])@) == uuid_parse(views[j]),
            first_malformed(views, 0) == first_malformed(views, i as int),
        decreases texts.len() - i,
    {
        assert(views[i as int] == texts@[i as int]@);
        let id = FolderId::parse(texts[i].as_str())?;
        ids.push(id);
        i = i + 1;
    }
    Ok(ids)
}

/// Why a label the user typed is refused, if it is.
pub open spec fn label_refusal(raw: Seq<char>) -> Option<AppError> {
    if trim(raw).len() == 0 {
        Some(AppError::Validation(ValidationError::Required { field: "name" }))
    } else if trim(raw).len() > crate::domain::organisation::MAX_LABEL {
        Some(AppError::Validation(ValidationError::TooLong { field: "name", max: crate::domain::organisation::MAX_LABEL }))
    } else {
        None
    }
}

/// What a request naming a note and a set of labels is refused for before
/// storage is asked anything: the note's id first, then the first label id
/// that is not one.
pub open spec fn set_refusal(note_id: Seq<char>, ids: Seq<Seq<char>>, field: &'static str) -> Option<AppError> {
    if uuid_parse(note_id) is None {
        Some(AppError::Validation(ValidationError::Invalid { field: "note_id" }))
    } else if first_malformed(ids, 0) is Some {
        Some(AppError::Validation(ValidationError::Invalid { field }))
    } else {
        None
    }
}

/// Filing notes: the identifiers and names a request carries are checked
/// before any of them reaches storage.
pub struct OrganisationUseCases<R: OrganisationRepository + ?Sized, C: Clock + ?Sized> {
    organisation: Arc<R>,
    clock: Arc<C>,
}

impl<R: OrganisationRepository + ?Sized, C: Clock + ?Sized> OrganisationUseCases<R, C> {
    /// The storage and the clock it was given.
    pub closed spec fn parts(&self) -> (Arc<R>, Arc<C>) {
        (self.organisation, self.clock)
    }

    pub fn new(organisation: Arc<R>, clock: Arc<C>) -> (u: OrganisationUseCases<R, C>)
        ensures
            u.parts() == (organisation, clock),
    {
        OrganisationUseCases { organisation, clock }
    }

    /// # Errors
    /// What storage answered.
    pub fn tags(&self) -> (r: AppResult<Vec<Tag>>) {
        self.organisation.tags()
    }

    /// Finds the tag of that name, whatever its case, or creates it.
    ///
    /// # Errors
    /// A required or too-long `name`, else what storage answered.
    pub fn ensure_tag(&self, name: &str) -> (r: AppResult<Tag>)
        ensures
            label_refusal(name@) matches Some(e) ==> r == Err::<Tag, AppError>(e),
    {
        let label = LabelName::new(name, "name")?;
        self.organisation.ensure_tag(&label, self.clock.now())
    }

    /// # Errors
    /// An invalid `tag_id` for a malformed identifier, else what storage answered.
    pub fn delete_tag(&self, id: &str) -> (r: AppResult<()>)
        ensures
            uuid_parse(id@) is None ==> r == Err::<(), AppError>(
                AppError::Validation(ValidationError::Invalid { field: "tag_id" }),
            ),
    {
        let id = TagId::parse(id)?;
        self.organisation.delete_tag(id)
    }

    /// # Errors
    /// An invalid `note_id` for a malformed identifier, else what storage answered.
    pub fn tags_of_note(&self, note_id: &str) -> (r: AppResult<Vec<Tag>>)
        ensures
            uuid_parse(note_id@) is None ==> r == Err::<Vec<Tag>, AppError>(
                AppError::Validation(ValidationError::Invalid { field: "note_id" }),
            ),
    {
        let id = NoteId::parse(note_id)?;
        self.organisation.tags_of_note(id)
    }

    /// Replaces the whole set of tags on a note and answers the set it now
    /// wears. One malformed id leaves the set as it was.
    ///
    /// # Errors
    /// An invalid `note_id` or `tag_id` for a malformed identifier, else what
    /// storage answered.
    pub fn set_note_tags(&self, note_id: &str, tags: &[String]) -> (r: AppResult<Vec<Tag>>)
        ensures
            set_refusal(note_id@, string_views(tags@), "tag_id") matches Some(e) ==> r == Err::<Vec<Tag>, AppError>(e),
    {
        let note = NoteId::parse(note_id)?;
        let ids = parse_tag_ids(tags)?;
        self.organisation.set_note_tags(note, ids.as_slice(), self.clock.now())?;
        self.organisation.tags_of_note(note)
    }

    /// # Errors
    /// What storage answered.
    pub fn folders(&self) -> (r: AppResult<Vec<Folder>>) {
        self.organisation.folders()
    }

    /// # Errors
    /// A required or too-long `name`, else what storage answered.
    pub fn create_folder(&self, name: &str) -> (r: AppResult<Folder>)
        ensures
            label_refusal(name@) matches Some(e) ==> r == Err::<Folder, AppError>(e),
    {
        let label = LabelName::new(name, "name")?;
        self.organisation.create_folder(&label, self.clock.now())
    }

    /// # Errors
    /// An invalid `folder_id` for a malformed identifier, else what storage answered.
    pub fn delete_folder(&self, id: &str) -> (r: AppResult<()>)
        ensures
            uuid_parse(id@) is None ==> r == Err::<(), AppError>(
                AppError::Validation(ValidationError::Invalid { field: "folder_id" }),
            ),
    {
        let id = FolderId::parse(id)?;
        self.organisation.delete_folder(id)
    }

    /// # Errors
    /// An invalid `note_id` for a malformed identifier, else what storage answered.
    pub fn folders_of_note(&self, note_id: &str) -> (r: AppResult<Vec<Folder>>)
        ensures
            uuid_parse(note_id@) is None ==> r == Err::<Vec<Folder>, AppError>(
                AppError::Validation(ValidationError::Invalid { field: "note_id" }),
            ),
    {
        let id = NoteId::parse(note_id)?;
        self.organisation.folders_of_note(id)
    }

    /// Replaces the whole set of folders a note is filed under and answers
    /// the set it is now in.
    ///
    /// # Errors
    /// An invalid `note_id` or `folder_id` for a malformed identifier, else
    /// what storage answered.
    pub fn set_note_folders(&self, note_id: &str, folders: &[String]) -> (r: AppResult<Vec<Folder>>)
        ensures
            set_refusal(note_id@, string_views(folders@), "folder_id") matches Some(e) ==> r == Err::<Vec<Folder>, AppError>(e),
    {
        let note = NoteId::parse(note_id)?;
        let ids = parse_folder_ids(folders)?;
        self.organisation.set_note_folders(note, ids.as_slice(), self.clock.now())?;
        self.organisation.folders_of_note(note)
    }
}

} // verus!
