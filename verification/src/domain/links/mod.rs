//! Links pasted into notes, and what a page says about itself.

pub mod html;

use vstd::prelude::*;

use crate::error::AppResult;

verus! {

/// A page as the app remembers it.
///
/// `title` and `icon` are independently optional: plenty of pages have one and
/// not the other, and a missing icon is no reason to throw away a good title.
#[derive(Clone, Debug, PartialEq, Eq)]
pub struct LinkPreview {
    /// The address this was looked up under — the normalised form, not
    /// necessarily the text the user typed.
    pub url: String,
    pub title: Option<String>,
    /// A `data:` URL, so the icon survives being offline.
    pub icon: Option<String>,
    /// Whether the last attempt reached the site at all. A row with `ok = false`
    /// is what stops a host that is down from being asked on every keystroke.
    pub ok: bool,
    pub fetched_at: i64,
}

impl LinkPreview {
    /// A preview that says nothing, for an address that could not be read.
    pub fn unreachable(url: String, fetched_at: i64) -> (p: LinkPreview)
        ensures
            p.url == url,
            p.title is None,
            p.icon is None,
            !p.ok,
            p.fetched_at == fetched_at,
    {
        LinkPreview { url, title: None, icon: None, ok: false, fetched_at }
    }

    /// Whether this is worth showing. A row that reached the site and found
    /// neither a title nor an icon is a real answer, but not a useful one.
    pub fn is_empty(&self) -> (b: bool)
        ensures
            b == (self.title is None && self.icon is None),
    {
        self.title.is_none() && self.icon.is_none()
    }
}

/// A page, fetched.
pub struct FetchedPage {
    /// Where the page came from after redirects. Relative icon addresses are
    /// resolved against this rather than against what was asked for.
    pub final_url: String,
    pub html: String,
}

/// An icon, fetched.
pub struct FetchedIcon {
    pub mime: String,
    pub bytes: Vec<u8>,
}

/// Where previews are remembered. Storage decides what each call answers.
pub trait LinkPreviewRepository {
    fn read(&self, url: &str) -> AppResult<Option<LinkPreview>>;

    fn write(&self, preview: &LinkPreview) -> AppResult<()>;

    /// Drops every remembered page: a cache of the sites someone has pasted is
    /// a record of what they read, and they are entitled to end it without
    /// deleting the notes.
    fn clear(&self) -> AppResult<()>;
}

/// The network, as the use case needs it. What it answers is the network's
/// business.
pub trait LinkReader {
    /// Fails when the address cannot be reached, answers with an error status,
    /// or does not return HTML.
    fn page(&self, url: &str) -> AppResult<FetchedPage>;

    /// Fails when the icon cannot be reached or is not an image.
    fn icon(&self, url: &str) -> AppResult<FetchedIcon>;
}

} // verus!
