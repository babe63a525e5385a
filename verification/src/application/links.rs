//! Turning a pasted address into a title and an icon: when the network is
//! touched at all, which address is asked, and what is kept.
//!
//! The reader itself only knows how to fetch; the rules about the cache — a
//! long memory for answers, a short one for failures — and about which icon to
//! keep live here.

use std::sync::Arc;

use vstd::prelude::*;

use base64::engine::general_purpose::STANDARD;
use base64::Engine;
use url::Url;

use crate::domain::clock::Clock;
use crate::domain::links::html::{icon_href, icon_href_of, page_title, title_of};
use crate::domain::links::{FetchedIcon, FetchedPage, LinkPreview, LinkPreviewRepository, LinkReader};
use crate::error::AppResult;
use crate::text::{append_str, chars_of, eq_str, string_of, trim, trim_chars};

verus! {

/// How long an answer is trusted: a month.
pub const FRESH_MILLIS: i64 = 2592000000;

/// How long a failure is remembered: six hours, because the usual cause is
/// that the phone had no signal at that moment.
pub const RETRY_MILLIS: i64 = 21600000;

/// Largest icon kept, before base64. Anything above this is a picture rather
/// than an icon, and every byte here lands in the database and in the backup.
pub const ICON_LIMIT: usize = 131072;

/// What `url` makes of a text: the scheme, whether there is a host, and the
/// address written out again without its fragment; `None` when it is not an
/// address.
pub uninterp spec fn url_reading(text: Seq<char>) -> Option<(Seq<char>, bool, Seq<char>)>;

/// `Url::parse`, read as its scheme, whether it has a host, and its
/// serialisation once `set_fragment(None)` has dropped the fragment.
#[verifier::external_body]
fn read_url(text: &str) -> (r: Option<(String, bool, String)>)
    ensures
        match r {
            Some((scheme, has_host, bare)) => url_reading(text@) == Some((scheme@, has_host, bare@)),
            None => url_reading(text@) is None,
        },
{
    let mut url = Url::parse(text).ok()?;
    let scheme = url.scheme().to_owned();
    let has_host = url.host().is_some();
    url.set_fragment(None);
    Some((scheme, has_host, url.as_str().to_owned()))
}

/// What `Url::join` makes of a reference against a base address, written out;
/// `None` when either does not parse.
pub uninterp spec fn url_joined(base: Seq<char>, reference: Seq<char>) -> Option<Seq<char>>;

/// `Url::parse` of the base, then `Url::join`, then `as_str`.
#[verifier::external_body]
fn join_url(base: &str, reference: &str) -> (r: Option<String>)
    ensures
        match r {
            Some(s) => url_joined(base@, reference@) == Some(s@),
            None => url_joined(base@, reference@) is None,
        },
{
    let base = Url::parse(base).ok()?;
    Some(base.join(reference).ok()?.as_str().to_owned())
}

/// The digit of the standard base64 alphabet (RFC 4648) for a value below 64.
pub open spec fn base64_digit(v: int) -> char {
    if v < 26 {
        (65 + v) as char
    } else if v < 52 {
        (97 + v - 26) as char
    } else if v < 62 {
        (48 + v - 52) as char
    } else if v == 62 {
        '+'
    } else {
        '/'
    }
}

/// Standard base64 with padding: every three bytes become four digits of six
/// bits each, and a last group of one or two bytes is filled out with `=`.
pub open spec fn base64_of(bytes: Seq<u8>) -> Seq<char>
    decreases bytes.len(),
{
    if bytes.len() == 0 {
        Seq::empty()
    } else if bytes.len() == 1 {
        let a = bytes[0] as int;
        seq![base64_digit(a / 4), base64_digit((a % 4) * 16), '=', '=']
    } else if bytes.len() == 2 {
        let a = bytes[0] as int;
        let b = bytes[1] as int;
        seq![base64_digit(a / 4), base64_digit((a % 4) * 16 + b / 16), base64_digit((b % 16) * 4), '=']
    } else {
        let a = bytes[0] as int;
        let b = bytes[1] as int;
        let c = bytes[2] as int;
        seq![
            base64_digit(a / 4),
            base64_digit((a % 4) * 16 + b / 16),
            base64_digit((b % 16) * 4 + c / 64),
            base64_digit(c % 64),
        ] + base64_of(bytes.skip(3))
    }
}

/// `base64::engine::general_purpose::STANDARD.encode`: the standard alphabet
/// with padding, which is what the engine is configured for.
#[verifier::external_body]
fn base64_encode(bytes: &[u8]) -> (s: String)
    ensures
        s@ == base64_of(bytes@),
{
    STANDARD.encode(bytes)
}

/// The address as the cache knows it: no fragment, and http only. `None` for
/// anything the app must not fetch — a `mailto:`, a `tel:`, or text that is not
/// an address at all.
pub open spec fn normal_address(raw: Seq<char>) -> Option<Seq<char>> {
    match url_reading(trim(raw)) {
        Some((scheme, has_host, bare)) => if (scheme == "http"@ || scheme == "https"@) && has_host {
            Some(bare)
        } else {
            None
        },
        None => None,
    }
}

pub fn normalise(raw: &str) -> (r: Option<String>)
    ensures
        match r {
            Some(s) => normal_address(raw@) == Some(s@),
            None => normal_address(raw@) is None,
        },
{
    let chars = chars_of(raw);
    let trimmed = string_of(&trim_chars(&chars));
    let (scheme, has_host, bare) = match read_url(trimmed.as_str()) {
        Some(parts) => parts,
        None => {
            return None;
        },
    };
    let scheme_chars = chars_of(scheme.as_str());
    if (eq_str(&scheme_chars, "http") || eq_str(&scheme_chars, "https")) && has_host {
        Some(bare)
    } else {
        None
    }
}

/// A remembered preview still answers without asking the network: a real
/// answer for a month, a failure or an empty page for six hours.
pub open spec fn still_fresh(known: LinkPreview, now: i64) -> bool {
    let age = crate::domain::clock::clamp_i64(now - known.fetched_at);
    let limit = if known.ok && !(known.title is None && known.icon is None) {
        FRESH_MILLIS
    } else {
        RETRY_MILLIS
    };
    age < limit
}

pub fn is_fresh(known: &LinkPreview, now: i64) -> (b: bool)
    ensures
        b == still_fresh(*known, now),
{
    let age = crate::domain::clock::saturating_sub_i64(now, known.fetched_at);
    let limit = if known.ok && !known.is_empty() {
        FRESH_MILLIS
    } else {
        RETRY_MILLIS
    };
    age < limit
}

/// What is kept after a read: the read itself, unless it failed where an
/// earlier read had found something — losing signal must not lose a title that
/// was already known, so the old answer is kept, marked stale so it is tried
/// again in hours rather than in a month.
pub fn keep_after_read(read: LinkPreview, known: Option<LinkPreview>, now: i64) -> (kept:
    LinkPreview)
    ensures
        read.ok ==> kept == read,
        !read.ok ==> match known {
            Some(old) => if old.ok && !(old.title is None && old.icon is None) {
                kept == LinkPreview { ok: false, fetched_at: now, ..old }
            } else {
                kept == read
            },
            None => kept == read,
        },
{
    if read.ok {
        return read;
    }
    match known {
        Some(old) => {
            if old.ok && !old.is_empty() {
                LinkPreview { ok: false, fetched_at: now, ..old }
            } else {
                read
            }
        },
        None => read,
    }
}

/// The addresses an icon is looked for at, in order: the one the page
/// declares, then the well-known `/favicon.ico`, each resolved against where
/// the page finally came from.
pub open spec fn icon_addresses(final_url: Seq<char>, html: Seq<char>) -> Seq<Seq<char>> {
    let declared: Seq<Seq<char>> = match icon_href(html) {
        Some(href) => match url_joined(final_url, href) {
            Some(address) => seq![address],
            None => Seq::empty(),
        },
        None => Seq::empty(),
    };
    let fallback: Seq<Seq<char>> = match url_joined(final_url, "/favicon.ico"@) {
        Some(address) => seq![address],
        None => Seq::empty(),
    };
    declared + fallback
}

pub open spec fn strings(v: Seq<String>) -> Seq<Seq<char>> {
    Seq::new(v.len(), |i: int| v[i]@)
}

pub fn icon_candidates(final_url: &str, html: &str) -> (out: Vec<String>)
    ensures
        strings(out@) == icon_addresses(final_url@, html@),
{
    let mut out: Vec<String> = Vec::new();
    match icon_href_of(html) {
        Some(href) => match join_url(final_url, href.as_str()) {
            Some(address) => out.push(address),
            None => {},
        },
        None => {},
    }
    let ghost declared = strings(out@);
    match join_url(final_url, "/favicon.ico") {
        Some(address) => {
            out.push(address);
            assert(strings(out@) =~= declared + seq![address@]);
        },
        None => {
            assert(strings(out@) =~= declared + Seq::<Seq<char>>::empty());
        },
    }
    out
}

/// An icon as a `data:` URL, so it survives being offline; `None` for an empty
/// answer or one too large to be an icon.
pub open spec fn icon_data_url(mime: Seq<char>, bytes: Seq<u8>) -> Option<Seq<char>> {
    if bytes.len() == 0 || bytes.len() > ICON_LIMIT {
        None
    } else {
        Some("data:"@ + mime + ";base64,"@ + base64_of(bytes))
    }
}

pub fn accept_icon(mime: &str, bytes: &[u8]) -> (r: Option<String>)
    ensures
        match r {
            Some(s) => icon_data_url(mime@, bytes@) == Some(s@),
            None => icon_data_url(mime@, bytes@) is None,
        },
{
    if bytes.len() == 0 || bytes.len() > ICON_LIMIT {
        return None;
    }
    let encoded = base64_encode(bytes);
    let mut out: Vec<char> = Vec::new();
    append_str(&mut out, "data:");
    append_str(&mut out, mime);
    append_str(&mut out, ";base64,");
    append_str(&mut out, encoded.as_str());
    Some(string_of(&out))
}

/// A copy of a remembered preview, field for field.
fn copy_preview(p: &LinkPreview) -> (c: LinkPreview)
    ensures
        c == *p,
{
    let title = match &p.title {
        Some(t) => Some(t.clone()),
        None => None,
    };
    let icon = match &p.icon {
        Some(i) => Some(i.clone()),
        None => None,
    };
    LinkPreview { url: p.url.clone(), title, icon, ok: p.ok, fetched_at: p.fetched_at }
}

/// The answer the cache gives without asking the network: what it remembers,
/// while that is still fresh.
pub open spec fn fresh_answer(known: Option<LinkPreview>, now: i64) -> Option<LinkPreview> {
    match known {
        Some(k) => if still_fresh(k, now) {
            Some(k)
        } else {
            None
        },
        None => None,
    }
}

pub fn cached_answer(known: &Option<LinkPreview>, now: i64) -> (r: Option<LinkPreview>)
    ensures
        r == fresh_answer(*known, now),
{
    match known {
        Some(k) => if is_fresh(k, now) {
            Some(copy_preview(k))
        } else {
            None
        },
        None => None,
    }
}

/// The title a page gives, as the preview holds it.
pub open spec fn title_view(title: Option<String>) -> Option<Seq<char>> {
    match title {
        Some(t) => Some(t@),
        None => None,
    }
}

/// The preview of a page that was read: its title, the icon found for it,
/// and the moment it was read.
pub fn preview_of_page(url: String, page: &FetchedPage, icon: Option<String>, now: i64) -> (p: LinkPreview)
    ensures
        p.url == url,
        title_view(p.title) == page_title(page.html@),
        p.icon == icon,
        p.ok,
        p.fetched_at == now,
{
    let title = title_of(page.html.as_str());
    LinkPreview { url, title, icon, ok: true, fetched_at: now }
}

/// What one answer to an icon request leaves: the icon as a data URL when
/// the network answered with one worth keeping, else nothing.
pub open spec fn kept_icon(answer: AppResult<FetchedIcon>) -> Option<Seq<char>> {
    match answer {
        Ok(icon) => icon_data_url(icon.mime@, icon.bytes@),
        Err(_) => None,
    }
}

pub fn keep_icon(answer: AppResult<FetchedIcon>) -> (r: Option<String>)
    ensures
        match r {
            Some(s) => kept_icon(answer) == Some(s@),
            None => kept_icon(answer) is None,
        },
{
    match answer {
        Ok(icon) => accept_icon(icon.mime.as_str(), icon.bytes.as_slice()),
        Err(_) => None,
    }
}

/// Link previews: the cache is asked first, and the network only when what
/// the cache knows has gone stale.
pub struct LinkUseCases<P: LinkPreviewRepository + ?Sized, R: LinkReader + ?Sized, C: Clock + ?Sized> {
    previews: Arc<P>,
    reader: Arc<R>,
    clock: Arc<C>,
}

impl<P: LinkPreviewRepository + ?Sized, R: LinkReader + ?Sized, C: Clock + ?Sized> LinkUseCases<P, R, C> {
    /// The cache, the network and the clock it was given.
    pub closed spec fn parts(&self) -> (Arc<P>, Arc<R>, Arc<C>) {
        (self.previews, self.reader, self.clock)
    }

    pub fn new(previews: Arc<P>, reader: Arc<R>, clock: Arc<C>) -> (u: LinkUseCases<P, R, C>)
        ensures
            u.parts() == (previews, reader, clock),
    {
        LinkUseCases { previews, reader, clock }
    }

    /// What is known about an address, reading it if what is known is old.
    ///
    /// `None` means the address is not one the app fetches at all; any other
    /// address is answered with a preview, or with storage's error. A site
    /// that cannot be reached is an answer rather than an error: a preview
    /// with nothing in it, remembered for a few hours.
    ///
    /// # Errors
    /// What storage answered when it was read or written.
    pub fn preview(&self, raw: &str) -> (r: AppResult<Option<LinkPreview>>)
        ensures
            normal_address(raw@) is None <==> r == Ok::<Option<LinkPreview>, crate::error::AppError>(None),
    {
        let url = match normalise(raw) {
            Some(url) => url,
            None => {
                return Ok(None);
            },
        };
        let now = self.clock.now().as_millis();

        let known = self.previews.read(url.as_str())?;
        match cached_answer(&known, now) {
            Some(answer) => {
                return Ok(Some(answer));
            },
            None => {},
        }

        let read = self.read(url, now);
        let fresh = keep_after_read(read, known, now);
        self.previews.write(&fresh)?;
        Ok(Some(fresh))
    }

    /// Forgets every page.
    ///
    /// # Errors
    /// What storage answered.
    pub fn forget_all(&self) -> (r: AppResult<()>) {
        self.previews.clear()
    }

    /// One trip to the network. Whatever went wrong, the answer is a preview:
    /// nothing about the page when it could not be read, else its title and
    /// the first icon worth keeping.
    fn read(&self, url: String, now: i64) -> (p: LinkPreview)
        ensures
            p.url == url,
            p.fetched_at == now,
            !p.ok ==> p.title is None && p.icon is None,
    {
        let page = match self.reader.page(url.as_str()) {
            Ok(page) => page,
            Err(_) => {
                return LinkPreview::unreachable(url, now);
            },
        };
        let icon = self.read_icon(&page);
        preview_of_page(url, &page, icon, now)
    }

    /// The icon the page declares, or the one at `/favicon.ico`, as a data
    /// URL: the first of the two the network answers with an icon worth
    /// keeping.
    fn read_icon(&self, page: &FetchedPage) -> (r: Option<String>)
        ensures
            r matches Some(s) ==> exists|answer: AppResult<FetchedIcon>| kept_icon(answer) == Some(s@),
    {
        let candidates = icon_candidates(page.final_url.as_str(), page.html.as_str());
        let mut i: usize = 0;
        while i < candidates.len()
            invariant
                i <= candidates@.len(),
            decreases candidates@.len() - i,
        {
            let answer = self.reader.icon(candidates[i].as_str());
            let ghost seen = answer;
            match keep_icon(answer) {
                Some(data) => {
                    assert(kept_icon(seen) == Some(data@));
                    return Some(data);
                },
                None => {},
            }
            i = i + 1;
        }
        None
    }
}

} // verus!
