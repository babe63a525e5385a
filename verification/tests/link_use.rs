use std::sync::atomic::{AtomicUsize, Ordering};
use std::sync::{Arc, Mutex};

use keeps_core::application::links::{LinkUseCases, FRESH_MILLIS, ICON_LIMIT};
use keeps_core::domain::clock::{FixedClock, Timestamp};
use keeps_core::domain::links::{FetchedIcon, FetchedPage, LinkPreview, LinkPreviewRepository, LinkReader};
use keeps_core::error::{AppError, AppResult, PlatformError};

/// A network that answers from a script, and counts how often it was asked.
struct FakeReader {
    html: Option<&'static str>,
    icon: Option<&'static [u8]>,
    pages: AtomicUsize,
    icons: AtomicUsize,
}

impl FakeReader {
    fn new(html: Option<&'static str>, icon: Option<&'static [u8]>) -> Arc<Self> {
        Arc::new(Self {
            html,
            icon,
            pages: AtomicUsize::new(0),
            icons: AtomicUsize::new(0),
        })
    }
}

fn offline() -> AppError {
    AppError::Platform(PlatformError::PluginCall {
        reason: "no network".to_owned(),
    })
}

impl LinkReader for FakeReader {
    fn page(&self, url: &str) -> AppResult<FetchedPage> {
        self.pages.fetch_add(1, Ordering::Relaxed);
        self.html.map_or_else(
            || Err(offline()),
            |html| {
                Ok(FetchedPage {
                    final_url: url.to_owned(),
                    html: html.to_owned(),
                })
            },
        )
    }

    fn icon(&self, _url: &str) -> AppResult<FetchedIcon> {
        self.icons.fetch_add(1, Ordering::Relaxed);
        self.icon.map_or_else(
            || Err(offline()),
            |bytes| {
                Ok(FetchedIcon {
                    mime: "image/png".to_owned(),
                    bytes: bytes.to_vec(),
                })
            },
        )
    }
}

/// The cache, kept in memory: one row per address.
#[derive(Default)]
struct MemoryPreviews {
    rows: Mutex<Vec<LinkPreview>>,
}

impl LinkPreviewRepository for MemoryPreviews {
    fn read(&self, url: &str) -> AppResult<Option<LinkPreview>> {
        Ok(self.rows.lock().unwrap().iter().find(|row| row.url == url).cloned())
    }

    fn write(&self, preview: &LinkPreview) -> AppResult<()> {
        let mut rows = self.rows.lock().unwrap();
        rows.retain(|row| row.url != preview.url);
        rows.push(preview.clone());
        Ok(())
    }

    fn clear(&self) -> AppResult<()> {
        self.rows.lock().unwrap().clear();
        Ok(())
    }
}

type Links = LinkUseCases<MemoryPreviews, FakeReader, FixedClock>;

fn use_cases(reader: Arc<FakeReader>, at: i64) -> Links {
    LinkUseCases::new(
        Arc::new(MemoryPreviews::default()),
        reader,
        Arc::new(FixedClock::new(Timestamp::from_millis(at))),
    )
}

const PAGE: &str = r#"<head><title>WorkOS — Your app, Enterprise Ready.</title>
                      <link rel="icon" href="/icon.png"></head>"#;

#[test]
fn a_page_gives_up_its_title_and_its_icon() {
    let links = use_cases(FakeReader::new(Some(PAGE), Some(b"png-bytes")), 1_000);

    let preview = links
        .preview("https://workos.com/pricing")
        .expect("no database error")
        .expect("an http address is fetched");

    assert_eq!(
        preview.title.as_deref(),
        Some("WorkOS — Your app, Enterprise Ready.")
    );
    assert_eq!(
        preview.icon.as_deref(),
        Some("data:image/png;base64,cG5nLWJ5dGVz")
    );
    assert!(preview.ok);
}

/// The whole point of the cache: a note full of links, opened twice, must
/// not be a second trip to every one of those sites.
#[test]
fn a_second_look_at_the_same_address_asks_nobody() {
    let reader = FakeReader::new(Some(PAGE), Some(b"png-bytes"));
    let links = use_cases(Arc::clone(&reader), 1_000);

    links.preview("https://workos.com/").expect("reads");
    links.preview("https://workos.com/").expect("reads again");

    assert_eq!(reader.pages.load(Ordering::Relaxed), 1);
}

/// The fragment is which part of a page you were looking at, not which page
/// it is, so both links share one row and one request.
#[test]
fn two_links_differing_only_by_fragment_are_one_page() {
    let reader = FakeReader::new(Some(PAGE), Some(b"png-bytes"));
    let links = use_cases(Arc::clone(&reader), 1_000);

    links.preview("https://workos.com/docs#sso").expect("reads");
    links.preview("https://workos.com/docs#scim").expect("reads");

    assert_eq!(reader.pages.load(Ordering::Relaxed), 1);
}

#[test]
fn a_site_that_cannot_be_reached_is_an_empty_preview_rather_than_an_error() {
    let links = use_cases(FakeReader::new(None, None), 1_000);

    let preview = links
        .preview("https://offline.example/")
        .expect("not a database error")
        .expect("still an http address");

    assert!(!preview.ok);
    assert!(preview.is_empty());
}

/// A title with no icon beside it is most of the value, and must not be
/// thrown away because the icon 404s.
#[test]
fn a_page_whose_icon_is_missing_keeps_its_title() {
    let links = use_cases(FakeReader::new(Some(PAGE), None), 1_000);

    let preview = links
        .preview("https://workos.com/")
        .expect("reads")
        .expect("fetched");

    assert!(preview.title.is_some());
    assert_eq!(preview.icon, None);
    assert!(preview.ok, "the page itself was read");
}

/// A site that declares no icon still usually has one at the old path.
#[test]
fn a_page_that_declares_no_icon_falls_back_to_the_well_known_path() {
    let reader = FakeReader::new(Some("<title>Plain</title>"), Some(b"ico"));
    let links = use_cases(Arc::clone(&reader), 1_000);

    let preview = links
        .preview("https://plain.example/deep/page")
        .expect("reads")
        .expect("fetched");

    assert!(preview.icon.is_some());
    assert_eq!(reader.icons.load(Ordering::Relaxed), 1);
}

#[test]
fn an_icon_too_large_to_be_an_icon_is_left_alone() {
    const HUGE: &[u8] = &[0; ICON_LIMIT + 1];
    let links = use_cases(FakeReader::new(Some(PAGE), Some(HUGE)), 1_000);

    let preview = links
        .preview("https://workos.com/")
        .expect("reads")
        .expect("fetched");

    assert_eq!(preview.icon, None);
}

/// Addresses the app has no business fetching are answered without a trip.
#[test]
fn only_http_addresses_are_ever_fetched() {
    let reader = FakeReader::new(Some(PAGE), Some(b"png"));
    let links = use_cases(Arc::clone(&reader), 1_000);

    for address in [
        "mailto:someone@example.com",
        "tel:+79990000000",
        "file:///etc/passwd",
        "javascript:alert(1)",
        "not an address at all",
    ] {
        assert_eq!(links.preview(address).expect("no error"), None, "{address}");
    }
    assert_eq!(reader.pages.load(Ordering::Relaxed), 0);
}

/// Going through a tunnel is not a reason to forget what a link was called.
#[test]
fn a_title_already_known_survives_a_failed_re_read() {
    let previews = Arc::new(MemoryPreviews::default());

    let online = LinkUseCases::new(
        Arc::clone(&previews),
        FakeReader::new(Some(PAGE), Some(b"png")),
        Arc::new(FixedClock::new(Timestamp::from_millis(1_000))),
    );
    online.preview("https://workos.com/").expect("reads");

    // A month later, with the network gone.
    let offline = LinkUseCases::new(
        previews,
        FakeReader::new(None, None),
        Arc::new(FixedClock::new(Timestamp::from_millis(1_000 + FRESH_MILLIS + 1))),
    );
    let preview = offline
        .preview("https://workos.com/")
        .expect("reads")
        .expect("fetched");

    assert_eq!(
        preview.title.as_deref(),
        Some("WorkOS — Your app, Enterprise Ready.")
    );
    assert!(!preview.ok, "but it is known to be stale");
}

#[test]
fn forgetting_empties_the_cache() {
    let reader = FakeReader::new(Some(PAGE), Some(b"png"));
    let links = use_cases(Arc::clone(&reader), 1_000);

    links.preview("https://workos.com/").expect("reads");
    links.forget_all().expect("forgets");
    links.preview("https://workos.com/").expect("reads again");

    assert_eq!(reader.pages.load(Ordering::Relaxed), 2);
}
