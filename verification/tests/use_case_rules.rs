use keeps_core::application::links::{
    accept_icon, cached_answer, is_fresh, keep_after_read, keep_icon, normalise, preview_of_page,
    FRESH_MILLIS, ICON_LIMIT, RETRY_MILLIS,
};
use keeps_core::domain::links::{FetchedIcon, FetchedPage};
use keeps_core::error::{AppError, PlatformError};
use keeps_core::application::organisation::parse_tag_ids;
use keeps_core::application::dto::{ListNotesRequest, SearchRequest, UpsertReminderRequest};
use keeps_core::application::use_cases::{
    after_asking, catalog_for, check_reminder_request, default_page, recent_limit, reminder_draft,
    rollback_after_failed_save,
};
use keeps_core::domain::ids::{NoteId, ReminderId, ReminderOccurrenceId};
use keeps_core::domain::reminders::{Reminder, ReminderOccurrence, ScheduledReminder};
use keeps_core::domain::clock::Timestamp;
use keeps_core::domain::links::LinkPreview;

const NOTE: &str = "0193b3b2-4d3c-7c9a-8f2e-1a2b3c4d5e6f";

#[test]
fn normalising_drops_the_fragment_and_the_spaces() {
    assert_eq!(
        normalise("https://example.com/page#top"),
        normalise(" https://example.com/page#bottom ")
    );
    assert_eq!(normalise("https://example.com/page#top").as_deref(), Some("https://example.com/page"));
}

#[test]
fn normalising_refuses_what_is_not_http() {
    assert_eq!(normalise("mailto:someone@example.com"), None);
    assert_eq!(normalise("tel:+123"), None);
    assert_eq!(normalise("not an address"), None);
    assert!(normalise("http://example.com").is_some());
}

#[test]
fn a_good_answer_is_trusted_for_a_month_and_a_failure_for_hours() {
    let good = LinkPreview {
        url: "https://example.com/".into(),
        title: Some("Example".into()),
        icon: None,
        ok: true,
        fetched_at: 0,
    };
    assert!(is_fresh(&good, FRESH_MILLIS - 1));
    assert!(!is_fresh(&good, FRESH_MILLIS));
    let failed = LinkPreview::unreachable("https://example.com/".into(), 0);
    assert!(is_fresh(&failed, RETRY_MILLIS - 1));
    assert!(!is_fresh(&failed, RETRY_MILLIS));
}

#[test]
fn losing_signal_keeps_the_title_that_was_known() {
    let old = LinkPreview {
        url: "https://example.com/".into(),
        title: Some("Example".into()),
        icon: None,
        ok: true,
        fetched_at: 0,
    };
    let failed = LinkPreview::unreachable("https://example.com/".into(), 50);
    let kept = keep_after_read(failed, Some(old), 50);
    assert_eq!(kept.title.as_deref(), Some("Example"));
    assert!(!kept.ok);
    assert_eq!(kept.fetched_at, 50);
}

#[test]
fn an_icon_is_kept_as_a_data_url_unless_it_is_a_picture() {
    assert_eq!(accept_icon("image/png", b"abc").as_deref(), Some("data:image/png;base64,YWJj"));
    assert_eq!(accept_icon("image/png", b""), None);
    assert_eq!(accept_icon("image/png", &vec![0_u8; ICON_LIMIT + 1]), None);
}

#[test]
fn a_malformed_tag_id_anywhere_in_a_set_refuses_the_set() {
    let ids = vec![NOTE.to_owned(), "nope".to_owned()];
    let error = parse_tag_ids(&ids).expect_err("refused");
    assert_eq!(error.code(), "validation_invalid");
    assert_eq!(parse_tag_ids(&[NOTE.to_owned()]).expect("parses").len(), 1);
}

#[test]
fn a_reminder_request_is_checked_in_order_before_storage() {
    let now = Timestamp::from_millis(10_000);
    let error = check_reminder_request(NOTE, 10_000, "Проверить", "", "Asia/Almaty", now)
        .expect_err("in the past");
    assert_eq!(error.code(), "validation_time_in_past");
    let error = check_reminder_request("nope", 20_000, "Проверить", "", "Asia/Almaty", now)
        .expect_err("a malformed identifier never reaches the database");
    assert_eq!(error.code(), "validation_invalid");
    let error = check_reminder_request(NOTE, 20_000, "   ", "", "Asia/Almaty", now)
        .expect_err("no title");
    assert_eq!(error.code(), "validation_required");
    let error = check_reminder_request(NOTE, 20_000, "x", "", "Mars/Olympus", now)
        .expect_err("unknown zone");
    assert_eq!(error.code(), "validation_unknown_timezone");
    let checked = check_reminder_request(NOTE, 20_000, "  Проверить ", "", "Asia/Almaty", now)
        .expect("valid");
    assert_eq!(checked.title, "Проверить");
    assert_eq!(checked.note_id.to_string(), NOTE);
}

#[test]
fn a_refused_permission_is_the_notifications_denied_error() {
    assert_eq!(after_asking(false).expect_err("denied").code(), "notification_permission_denied");
    assert!(after_asking(true).is_ok());
}

#[test]
fn the_default_page_is_fifty_rows_from_the_start() {
    let page = default_page();
    assert_eq!((page.limit, page.offset), (50, 0));
}

fn scheduled(code: i32) -> ScheduledReminder {
    let reminder_id = ReminderId::new();
    ScheduledReminder {
        reminder: Reminder {
            id: reminder_id,
            note_id: NoteId::new(),
            title: "Проверить".into(),
            body: String::new(),
            scheduled_at: Timestamp::from_millis(2_000),
            timezone: "Asia/Almaty".into(),
            sound: "default".into(),
            recurrence: None,
            snooze_minutes: 60,
            is_enabled: true,
        },
        occurrence: ReminderOccurrence {
            id: ReminderOccurrenceId::new(),
            reminder_id,
            occurrence_at: Timestamp::from_millis(2_000),
            alarm_request_code: code,
            is_exact: true,
        },
    }
}

#[test]
fn a_refused_save_takes_the_new_alarm_back_and_rearms_the_old_one() {
    let old = scheduled(3);
    let plan = rollback_after_failed_save(Some((Some(old.clone()), scheduled(9))));
    assert_eq!(plan.cancel, Some(9));
    assert_eq!(plan.rearm, Some(old));

    let plan = rollback_after_failed_save(Some((None, scheduled(9))));
    assert_eq!(plan.cancel, Some(9));
    assert_eq!(plan.rearm, None);

    let plan = rollback_after_failed_save(None);
    assert_eq!(plan.cancel, None);
    assert_eq!(plan.rearm, None);
}

#[test]
fn the_cache_answers_only_while_what_it_knows_is_fresh() {
    let known = Some(LinkPreview {
        url: "https://example.com/".into(),
        title: Some("Example".into()),
        icon: None,
        ok: true,
        fetched_at: 0,
    });
    assert_eq!(cached_answer(&known, FRESH_MILLIS - 1), known);
    assert_eq!(cached_answer(&known, FRESH_MILLIS), None);
    assert_eq!(cached_answer(&None, 0), None);
}

#[test]
fn a_page_read_becomes_a_preview_with_its_title() {
    let page = FetchedPage {
        final_url: "https://example.com/".into(),
        html: "<title>Example &amp; Co</title>".into(),
    };
    let preview = preview_of_page("https://example.com/".into(), &page, Some("data:x".into()), 42);
    assert_eq!(preview.title.as_deref(), Some("Example & Co"));
    assert_eq!(preview.icon.as_deref(), Some("data:x"));
    assert!(preview.ok);
    assert_eq!(preview.fetched_at, 42);
}

#[test]
fn an_icon_answer_is_kept_only_when_it_is_an_icon() {
    let answer = |bytes: &[u8]| {
        Ok(FetchedIcon {
            mime: "image/png".into(),
            bytes: bytes.to_vec(),
        })
    };
    assert_eq!(keep_icon(answer(b"abc")).as_deref(), Some("data:image/png;base64,YWJj"));
    assert_eq!(keep_icon(answer(b"")), None);
    assert_eq!(
        keep_icon(Err(AppError::Platform(PlatformError::PluginCall { reason: "offline".into() }))),
        None
    );
}

fn request(recurrence: Option<&str>) -> UpsertReminderRequest {
    UpsertReminderRequest {
        note_id: NOTE.into(),
        title: "  Проверить ".into(),
        body: "Текст".into(),
        scheduled_at: 2_000,
        timezone: "Asia/Almaty".into(),
        sound: "default".into(),
        recurrence: recurrence.map(str::to_owned),
    }
}

#[test]
fn a_checked_request_becomes_the_draft_storage_is_handed() {
    let now = Timestamp::from_millis(1_000);
    let once = request(None);
    let checked = check_reminder_request(NOTE, 2_000, &once.title, &once.body, &once.timezone, now)
        .expect("valid");
    let draft = reminder_draft(checked, &once, now).expect("placed");
    assert!(draft.reminder_id.is_none());
    assert_eq!(draft.note_id.to_string(), NOTE);
    assert_eq!(draft.title, "Проверить");
    assert_eq!(draft.body, "Текст");
    assert_eq!(draft.sound, "default");
    assert_eq!(draft.occurrences, vec![Timestamp::from_millis(2_000)]);

    let daily = request(Some("FREQ=DAILY"));
    let checked = check_reminder_request(NOTE, 2_000, &daily.title, &daily.body, &daily.timezone, now)
        .expect("valid");
    let draft = reminder_draft(checked, &daily, now).expect("placed");
    assert_eq!(draft.occurrences.len(), 4);
    assert_eq!(draft.occurrences[1].as_millis(), 2_000 + 86_400_000);

    let odd = request(Some("FREQ=SECONDLY"));
    let checked = check_reminder_request(NOTE, 2_000, &odd.title, &odd.body, &odd.timezone, now)
        .expect("valid");
    let error = reminder_draft(checked, &odd, now).expect_err("unknown rule");
    assert_eq!(error.code(), "reminder_invalid_recurrence");
}

#[test]
fn the_catalog_default_is_the_configured_sound_resolved() {
    assert_eq!(catalog_for(None).expect("bundled").default_sound_id, "death_and_rebirth");
    assert_eq!(
        catalog_for(Some("system:content://ring")).expect("device").default_sound_id,
        "system:content://ring"
    );
    assert_eq!(catalog_for(Some("trumpet")).expect_err("not shipped").code(), "validation_invalid");
}

#[test]
fn recent_queries_default_to_ten() {
    assert_eq!(recent_limit(None), 10);
    assert_eq!(recent_limit(Some(3)), 3);
}

#[test]
fn a_list_or_search_request_carries_the_folder_and_tag_it_names() {
    let folder = "0193b3b2-4d3c-7c9a-8f2e-1a2b3c4d5e70";
    let filter = ListNotesRequest {
        folder_id: Some(folder.into()),
        tag_id: Some(NOTE.into()),
        ..ListNotesRequest::default()
    }
    .to_filter()
    .expect("parses");
    assert_eq!(filter.folder_id.map(|id| id.to_string()).as_deref(), Some(folder));
    assert_eq!(filter.tag_id.map(|id| id.to_string()).as_deref(), Some(NOTE));
    let query = SearchRequest {
        text: "молоко".into(),
        folder_id: Some(folder.into()),
        ..SearchRequest::default()
    }
    .to_query()
    .expect("parses");
    assert_eq!(query.folder_id.map(|id| id.to_string()).as_deref(), Some(folder));
    assert!(query.tag_id.is_none());
}
