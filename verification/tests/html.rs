use keeps_core::domain::links::html::{icon_href_of, title_of, TITLE_LIMIT};

#[test]
fn the_open_graph_title_is_preferred_over_the_document_one() {
    let html = r#"<head><meta property="og:title" content="WorkOS — Your app, Enterprise Ready.">
                  <title>WorkOS | Enterprise SSO, SCIM, Audit Logs</title></head>"#;
    assert_eq!(
        title_of(html).as_deref(),
        Some("WorkOS — Your app, Enterprise Ready.")
    );
}

#[test]
fn a_page_without_open_graph_falls_back_to_the_title_tag() {
    let html = "<HTML><HEAD><TITLE>Clerk | Authentication and User Management</TITLE>";
    assert_eq!(
        title_of(html).as_deref(),
        Some("Clerk | Authentication and User Management")
    );
}

#[test]
fn a_title_laid_out_over_several_lines_becomes_one() {
    let html = "<title>\n  Длинный\n  заголовок\n</title>";
    assert_eq!(title_of(html).as_deref(), Some("Длинный заголовок"));
}

#[test]
fn entities_are_read_as_the_characters_they_stand_for() {
    let html = "<title>Tom &amp; Jerry &#8212; &#x41;&nbsp;list</title>";
    assert_eq!(title_of(html).as_deref(), Some("Tom & Jerry — A list"));
}

#[test]
fn an_unknown_entity_is_left_as_written() {
    let html = "<title>a &zwnj; b</title>";
    assert_eq!(title_of(html).as_deref(), Some("a &zwnj; b"));
}

#[test]
fn a_page_with_no_title_at_all_has_none() {
    assert_eq!(title_of("<head><meta charset=\"utf-8\"></head>"), None);
    assert_eq!(title_of("<title>   </title>"), None);
}

#[test]
fn a_very_long_title_is_cut_rather_than_stored_whole() {
    let html = format!("<title>{}</title>", "я".repeat(400));
    let title = title_of(&html).expect("has a title");
    assert_eq!(title.chars().count(), TITLE_LIMIT);
    assert!(title.ends_with('…'));
}

#[test]
fn the_largest_declared_icon_under_the_cap_wins() {
    let html = r#"
        <link rel="icon" sizes="16x16" href="/small.png">
        <link rel="icon" sizes="32x32" href="/right.png">
        <link rel="icon" sizes="512x512" href="/huge.png">
    "#;
    assert_eq!(icon_href_of(html).as_deref(), Some("/right.png"));
}

#[test]
fn a_vector_icon_beats_every_bitmap() {
    let html = r#"<link rel="icon" sizes="32x32" href="/a.png">
                  <link rel=icon href=/b.svg type=image/svg+xml>"#;
    assert_eq!(icon_href_of(html).as_deref(), Some("/b.svg"));
}

#[test]
fn a_stylesheet_link_is_not_an_icon() {
    let html = r#"<link rel="stylesheet" href="/app.css">
                  <link rel="preconnect" href="https://cdn.example">"#;
    assert_eq!(icon_href_of(html), None);
}

#[test]
fn a_tag_or_attribute_that_merely_starts_the_same_is_not_matched() {
    assert_eq!(icon_href_of("<linkedin rel=icon href=/no.png>"), None);
    assert_eq!(
        icon_href_of(r#"<link data-rel="icon" href="/no.png">"#),
        None
    );
}

#[test]
fn an_entity_too_long_to_be_one_is_left_alone() {
    assert_eq!(
        title_of("<title>a &verylongentity; b</title>").as_deref(),
        Some("a &verylongentity; b")
    );
    assert_eq!(title_of("<title>&#1048;&#X44F;</title>").as_deref(), Some("Ия"));
}

#[test]
fn a_later_icon_of_the_same_rank_wins_and_a_blank_href_is_none() {
    let html = r#"<link rel="icon" href="/first.png"><link rel="shortcut icon" href="/second.png">"#;
    assert_eq!(icon_href_of(html).as_deref(), Some("/second.png"));
    assert_eq!(icon_href_of(r#"<link rel="icon" href="  ">"#), None);
}
