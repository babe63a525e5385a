use keeps_core::domain::search::build_match_expression;

#[test]
fn a_single_word_becomes_a_prefix_match() {
    assert_eq!(build_match_expression("мол").as_deref(), Some("\"мол\"*"));
}

#[test]
fn several_words_are_all_required() {
    assert_eq!(
        build_match_expression("молоко хлеб").as_deref(),
        Some("\"молоко\" AND \"хлеб\"*")
    );
}

#[test]
fn surrounding_whitespace_is_ignored() {
    assert_eq!(
        build_match_expression("   молоко   ").as_deref(),
        Some("\"молоко\"*")
    );
}

#[test]
fn empty_input_matches_nothing_rather_than_everything() {
    assert_eq!(build_match_expression(""), None);
    assert_eq!(build_match_expression("    "), None);
}

#[test]
fn punctuation_only_input_matches_nothing() {
    assert_eq!(build_match_expression("???"), None);
    assert_eq!(build_match_expression("- * ^"), None);
}

#[test]
fn fts5_operators_are_neutralised() {
    let expression = build_match_expression("NOT молоко").expect("has terms");
    assert_eq!(expression, "\"NOT\" AND \"молоко\"*");
}

#[test]
fn a_stray_quote_cannot_break_the_expression() {
    let expression = build_match_expression("хлеб\"").expect("has terms");
    assert_eq!(expression, "\"хлеб\"*");
}

#[test]
fn an_explicit_phrase_is_kept_whole() {
    assert_eq!(
        build_match_expression("\"молоко и хлеб\"").as_deref(),
        Some("\"молоко и хлеб\"")
    );
}

#[test]
fn an_empty_phrase_is_not_treated_as_a_phrase() {
    assert_eq!(build_match_expression("\"\""), None);
}

#[test]
fn digits_and_underscores_survive() {
    assert_eq!(
        build_match_expression("отчёт_2026").as_deref(),
        Some("\"отчёт_2026\"*")
    );
}

#[test]
fn quotes_inside_a_phrase_are_doubled() {
    assert_eq!(
        build_match_expression("\"say \"hi\" now\"").as_deref(),
        Some("\"say \"\"hi\"\" now\"")
    );
}
