use chrono::TimeZone;
use keeps_core::domain::clock::{parse_zone, Timestamp, Zone};
use keeps_core::domain::quick_notes::phrase::{parse_phrase, ParsedPhrase, MAX_SPOKEN_TITLE_LEN};
use keeps_core::domain::reminders::time_presets::TimePreset;

fn at_local(zone: chrono_tz::Tz, year: i32, month: u32, day: u32, hour: u32, minute: u32) -> Timestamp {
    let instant = zone
        .with_ymd_and_hms(year, month, day, hour, minute, 0)
        .single()
        .expect("the test instant must be unambiguous in this zone");
    Timestamp::from_millis(instant.timestamp_millis())
}

fn reading(instant: Timestamp, zone: chrono_tz::Tz) -> String {
    chrono::DateTime::from_timestamp_millis(instant.as_millis())
        .expect("representable")
        .with_timezone(&zone)
        .format("%Y-%m-%d %H:%M")
        .to_string()
}

fn moscow() -> Zone {
    parse_zone("Europe/Moscow").expect("known zone")
}

/// Monday, 10 August 2026, 12:00 in Moscow.
fn noon() -> Timestamp {
    at_local(chrono_tz::Europe::Moscow, 2026, 8, 10, 12, 0)
}

fn fallback() -> TimePreset {
    TimePreset::parse("19:00").expect("parses")
}

fn parse(text: &str) -> ParsedPhrase {
    parse_phrase(text, noon(), &moscow(), fallback()).expect("parses")
}

fn local(phrase: &ParsedPhrase) -> String {
    reading(phrase.named_at.expect("a time was named"), chrono_tz::Europe::Moscow)
}

#[test]
fn the_phrase_from_the_product_brief_becomes_a_title_and_a_time() {
    let phrase = parse("встреча. 15:00");
    assert_eq!(phrase.title, "Встреча");
    assert_eq!(local(&phrase), "2026-08-10 15:00");
    assert!(phrase.named_clock_time);
}

#[test]
fn a_preposition_belongs_to_the_time_rather_than_the_title() {
    let phrase = parse("созвон с Ирой в 16:30");
    assert_eq!(phrase.title, "Созвон с Ирой");
    assert_eq!(local(&phrase), "2026-08-10 16:30");
}

#[test]
fn a_time_the_recogniser_wrote_with_a_dot_is_still_a_time() {
    assert_eq!(local(&parse("встреча 15.30")), "2026-08-10 15:30");
}

#[test]
fn a_bare_hour_counts_behind_a_preposition() {
    let phrase = parse("позвонить в 17");
    assert_eq!(phrase.title, "Позвонить");
    assert_eq!(local(&phrase), "2026-08-10 17:00");
}

#[test]
fn a_bare_pair_of_numbers_counts_at_the_end_of_the_phrase() {
    assert_eq!(local(&parse("встреча 15 30")), "2026-08-10 15:30");
}

#[test]
fn numbers_in_the_middle_of_a_phrase_are_not_a_time() {
    let phrase = parse("купить 15 яблок");
    assert_eq!(phrase.title, "Купить 15 яблок");
    assert_eq!(phrase.named_at, None);
}

#[test]
fn the_part_of_day_moves_the_hour() {
    assert_eq!(local(&parse("встреча в 9 вечера")), "2026-08-10 21:00");
    assert_eq!(local(&parse("зарядка в 7 утра")), "2026-08-11 07:00");
}

#[test]
fn an_hour_that_has_already_passed_today_means_tomorrow() {
    let phrase = parse("встреча в 9:00");
    assert_eq!(local(&phrase), "2026-08-11 09:00");
}

#[test]
fn a_day_that_was_named_is_left_where_it_was_put() {
    // Said at noon, so the instant is behind us. The caller reports that
    // back rather than the parser quietly moving it to another day.
    let phrase = parse("сегодня в 9:00");
    assert_eq!(local(&phrase), "2026-08-10 09:00");
}

#[test]
fn tomorrow_is_a_day_and_the_hour_is_still_the_one_that_was_said() {
    let phrase = parse("завтра встреча в 10:00");
    assert_eq!(phrase.title, "Встреча");
    assert_eq!(local(&phrase), "2026-08-11 10:00");
}

#[test]
fn a_day_with_no_hour_lands_on_the_fallback_time() {
    let phrase = parse("послезавтра забрать посылку");
    assert_eq!(phrase.title, "Забрать посылку");
    assert_eq!(local(&phrase), "2026-08-12 19:00");
    assert!(
        !phrase.named_clock_time,
        "no clock time was said, so nothing should be subtracted from it"
    );
}

#[test]
fn a_weekday_resolves_to_the_coming_one() {
    // The fixture is a Monday.
    assert_eq!(
        local(&parse("в пятницу зубной в 11:00")),
        "2026-08-14 11:00"
    );
    assert_eq!(local(&parse("в среду отчёт")), "2026-08-12 19:00");
}

#[test]
fn today_as_a_weekday_counts_only_while_its_hour_is_ahead() {
    assert_eq!(local(&parse("в понедельник в 18:00")), "2026-08-10 18:00");
    assert_eq!(local(&parse("в понедельник в 09:00")), "2026-08-17 09:00");
}

#[test]
fn a_distance_from_now_is_measured_from_now() {
    assert_eq!(
        local(&parse("через 20 минут позвонить")),
        "2026-08-10 12:20"
    );
    assert_eq!(local(&parse("через час выйти")), "2026-08-10 13:00");
    assert_eq!(local(&parse("через 2 часа выйти")), "2026-08-10 14:00");
    assert_eq!(local(&parse("через полчаса чай")), "2026-08-10 12:30");
}

#[test]
fn english_reads_the_same_way() {
    assert_eq!(local(&parse("meeting at 15:00")), "2026-08-10 15:00");
    assert_eq!(
        local(&parse("call mum tomorrow at 9 pm")),
        "2026-08-11 21:00"
    );
    assert_eq!(
        local(&parse("in an hour take the cake out")),
        "2026-08-10 13:00"
    );
    assert_eq!(parse("meeting at 15:00").title, "Meeting");
}

#[test]
fn a_phrase_with_no_time_in_it_is_still_a_phrase() {
    let phrase = parse("купить молоко");
    assert_eq!(phrase.title, "Купить молоко");
    assert_eq!(phrase.named_at, None);
    assert!(!phrase.named_clock_time);
}

#[test]
fn a_phrase_that_was_nothing_but_a_time_keeps_it_as_the_title() {
    let phrase = parse("15:00");
    assert_eq!(phrase.title, "15:00");
    assert_eq!(local(&phrase), "2026-08-10 15:00");
}

#[test]
fn a_second_time_stays_in_the_title_where_it_can_be_seen() {
    let phrase = parse("встреча в 15:00 и созвон в 18:00");
    assert_eq!(phrase.title, "Встреча и созвон в 18:00");
    assert_eq!(local(&phrase), "2026-08-10 15:00");
}

#[test]
fn a_time_that_does_not_exist_on_a_clock_is_left_in_the_title() {
    let phrase = parse("встреча в 25:70");
    assert_eq!(phrase.title, "Встреча в 25:70");
    assert_eq!(phrase.named_at, None);
}

#[test]
fn an_empty_transcript_is_a_validation_error() {
    let error = parse_phrase("   ", noon(), &moscow(), fallback()).expect_err("must reject");
    assert_eq!(error.code(), "validation_required");
}

#[test]
fn a_dictation_longer_than_a_title_is_cut_rather_than_refused() {
    let long = "слово ".repeat(60);
    let phrase = parse(&long);
    assert_eq!(phrase.title.chars().count(), MAX_SPOKEN_TITLE_LEN);
}

// -----------------------------------------------------------------------
// Numbers said as words
// -----------------------------------------------------------------------

#[test]
fn an_hour_said_as_a_word_lands_in_the_afternoon_where_people_mean_it() {
    // Said at noon. Nobody says «в три» about three in the morning.
    let phrase = parse("встреча в три часа");
    assert_eq!(phrase.title, "Встреча");
    assert_eq!(local(&phrase), "2026-08-10 15:00");
}

#[test]
fn a_part_of_day_beside_a_word_hour_settles_it_outright() {
    assert_eq!(local(&parse("в три часа дня")), "2026-08-10 15:00");
    assert_eq!(local(&parse("в семь вечера")), "2026-08-10 19:00");
    // Nine in the morning has gone by noon, so it is tomorrow's nine.
    assert_eq!(local(&parse("в девять утра зарядка")), "2026-08-11 09:00");
}

#[test]
fn a_morning_hour_that_has_passed_becomes_its_evening_twin_today() {
    // «в девять» at noon is nine tonight — reaching for tomorrow morning
    // would skip nine hours the person can still use.
    assert_eq!(local(&parse("позвонить в девять")), "2026-08-10 21:00");
    assert_eq!(local(&parse("в одиннадцать")), "2026-08-10 23:00");
}

#[test]
fn the_twin_is_only_reached_for_when_the_daytime_reading_has_gone() {
    // 16:00 in Moscow. «в три» means three in the afternoon, which has
    // passed; three tonight is not what was meant, so it is tomorrow.
    let now = at_local(chrono_tz::Europe::Moscow, 2026, 8, 10, 16, 0);
    let phrase = parse_phrase("в три", now, &moscow(), fallback()).expect("parses");
    assert_eq!(
        reading(phrase.named_at.expect("a time was named"), chrono_tz::Europe::Moscow),
        "2026-08-11 15:00"
    );
}

#[test]
fn digits_keep_the_hour_they_were_written_with() {
    // The deliberate difference: `9` is a clock reading and «девять» is a
    // word. Only the word has two possible halves of the day.
    assert_eq!(local(&parse("встреча в 9")), "2026-08-11 09:00");
    assert_eq!(local(&parse("встреча в 21")), "2026-08-10 21:00");
}

#[test]
fn the_word_for_one_is_also_the_word_for_an_hour() {
    assert_eq!(local(&parse("обед в час дня")), "2026-08-10 13:00");
    assert_eq!(parse("обед в час дня").title, "Обед");
}

#[test]
fn tens_and_units_make_one_number() {
    assert_eq!(local(&parse("в двадцать три тридцать")), "2026-08-10 23:30");
}

#[test]
fn halves_count_the_hour_they_are_halfway_into() {
    // «полвторого» is 13:30, not 14:30 — the commonest way to be an hour
    // wrong about a Russian time.
    assert_eq!(local(&parse("полвторого созвон")), "2026-08-10 13:30");
    assert_eq!(local(&parse("в половине третьего")), "2026-08-10 14:30");
    assert_eq!(local(&parse("пол шестого")), "2026-08-10 17:30");
}

#[test]
fn half_past_twelve_is_the_middle_of_the_day_rather_than_the_night() {
    assert_eq!(local(&parse("полпервого")), "2026-08-10 12:30");
}

#[test]
fn minutes_short_of_an_hour_are_read_backwards_from_it() {
    assert_eq!(local(&parse("без пятнадцати шесть")), "2026-08-10 17:45");
    assert_eq!(local(&parse("без четверти шесть")), "2026-08-10 17:45");
    assert_eq!(local(&parse("выйти без десяти пять")), "2026-08-10 16:50");
    assert_eq!(parse("выйти без десяти пять").title, "Выйти");
}

#[test]
fn noon_and_midnight_need_no_working_out() {
    // Said in the morning, because the fixture clock *is* noon and a time
    // that has arrived is not a time to be reminded at.
    let morning = at_local(chrono_tz::Europe::Moscow, 2026, 8, 10, 9, 0);
    let phrase = parse_phrase("полдень обед", morning, &moscow(), fallback()).expect("parses");
    assert_eq!(
        reading(phrase.named_at.expect("a time was named"), chrono_tz::Europe::Moscow),
        "2026-08-10 12:00"
    );
    assert_eq!(local(&parse("в полночь")), "2026-08-11 00:00");
}

#[test]
fn english_says_the_same_things_its_own_way() {
    assert_eq!(local(&parse("call at half past three")), "2026-08-10 15:30");
    assert_eq!(local(&parse("leave at quarter to six")), "2026-08-10 17:45");
    assert_eq!(local(&parse("ten past three")), "2026-08-10 15:10");
    assert_eq!(local(&parse("at midnight")), "2026-08-11 00:00");
    assert_eq!(parse("call at half past three").title, "Call");
}

// -----------------------------------------------------------------------
// Parts of the day
// -----------------------------------------------------------------------

#[test]
fn a_part_of_the_day_with_no_hour_is_a_rough_time_rather_than_the_fallback() {
    let phrase = parse("завтра утром позвонить маме");
    assert_eq!(phrase.title, "Позвонить маме");
    assert_eq!(local(&phrase), "2026-08-11 09:00");
    assert!(
        !phrase.named_clock_time,
        "nothing was named to be early for, so the lead must not apply"
    );
}

#[test]
fn each_part_of_the_day_has_its_own_hour() {
    assert_eq!(local(&parse("вечером забрать посылку")), "2026-08-10 19:00");
    assert_eq!(local(&parse("завтра днём в банк")), "2026-08-11 13:00");
    assert_eq!(local(&parse("завтра ночью рейс")), "2026-08-11 22:00");
    assert_eq!(local(&parse("tomorrow morning gym")), "2026-08-11 09:00");
}

#[test]
fn the_words_that_only_lead_into_a_part_of_the_day_go_with_it() {
    // The second «в» belongs to «в спортзал» and stays where it was said.
    assert_eq!(parse("с утра в спортзал").title, "В спортзал");
    assert_eq!(parse("in the evening call back").title, "Call back");
}

// -----------------------------------------------------------------------
// Numbers that are not times
// -----------------------------------------------------------------------

#[test]
fn the_minutes_said_after_the_hour_word_are_part_of_the_time() {
    // «в 15 часов 30 минут» is what a recogniser writes when the hour and
    // the minutes are spoken with their units. Reading only the hour puts
    // the alarm half an hour early and leaves «30 минут» in the title.
    let phrase = parse("в 15 часов 30 минут созвон");
    assert_eq!(local(&phrase), "2026-08-10 15:30");
    assert_eq!(phrase.title, "Созвон");
}

#[test]
fn a_count_behind_a_preposition_is_not_an_hour() {
    // «на» never vouches for a bare hour: it is the commonest way in
    // Russian to say how many of something there are.
    for text in [
        "уехать на 2 недели",
        "разогреть на 3 минуты",
        "купить билеты на 5 число",
    ] {
        let phrase = parse(text);
        assert_eq!(phrase.named_at, None, "{text}");
        assert!(
            phrase.title.to_lowercase().contains("на"),
            "{text} lost its preposition: {}",
            phrase.title
        );
    }
}

#[test]
fn a_multiplier_is_not_an_hour_either() {
    let phrase = parse("купить в 2 раза больше молока");
    assert_eq!(phrase.named_at, None);
    assert_eq!(phrase.title, "Купить в 2 раза больше молока");
}

#[test]
fn a_part_of_the_day_still_turns_a_bare_hour_into_the_afternoon() {
    // «дня» is a unit of time and a part of the day at once. Behind a
    // vouching preposition it is the second one.
    assert_eq!(local(&parse("в 3 дня встреча")), "2026-08-10 15:00");
}

#[test]
fn a_dot_between_numbers_is_only_a_time_where_a_time_can_be() {
    // A date, a price and a score. Each used to become a reminder and lose
    // the number it was about.
    for text in ["встреча 12.03 в офисе", "купить хлеб 2.50 и молоко"]
    {
        let phrase = parse(text);
        assert_eq!(phrase.named_at, None, "{text}");
    }
    // At the end of the phrase, where a bare pair is already read as a
    // time, the dot spelling still counts.
    assert_eq!(local(&parse("созвон 16.45")), "2026-08-10 16:45");
}

#[test]
fn a_dash_between_numbers_is_a_range_rather_than_a_time() {
    let phrase = parse("матч 14-15");
    assert_eq!(phrase.named_at, None);
    assert_eq!(phrase.title, "Матч 14-15");
}

#[test]
fn an_apostrophe_inside_a_word_does_not_split_it() {
    assert_eq!(parse("call mum's doctor").title, "Call mum's doctor");
}

#[test]
fn a_length_of_time_is_not_an_hour() {
    // «на 20 минут» says how long, not when. Read as an hour it would put
    // the reminder at eight in the evening.
    let phrase = parse("опоздаю на 20 минут");
    assert_eq!(phrase.named_at, None);
    assert_eq!(phrase.title, "Опоздаю на 20 минут");
}

#[test]
fn a_timer_has_nothing_taken_off_it() {
    // «через 20 минут» names the moment the person wants to hear from the
    // app. Subtracting a half-hour lead would ring before they finished
    // asking.
    let phrase = parse("через 20 минут снять с плиты");
    assert_eq!(local(&phrase), "2026-08-10 12:20");
    assert!(!phrase.named_clock_time);
}

#[test]
fn a_timer_counts_in_words_too() {
    assert_eq!(
        local(&parse("через двадцать минут чай")),
        "2026-08-10 12:20"
    );
    assert_eq!(local(&parse("через две недели отчёт")), "2026-08-24 12:00");
}

#[test]
fn an_hour_a_country_skips_is_moved_on_rather_than_refused() {
    // Moscow has no DST any more, so this is asked of a zone that does:
    // Chile puts its clocks forward at midnight, and 00:30 does not exist
    // on 6 September 2026.
    let zone = chrono_tz::America::Santiago;
    let now = at_local(zone, 2026, 9, 5, 12, 0);
    let santiago = parse_zone("America/Santiago").expect("known zone");
    let phrase = parse_phrase("завтра в 00:30 стирка", now, &santiago, fallback()).expect("parses");
    assert_eq!(
        reading(phrase.named_at.expect("a time was named"), zone),
        "2026-09-06 01:30"
    );
}

#[test]
fn a_title_that_grows_when_capitalised_is_still_cut_to_the_limit() {
    // 'ß' capitalises to two letters, so capitalising after cutting would
    // overrun the limit by one.
    let text = format!("ß{}", "a".repeat(200));
    let phrase = parse(&text);
    assert_eq!(phrase.title.chars().count(), MAX_SPOKEN_TITLE_LEN);
    assert!(phrase.title.starts_with("SSa"));
}
