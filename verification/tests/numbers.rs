use keeps_core::domain::quick_notes::numbers::{cardinal, half_of, is_tens, named_hour, part_of_day};

#[test]
fn the_numbers_a_clock_needs_are_all_there() {
    for (word, value) in [
        ("ноль", 0),
        ("три", 3),
        ("двенадцать", 12),
        ("пятнадцать", 15),
        ("двадцать", 20),
        ("сорок", 40),
        ("fifty", 50),
    ] {
        assert_eq!(cardinal(word), Some(value), "{word}");
    }
}

#[test]
fn declined_forms_count_because_that_is_how_they_are_said() {
    assert_eq!(cardinal("пятнадцати"), Some(15));
    assert_eq!(cardinal("двадцати"), Some(20));
    assert_eq!(cardinal("пяти"), Some(5));
    assert_eq!(cardinal("трёх"), Some(3));
}

#[test]
fn a_quarter_is_fifteen_minutes_in_both_languages() {
    assert_eq!(cardinal("четверть"), Some(15));
    assert_eq!(cardinal("четверти"), Some(15));
    assert_eq!(cardinal("quarter"), Some(15));
}

#[test]
fn the_hour_word_is_also_the_number_one() {
    assert_eq!(cardinal("час"), Some(1));
}

#[test]
fn a_word_that_is_not_a_number_is_not_a_number() {
    for word in ["встреча", "часов", "", "три́", "twentyish"] {
        assert_eq!(cardinal(word), None, "{word}");
    }
}

#[test]
fn only_round_tens_can_carry_units_behind_them() {
    assert!(is_tens(20));
    assert!(is_tens(50));
    assert!(!is_tens(15));
    assert!(!is_tens(60));
}

#[test]
fn halves_written_as_one_word_are_read_as_the_hour_before() {
    assert_eq!(half_of("полвторого"), Some(2));
    assert_eq!(half_of("полшестого"), Some(6));
    assert_eq!(half_of("полдвенадцатого"), Some(12));
}

#[test]
fn the_half_prefix_alone_is_not_a_time() {
    assert_eq!(half_of("пол"), None);
    assert_eq!(half_of("полка"), None);
    assert_eq!(half_of("получка"), None);
}

#[test]
fn noon_and_midnight_are_hours_with_names() {
    assert_eq!(named_hour("полдень"), Some((12, 0)));
    assert_eq!(named_hour("полночь"), Some((0, 0)));
    assert_eq!(named_hour("midnight"), Some((0, 0)));
    assert_eq!(named_hour("вечер"), None);
}

#[test]
fn each_part_of_the_day_has_one_hour_the_app_stands_behind() {
    assert_eq!(part_of_day("утром"), Some((9, 0)));
    assert_eq!(part_of_day("днём"), Some((13, 0)));
    assert_eq!(part_of_day("вечером"), Some((19, 0)));
    assert_eq!(part_of_day("ночью"), Some((22, 0)));
    assert_eq!(part_of_day("завтра"), None);
}
