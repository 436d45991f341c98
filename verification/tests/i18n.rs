use pi_inky_weather_epd::i18n::{
    format_localized_date, month_long, month_short, translate, weekday_long, weekday_short, Language,
    TranslationKey, Weekday,
};

// 2025-10-25T12:00:00Z, a Saturday.
const SATURDAY_NOON: i64 = 1761393600;

#[test]
fn unknown_language_falls_back_to_english() {
    assert_eq!(Language::from_config("unknown"), Language::En);
    assert_eq!(translate(TranslationKey::Feels, Language::En), "Feels");
}

#[test]
fn returns_localized_weekday_abbreviations() {
    assert_eq!(weekday_short(Weekday::Mon, Language::Fr), "Lun");
    assert_eq!(weekday_short(Weekday::Tue, Language::De), "Di");
    assert_eq!(weekday_short(Weekday::Sun, Language::Ja), "日");
}

#[test]
fn localizes_weekday_and_month_names_in_date_formats() {
    assert_eq!(
        format_localized_date(SATURDAY_NOON, "UTC", "%A, %d %B", Language::Fr).unwrap(),
        "Samedi, 25 Octobre"
    );
    assert_eq!(
        format_localized_date(SATURDAY_NOON, "UTC", "%a, %-d %b", Language::De).unwrap(),
        "Sa, 25 Okt"
    );
}

#[test]
fn escaped_percent_before_a_specifier_letter_is_not_corrupted() {
    assert_eq!(
        format_localized_date(SATURDAY_NOON, "UTC", "%%A, %d %B", Language::Fr).unwrap(),
        "%A, 25 Octobre"
    );
}

#[test]
fn weekday_long_names_fit_the_rotated_chart_label_budget() {
    const MAX_LEN: usize = 10;
    for language in [Language::En, Language::Fr, Language::De, Language::Es] {
        for n in 0..7 {
            let weekday = Weekday::from_days_from_monday(n);
            let name = weekday_long(weekday, language);
            assert!(name.len() <= MAX_LEN, "{name:?} is over the label budget");
        }
    }
}

#[test]
fn configured_language_is_trimmed_and_case_insensitive() {
    assert_eq!(Language::from_config(" FR "), Language::Fr);
    assert_eq!(Language::from_config("de"), Language::De);
    assert_eq!(Language::from_config("ja"), Language::Ja);
}

#[test]
fn month_names_by_language() {
    assert_eq!(month_short(10, Language::De), "Okt");
    assert_eq!(month_long(10, Language::Fr), "Octobre");
    assert_eq!(month_long(1, Language::En), "January");
}

#[test]
fn unknown_time_zone_gives_no_date() {
    assert_eq!(format_localized_date(SATURDAY_NOON, "Not/AZone", "%A", Language::En), None);
}
