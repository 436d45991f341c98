use pi_inky_weather_epd::domain::weather_code::WmoWeatherCode;
use pi_inky_weather_epd::i18n::{month_long, month_short, Language};
use pi_inky_weather_epd::utils::{encode_bits, escape_xml_text};
use pi_inky_weather_epd::weather::utils::MoonPhaseIconName;

const LANGUAGES: [Language; 5] = [Language::En, Language::Fr, Language::De, Language::Es, Language::Ja];
const ALPHABET: &str = "0123456789bcdefghjkmnpqrstuvwxyz";

#[test]
fn wmo_night_icon_is_day_icon_with_night_marker() {
    for code in 0u8..=255 {
        let wmo = match WmoWeatherCode::try_from_code(code) {
            Ok(w) => w,
            Err(_) => WmoWeatherCode::Unknown,
        };
        let day = wmo.icon_name(false);
        let night = wmo.icon_name(true);
        assert!(day.ends_with(".svg"));
        assert_eq!(day.matches("-day").count(), 1, "{day}");
        assert!(!day.contains("-night"));
        assert_eq!(night, day.replacen("-day", "-night", 1));
    }
}

#[test]
fn month_names_exist_only_for_months_one_to_twelve() {
    for language in LANGUAGES {
        for month in 0u32..=14 {
            let known = (1..=12).contains(&month);
            assert_eq!(!month_short(month, language).is_empty(), known);
            assert_eq!(!month_long(month, language).is_empty(), known);
        }
    }
}

#[test]
fn english_and_japanese_month_abbreviations() {
    for month in 1u32..=12 {
        let short = month_short(month, Language::En);
        assert_eq!(short.chars().count(), 3);
        assert!(month_long(month, Language::En).starts_with(short));
        assert_eq!(month_short(month, Language::Ja), format!("{month}月"));
    }
}

#[test]
fn moon_icon_names_start_with_moon() {
    let phases = [
        MoonPhaseIconName::New,
        MoonPhaseIconName::WaxingCrescent,
        MoonPhaseIconName::FirstQuarter,
        MoonPhaseIconName::WaxingGibbous,
        MoonPhaseIconName::Full,
        MoonPhaseIconName::WaningGibbous,
        MoonPhaseIconName::LastQuarter,
        MoonPhaseIconName::WaningCrescent,
    ];
    for phase in phases {
        assert!(phase.as_str().starts_with("moon-"));
        assert!(phase.as_str().ends_with(".svg"));
    }
}

#[test]
fn shorter_geohash_is_prefix_of_longer_one() {
    let (lat32, lon32) = (0x3fc9_5a1b_u32, 0x7a01_23cd_u32);
    let full = encode_bits(lat32, lon32, 12).unwrap();
    assert!(full.chars().all(|c| ALPHABET.contains(c)));
    for k in 1..=12 {
        assert_eq!(encode_bits(lat32, lon32, k).unwrap(), full[..k].to_string());
    }
}

#[test]
fn escaped_xml_has_no_angle_brackets_and_decodes_back() {
    for text in ["a<b&c>", "&lt; already", "plain", "<<&&>>", ""] {
        let escaped = escape_xml_text(text);
        assert!(!escaped.contains('<') && !escaped.contains('>'));
        assert_eq!(escaped.replace("&lt;", "<").replace("&gt;", ">").replace("&amp;", "&"), text);
    }
    assert_eq!(escape_xml_text("a<b&c>"), "a&lt;b&amp;c&gt;");
}
