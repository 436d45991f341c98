//! Localisation of the dashboard's labels, day and month names, and of
//! formatted dates.
use vstd::prelude::*;
use crate::text::{
    ascii_lower_spec, chars_of, has_prefix, nat_to_decimal, push_char, replace_all, replace_spec, str_eq, to_ascii_lowercase,
    trim, trim_spec,
};
use crate::time::{chrono_format_in_zone, chrono_local_month_weekday, format_in_zone, local_month_weekday};

verus! {

/// Interface languages.
#[derive(Debug, Clone, Copy, PartialEq, Eq, Structural)]
pub enum Language {
    En,
    Fr,
    De,
    Es,
    Ja,
}

/// The language a configuration value selects: the trimmed, ASCII-lowercased
/// code `fr`, `de`, `es` or `ja`, and English for anything else.
pub open spec fn language_of(value: Seq<char>) -> Language {
    let v = ascii_lower_spec(trim_spec(value));
    if v == "fr"@ {
        Language::Fr
    } else if v == "de"@ {
        Language::De
    } else if v == "es"@ {
        Language::Es
    } else if v == "ja"@ {
        Language::Ja
    } else {
        Language::En
    }
}

impl Language {
    pub fn from_config(value: &str) -> (r: Language)
        ensures
            r == language_of(value@),
    {
        let t = trim(value);
        let v = to_ascii_lowercase(t.as_str());
        if str_eq(v.as_str(), "fr") {
            Language::Fr
        } else if str_eq(v.as_str(), "de") {
            Language::De
        } else if str_eq(v.as_str(), "es") {
            Language::Es
        } else if str_eq(v.as_str(), "ja") {
            Language::Ja
        } else {
            Language::En
        }
    }

    /// English is the default language.
    pub fn default_language() -> (r: Language)
        ensures
            r == Language::En,
    {
        Language::En
    }
}

/// Labels shown on the dashboard.
#[derive(Debug, Clone, Copy, PartialEq, Eq, Structural)]
pub enum TranslationKey {
    Feels,
    Like,
    Metric,
    Now,
    Max,
}

/// The label of `key` in `language`.
pub open spec fn translation(key: TranslationKey, language: Language) -> Seq<char> {
    match language {
        Language::En => match key {
            TranslationKey::Feels => "Feels"@,
            TranslationKey::Like => "Like"@,
            TranslationKey::Metric => "Metric"@,
            TranslationKey::Now => "Now"@,
            TranslationKey::Max => "Max"@,
        },
        Language::Fr => match key {
            TranslationKey::Feels => "Ress."@,
            TranslationKey::Like => "comme"@,
            TranslationKey::Metric => "Mesure"@,
            TranslationKey::Now => "Maint."@,
            TranslationKey::Max => "Max"@,
        },
        Language::De => match key {
            TranslationKey::Feels => "Gef."@,
            TranslationKey::Like => "wie"@,
            TranslationKey::Metric => "Wert"@,
            TranslationKey::Now => "Jetzt"@,
            TranslationKey::Max => "Max"@,
        },
        Language::Es => match key {
            TranslationKey::Feels => "Se"@,
            TranslationKey::Like => "siente"@,
            TranslationKey::Metric => "Medida"@,
            TranslationKey::Now => "Ahora"@,
            TranslationKey::Max => "Max"@,
        },
        Language::Ja => match key {
            TranslationKey::Feels => "体感"@,
            TranslationKey::Like => "温度"@,
            TranslationKey::Metric => "指標"@,
            TranslationKey::Now => "今"@,
            TranslationKey::Max => "最大"@,
        },
    }
}

pub fn translate(key: TranslationKey, language: Language) -> (r: &'static str)
    ensures
        r@ == translation(key, language),
{
    match language {
        Language::En => match key {
            TranslationKey::Feels => "Feels",
            TranslationKey::Like => "Like",
            TranslationKey::Metric => "Metric",
            TranslationKey::Now => "Now",
            TranslationKey::Max => "Max",
        },
        Language::Fr => match key {
            TranslationKey::Feels => "Ress.",
            TranslationKey::Like => "comme",
            TranslationKey::Metric => "Mesure",
            TranslationKey::Now => "Maint.",
            TranslationKey::Max => "Max",
        },
        Language::De => match key {
            TranslationKey::Feels => "Gef.",
            TranslationKey::Like => "wie",
            TranslationKey::Metric => "Wert",
            TranslationKey::Now => "Jetzt",
            TranslationKey::Max => "Max",
        },
        Language::Es => match key {
            TranslationKey::Feels => "Se",
            TranslationKey::Like => "siente",
            TranslationKey::Metric => "Medida",
            TranslationKey::Now => "Ahora",
            TranslationKey::Max => "Max",
        },
        Language::Ja => match key {
            TranslationKey::Feels => "体感",
            TranslationKey::Like => "温度",
            TranslationKey::Metric => "指標",
            TranslationKey::Now => "今",
            TranslationKey::Max => "最大",
        },
    }
}

/// Days of the week.
#[derive(Debug, Clone, Copy, PartialEq, Eq, Structural)]
pub enum Weekday {
    Mon,
    Tue,
    Wed,
    Thu,
    Fri,
    Sat,
    Sun,
}

impl Weekday {
    /// The weekday `n` days after Monday (`n` in 0..=6).
    pub open spec fn spec_from_monday(n: u32) -> Weekday {
        if n == 0 { Weekday::Mon }
        else if n == 1 { Weekday::Tue }
        else if n == 2 { Weekday::Wed }
        else if n == 3 { Weekday::Thu }
        else if n == 4 { Weekday::Fri }
        else if n == 5 { Weekday::Sat }
        else { Weekday::Sun }
    }

    /// The weekday `n` days after Monday; 6 and above is Sunday.
    pub fn from_days_from_monday(n: u32) -> (r: Weekday)
        ensures
            r == Weekday::spec_from_monday(n),
    {
        if n == 0 { Weekday::Mon }
        else if n == 1 { Weekday::Tue }
        else if n == 2 { Weekday::Wed }
        else if n == 3 { Weekday::Thu }
        else if n == 4 { Weekday::Fri }
        else if n == 5 { Weekday::Sat }
        else { Weekday::Sun }
    }
}

/// Counting days from Monday: 0 is Monday, 1 Tuesday, … 6 Sunday (chrono's
/// `num_days_from_monday`), so each count names a different weekday.
pub proof fn lemma_weekdays_from_monday(n: u32)
    ensures
        Weekday::spec_from_monday(0) == Weekday::Mon,
        Weekday::spec_from_monday(1) == Weekday::Tue,
        Weekday::spec_from_monday(2) == Weekday::Wed,
        Weekday::spec_from_monday(3) == Weekday::Thu,
        Weekday::spec_from_monday(4) == Weekday::Fri,
        Weekday::spec_from_monday(5) == Weekday::Sat,
        Weekday::spec_from_monday(6) == Weekday::Sun,
        forall|a: u32, b: u32| a < 7 && b < 7 && a != b ==> Weekday::spec_from_monday(a) != Weekday::spec_from_monday(b),
{
}

pub open spec fn weekday_short_text(weekday: Weekday, language: Language) -> Seq<char> {
    match language {
        Language::En => match weekday {
            Weekday::Mon => "Mon"@,
            Weekday::Tue => "Tue"@,
            Weekday::Wed => "Wed"@,
            Weekday::Thu => "Thu"@,
            Weekday::Fri => "Fri"@,
            Weekday::Sat => "Sat"@,
            Weekday::Sun => "Sun"@,
        },
        Language::Fr => match weekday {
            Weekday::Mon => "Lun"@,
            Weekday::Tue => "Mar"@,
            Weekday::Wed => "Mer"@,
            Weekday::Thu => "Jeu"@,
            Weekday::Fri => "Ven"@,
            Weekday::Sat => "Sam"@,
            Weekday::Sun => "Dim"@,
        },
        Language::De => match weekday {
            Weekday::Mon => "Mo"@,
            Weekday::Tue => "Di"@,
            Weekday::Wed => "Mi"@,
            Weekday::Thu => "Do"@,
            Weekday::Fri => "Fr"@,
            Weekday::Sat => "Sa"@,
            Weekday::Sun => "So"@,
        },
        Language::Es => match weekday {
            Weekday::Mon => "Lun"@,
            Weekday::Tue => "Mar"@,
            Weekday::Wed => "Mie"@,
            Weekday::Thu => "Jue"@,
            Weekday::Fri => "Vie"@,
            Weekday::Sat => "Sab"@,
            Weekday::Sun => "Dom"@,
        },
        Language::Ja => match weekday {
            Weekday::Mon => "月"@,
            Weekday::Tue => "火"@,
            Weekday::Wed => "水"@,
            Weekday::Thu => "木"@,
            Weekday::Fri => "金"@,
            Weekday::Sat => "土"@,
            Weekday::Sun => "日"@,
        },
    }
}

pub fn weekday_short(weekday: Weekday, language: Language) -> (r: &'static str)
    ensures
        r@ == weekday_short_text(weekday, language),
{
    match language {
        Language::En => match weekday {
            Weekday::Mon => "Mon",
            Weekday::Tue => "Tue",
            Weekday::Wed => "Wed",
            Weekday::Thu => "Thu",
            Weekday::Fri => "Fri",
            Weekday::Sat => "Sat",
            Weekday::Sun => "Sun",
        },
        Language::Fr => match weekday {
            Weekday::Mon => "Lun",
            Weekday::Tue => "Mar",
            Weekday::Wed => "Mer",
            Weekday::Thu => "Jeu",
            Weekday::Fri => "Ven",
            Weekday::Sat => "Sam",
            Weekday::Sun => "Dim",
        },
        Language::De => match weekday {
            Weekday::Mon => "Mo",
            Weekday::Tue => "Di",
            Weekday::Wed => "Mi",
            Weekday::Thu => "Do",
            Weekday::Fri => "Fr",
            Weekday::Sat => "Sa",
            Weekday::Sun => "So",
        },
        Language::Es => match weekday {
            Weekday::Mon => "Lun",
            Weekday::Tue => "Mar",
            Weekday::Wed => "Mie",
            Weekday::Thu => "Jue",
            Weekday::Fri => "Vie",
            Weekday::Sat => "Sab",
            Weekday::Sun => "Dom",
        },
        Language::Ja => match weekday {
            Weekday::Mon => "月",
            Weekday::Tue => "火",
            Weekday::Wed => "水",
            Weekday::Thu => "木",
            Weekday::Fri => "金",
            Weekday::Sat => "土",
            Weekday::Sun => "日",
        },
    }
}

pub open spec fn weekday_long_text(weekday: Weekday, language: Language) -> Seq<char> {
    match language {
        Language::En => match weekday {
            Weekday::Mon => "Monday"@,
            Weekday::Tue => "Tuesday"@,
            Weekday::Wed => "Wednesday"@,
            Weekday::Thu => "Thursday"@,
            Weekday::Fri => "Friday"@,
            Weekday::Sat => "Saturday"@,
            Weekday::Sun => "Sunday"@,
        },
        Language::Fr => match weekday {
            Weekday::Mon => "Lundi"@,
            Weekday::Tue => "Mardi"@,
            Weekday::Wed => "Mercredi"@,
            Weekday::Thu => "Jeudi"@,
            Weekday::Fri => "Vendredi"@,
            Weekday::Sat => "Samedi"@,
            Weekday::Sun => "Dimanche"@,
        },
        Language::De => match weekday {
            Weekday::Mon => "Montag"@,
            Weekday::Tue => "Dienstag"@,
            Weekday::Wed => "Mittwoch"@,
            Weekday::Thu => "Donnerstag"@,
            Weekday::Fri => "Freitag"@,
            Weekday::Sat => "Samstag"@,
            Weekday::Sun => "Sonntag"@,
        },
        Language::Es => match weekday {
            Weekday::Mon => "Lunes"@,
            Weekday::Tue => "Martes"@,
            Weekday::Wed => "Miércoles"@,
            Weekday::Thu => "Jueves"@,
            Weekday::Fri => "Viernes"@,
            Weekday::Sat => "Sábado"@,
            Weekday::Sun => "Domingo"@,
        },
        Language::Ja => match weekday {
            Weekday::Mon => "月曜日"@,
            Weekday::Tue => "火曜日"@,
            Weekday::Wed => "水曜日"@,
            Weekday::Thu => "木曜日"@,
            Weekday::Fri => "金曜日"@,
            Weekday::Sat => "土曜日"@,
            Weekday::Sun => "日曜日"@,
        },
    }
}

pub fn weekday_long(weekday: Weekday, language: Language) -> (r: &'static str)
    ensures
        r@ == weekday_long_text(weekday, language),
{
    match language {
        Language::En => match weekday {
            Weekday::Mon => "Monday",
            Weekday::Tue => "Tuesday",
            Weekday::Wed => "Wednesday",
            Weekday::Thu => "Thursday",
            Weekday::Fri => "Friday",
            Weekday::Sat => "Saturday",
            Weekday::Sun => "Sunday",
        },
        Language::Fr => match weekday {
            Weekday::Mon => "Lundi",
            Weekday::Tue => "Mardi",
            Weekday::Wed => "Mercredi",
            Weekday::Thu => "Jeudi",
            Weekday::Fri => "Vendredi",
            Weekday::Sat => "Samedi",
            Weekday::Sun => "Dimanche",
        },
        Language::De => match weekday {
            Weekday::Mon => "Montag",
            Weekday::Tue => "Dienstag",
            Weekday::Wed => "Mittwoch",
            Weekday::Thu => "Donnerstag",
            Weekday::Fri => "Freitag",
            Weekday::Sat => "Samstag",
            Weekday::Sun => "Sonntag",
        },
        Language::Es => match weekday {
            Weekday::Mon => "Lunes",
            Weekday::Tue => "Martes",
            Weekday::Wed => "Miércoles",
            Weekday::Thu => "Jueves",
            Weekday::Fri => "Viernes",
            Weekday::Sat => "Sábado",
            Weekday::Sun => "Domingo",
        },
        Language::Ja => match weekday {
            Weekday::Mon => "月曜日",
            Weekday::Tue => "火曜日",
            Weekday::Wed => "水曜日",
            Weekday::Thu => "木曜日",
            Weekday::Fri => "金曜日",
            Weekday::Sat => "土曜日",
            Weekday::Sun => "日曜日",
        },
    }
}

pub open spec fn month_short_text(month: u32, language: Language) -> Seq<char> {
    match language {
        Language::En => {
            if month == 1 { "Jan"@ }
            else if month == 2 { "Feb"@ }
            else if month == 3 { "Mar"@ }
            else if month == 4 { "Apr"@ }
            else if month == 5 { "May"@ }
            else if month == 6 { "Jun"@ }
            else if month == 7 { "Jul"@ }
            else if month == 8 { "Aug"@ }
            else if month == 9 { "Sep"@ }
            else if month == 10 { "Oct"@ }
            else if month == 11 { "Nov"@ }
            else if month == 12 { "Dec"@ }
            else { ""@ }
        },
        Language::Fr => {
            if month == 1 { "Janv"@ }
            else if month == 2 { "Févr"@ }
            else if month == 3 { "Mars"@ }
            else if month == 4 { "Avr"@ }
            else if month == 5 { "Mai"@ }
            else if month == 6 { "Juin"@ }
            else if month == 7 { "Juil"@ }
            else if month == 8 { "Août"@ }
            else if month == 9 { "Sept"@ }
            else if month == 10 { "Oct"@ }
            else if month == 11 { "Nov"@ }
            else if month == 12 { "Dec"@ }
            else { ""@ }
        },
        Language::De => {
            if month == 1 { "Jan"@ }
            else if month == 2 { "Feb"@ }
            else if month == 3 { "Mar"@ }
            else if month == 4 { "Apr"@ }
            else if month == 5 { "Mai"@ }
            else if month == 6 { "Jun"@ }
            else if month == 7 { "Jul"@ }
            else if month == 8 { "Aug"@ }
            else if month == 9 { "Sep"@ }
            else if month == 10 { "Okt"@ }
            else if month == 11 { "Nov"@ }
            else if month == 12 { "Dez"@ }
            else { ""@ }
        },
        Language::Es => {
            if month == 1 { "Ene"@ }
            else if month == 2 { "Feb"@ }
            else if month == 3 { "Mar"@ }
            else if month == 4 { "Abr"@ }
            else if month == 5 { "May"@ }
            else if month == 6 { "Jun"@ }
            else if month == 7 { "Jul"@ }
            else if month == 8 { "Ago"@ }
            else if month == 9 { "Sep"@ }
            else if month == 10 { "Oct"@ }
            else if month == 11 { "Nov"@ }
            else if month == 12 { "Dic"@ }
            else { ""@ }
        },
        Language::Ja => {
            if month == 1 { "1月"@ }
            else if month == 2 { "2月"@ }
            else if month == 3 { "3月"@ }
            else if month == 4 { "4月"@ }
            else if month == 5 { "5月"@ }
            else if month == 6 { "6月"@ }
            else if month == 7 { "7月"@ }
            else if month == 8 { "8月"@ }
            else if month == 9 { "9月"@ }
            else if month == 10 { "10月"@ }
            else if month == 11 { "11月"@ }
            else if month == 12 { "12月"@ }
            else { ""@ }
        },
    }
}

/// The month names exist exactly for the months 1 to 12, in every language
/// and in both lengths.
pub proof fn lemma_month_names_exist(month: u32, language: Language)
    ensures
        (month_short_text(month, language).len() > 0) <==> (1 <= month <= 12),
        (month_long_text(month, language).len() > 0) <==> (1 <= month <= 12),
{
    reveal_strlit("");
    if language == Language::En {
        reveal_strlit("Apr");
        reveal_strlit("April");
        reveal_strlit("Aug");
        reveal_strlit("August");
        reveal_strlit("Dec");
        reveal_strlit("December");
        reveal_strlit("Feb");
        reveal_strlit("February");
        reveal_strlit("Jan");
        reveal_strlit("January");
        reveal_strlit("Jul");
        reveal_strlit("July");
        reveal_strlit("Jun");
        reveal_strlit("June");
        reveal_strlit("Mar");
        reveal_strlit("March");
        reveal_strlit("May");
        reveal_strlit("Nov");
        reveal_strlit("November");
        reveal_strlit("Oct");
        reveal_strlit("October");
        reveal_strlit("Sep");
        reveal_strlit("September");
    }
    if language == Language::Fr {
        reveal_strlit("Août");
        reveal_strlit("Avr");
        reveal_strlit("Avril");
        reveal_strlit("Dec");
        reveal_strlit("Décembre");
        reveal_strlit("Févr");
        reveal_strlit("Février");
        reveal_strlit("Janv");
        reveal_strlit("Janvier");
        reveal_strlit("Juil");
        reveal_strlit("Juillet");
        reveal_strlit("Juin");
        reveal_strlit("Mai");
        reveal_strlit("Mars");
        reveal_strlit("Nov");
        reveal_strlit("Novembre");
        reveal_strlit("Oct");
        reveal_strlit("Octobre");
        reveal_strlit("Sept");
        reveal_strlit("Septembre");
    }
    if language == Language::De {
        reveal_strlit("Apr");
        reveal_strlit("April");
        reveal_strlit("Aug");
        reveal_strlit("August");
        reveal_strlit("Dez");
        reveal_strlit("Dezember");
        reveal_strlit("Feb");
        reveal_strlit("Februar");
        reveal_strlit("Jan");
        reveal_strlit("Januar");
        reveal_strlit("Jul");
        reveal_strlit("Juli");
        reveal_strlit("Jun");
        reveal_strlit("Juni");
        reveal_strlit("Mai");
        reveal_strlit("Mar");
        reveal_strlit("März");
        reveal_strlit("Nov");
        reveal_strlit("November");
        reveal_strlit("Okt");
        reveal_strlit("Oktober");
        reveal_strlit("Sep");
        reveal_strlit("September");
    }
    if language == Language::Es {
        reveal_strlit("Abr");
        reveal_strlit("Abril");
        reveal_strlit("Ago");
        reveal_strlit("Agosto");
        reveal_strlit("Dic");
        reveal_strlit("Diciembre");
        reveal_strlit("Ene");
        reveal_strlit("Enero");
        reveal_strlit("Feb");
        reveal_strlit("Febrero");
        reveal_strlit("Jul");
        reveal_strlit("Julio");
        reveal_strlit("Jun");
        reveal_strlit("Junio");
        reveal_strlit("Mar");
        reveal_strlit("Marzo");
        reveal_strlit("May");
        reveal_strlit("Mayo");
        reveal_strlit("Nov");
        reveal_strlit("Noviembre");
        reveal_strlit("Oct");
        reveal_strlit("Octubre");
        reveal_strlit("Sep");
        reveal_strlit("Septiembre");
    }
    if language == Language::Ja {
        reveal_strlit("10月");
        reveal_strlit("11月");
        reveal_strlit("12月");
        reveal_strlit("1月");
        reveal_strlit("2月");
        reveal_strlit("3月");
        reveal_strlit("4月");
        reveal_strlit("5月");
        reveal_strlit("6月");
        reveal_strlit("7月");
        reveal_strlit("8月");
        reveal_strlit("9月");
    }
}

/// English abbreviations have three letters and begin their month's full
/// name.
pub proof fn lemma_english_month_abbreviations(month: u32)
    requires
        1 <= month <= 12,
    ensures
        month_short_text(month, Language::En).len() == 3,
        has_prefix(month_long_text(month, Language::En), month_short_text(month, Language::En)),
{
    if month == 1 {
        reveal_strlit("Jan");
        reveal_strlit("January");
        assert(month_long_text(month, Language::En).subrange(0, 3) =~= month_short_text(month, Language::En));
    }
    if month == 2 {
        reveal_strlit("Feb");
        reveal_strlit("February");
        assert(month_long_text(month, Language::En).subrange(0, 3) =~= month_short_text(month, Language::En));
    }
    if month == 3 {
        reveal_strlit("Mar");
        reveal_strlit("March");
        assert(month_long_text(month, Language::En).subrange(0, 3) =~= month_short_text(month, Language::En));
    }
    if month == 4 {
        reveal_strlit("Apr");
        reveal_strlit("April");
        assert(month_long_text(month, Language::En).subrange(0, 3) =~= month_short_text(month, Language::En));
    }
    if month == 5 {
        reveal_strlit("May");
        reveal_strlit("May");
        assert(month_long_text(month, Language::En).subrange(0, 3) =~= month_short_text(month, Language::En));
    }
    if month == 6 {
        reveal_strlit("Jun");
        reveal_strlit("June");
        assert(month_long_text(month, Language::En).subrange(0, 3) =~= month_short_text(month, Language::En));
    }
    if month == 7 {
        reveal_strlit("Jul");
        reveal_strlit("July");
        assert(month_long_text(month, Language::En).subrange(0, 3) =~= month_short_text(month, Language::En));
    }
    if month == 8 {
        reveal_strlit("Aug");
        reveal_strlit("August");
        assert(month_long_text(month, Language::En).subrange(0, 3) =~= month_short_text(month, Language::En));
    }
    if month == 9 {
        reveal_strlit("Sep");
        reveal_strlit("September");
        assert(month_long_text(month, Language::En).subrange(0, 3) =~= month_short_text(month, Language::En));
    }
    if month == 10 {
        reveal_strlit("Oct");
        reveal_strlit("October");
        assert(month_long_text(month, Language::En).subrange(0, 3) =~= month_short_text(month, Language::En));
    }
    if month == 11 {
        reveal_strlit("Nov");
        reveal_strlit("November");
        assert(month_long_text(month, Language::En).subrange(0, 3) =~= month_short_text(month, Language::En));
    }
    if month == 12 {
        reveal_strlit("Dec");
        reveal_strlit("December");
        assert(month_long_text(month, Language::En).subrange(0, 3) =~= month_short_text(month, Language::En));
    }
}

/// The Japanese abbreviation of a month is its number followed by 月.
pub proof fn lemma_japanese_month_abbreviations(month: u32)
    requires
        1 <= month <= 12,
    ensures
        month_short_text(month, Language::Ja) == nat_to_decimal(month as nat) + "月"@,
{
    reveal_strlit("月");
    if month == 1 {
        reveal_strlit("1月");
        assert(nat_to_decimal(1) =~= seq!['1']);
        assert(month_short_text(month, Language::Ja) =~= nat_to_decimal(month as nat) + "月"@);
    }
    if month == 2 {
        reveal_strlit("2月");
        assert(nat_to_decimal(2) =~= seq!['2']);
        assert(month_short_text(month, Language::Ja) =~= nat_to_decimal(month as nat) + "月"@);
    }
    if month == 3 {
        reveal_strlit("3月");
        assert(nat_to_decimal(3) =~= seq!['3']);
        assert(month_short_text(month, Language::Ja) =~= nat_to_decimal(month as nat) + "月"@);
    }
    if month == 4 {
        reveal_strlit("4月");
        assert(nat_to_decimal(4) =~= seq!['4']);
        assert(month_short_text(month, Language::Ja) =~= nat_to_decimal(month as nat) + "月"@);
    }
    if month == 5 {
        reveal_strlit("5月");
        assert(nat_to_decimal(5) =~= seq!['5']);
        assert(month_short_text(month, Language::Ja) =~= nat_to_decimal(month as nat) + "月"@);
    }
    if month == 6 {
        reveal_strlit("6月");
        assert(nat_to_decimal(6) =~= seq!['6']);
        assert(month_short_text(month, Language::Ja) =~= nat_to_decimal(month as nat) + "月"@);
    }
    if month == 7 {
        reveal_strlit("7月");
        assert(nat_to_decimal(7) =~= seq!['7']);
        assert(month_short_text(month, Language::Ja) =~= nat_to_decimal(month as nat) + "月"@);
    }
    if month == 8 {
        reveal_strlit("8月");
        assert(nat_to_decimal(8) =~= seq!['8']);
        assert(month_short_text(month, Language::Ja) =~= nat_to_decimal(month as nat) + "月"@);
    }
    if month == 9 {
        reveal_strlit("9月");
        assert(nat_to_decimal(9) =~= seq!['9']);
        assert(month_short_text(month, Language::Ja) =~= nat_to_decimal(month as nat) + "月"@);
    }
    if month == 10 {
        reveal_strlit("10月");
        assert(nat_to_decimal(1) =~= seq!['1']);
        assert(nat_to_decimal(10) =~= seq!['1', '0']);
        assert(month_short_text(month, Language::Ja) =~= nat_to_decimal(month as nat) + "月"@);
    }
    if month == 11 {
        reveal_strlit("11月");
        assert(nat_to_decimal(1) =~= seq!['1']);
        assert(nat_to_decimal(11) =~= seq!['1', '1']);
        assert(month_short_text(month, Language::Ja) =~= nat_to_decimal(month as nat) + "月"@);
    }
    if month == 12 {
        reveal_strlit("12月");
        assert(nat_to_decimal(1) =~= seq!['1']);
        assert(nat_to_decimal(12) =~= seq!['1', '2']);
        assert(month_short_text(month, Language::Ja) =~= nat_to_decimal(month as nat) + "月"@);
    }
}

pub fn month_short(month: u32, language: Language) -> (r: &'static str)
    ensures
        r@ == month_short_text(month, language),
{
    match language {
        Language::En => {
            if month == 1 { "Jan" }
            else if month == 2 { "Feb" }
            else if month == 3 { "Mar" }
            else if month == 4 { "Apr" }
            else if month == 5 { "May" }
            else if month == 6 { "Jun" }
            else if month == 7 { "Jul" }
            else if month == 8 { "Aug" }
            else if month == 9 { "Sep" }
            else if month == 10 { "Oct" }
            else if month == 11 { "Nov" }
            else if month == 12 { "Dec" }
            else {
                proof {
                    reveal_strlit("");
                }
                ""
            }
        },
        Language::Fr => {
            if month == 1 { "Janv" }
            else if month == 2 { "Févr" }
            else if month == 3 { "Mars" }
            else if month == 4 { "Avr" }
            else if month == 5 { "Mai" }
            else if month == 6 { "Juin" }
            else if month == 7 { "Juil" }
            else if month == 8 { "Août" }
            else if month == 9 { "Sept" }
            else if month == 10 { "Oct" }
            else if month == 11 { "Nov" }
            else if month == 12 { "Dec" }
            else {
                proof {
                    reveal_strlit("");
                }
                ""
            }
        },
        Language::De => {
            if month == 1 { "Jan" }
            else if month == 2 { "Feb" }
            else if month == 3 { "Mar" }
            else if month == 4 { "Apr" }
            else if month == 5 { "Mai" }
            else if month == 6 { "Jun" }
            else if month == 7 { "Jul" }
            else if month == 8 { "Aug" }
            else if month == 9 { "Sep" }
            else if month == 10 { "Okt" }
            else if month == 11 { "Nov" }
            else if month == 12 { "Dez" }
            else {
                proof {
                    reveal_strlit("");
                }
                ""
            }
        },
        Language::Es => {
            if month == 1 { "Ene" }
            else if month == 2 { "Feb" }
            else if month == 3 { "Mar" }
            else if month == 4 { "Abr" }
            else if month == 5 { "May" }
            else if month == 6 { "Jun" }
            else if month == 7 { "Jul" }
            else if month == 8 { "Ago" }
            else if month == 9 { "Sep" }
            else if month == 10 { "Oct" }
            else if month == 11 { "Nov" }
            else if month == 12 { "Dic" }
            else {
                proof {
                    reveal_strlit("");
                }
                ""
            }
        },
        Language::Ja => {
            if month == 1 { "1月" }
            else if month == 2 { "2月" }
            else if month == 3 { "3月" }
            else if month == 4 { "4月" }
            else if month == 5 { "5月" }
            else if month == 6 { "6月" }
            else if month == 7 { "7月" }
            else if month == 8 { "8月" }
            else if month == 9 { "9月" }
            else if month == 10 { "10月" }
            else if month == 11 { "11月" }
            else if month == 12 { "12月" }
            else {
                proof {
                    reveal_strlit("");
                }
                ""
            }
        },
    }
}

pub open spec fn month_long_text(month: u32, language: Language) -> Seq<char> {
    match language {
        Language::En => {
            if month == 1 { "January"@ }
            else if month == 2 { "February"@ }
            else if month == 3 { "March"@ }
            else if month == 4 { "April"@ }
            else if month == 5 { "May"@ }
            else if month == 6 { "June"@ }
            else if month == 7 { "July"@ }
            else if month == 8 { "August"@ }
            else if month == 9 { "September"@ }
            else if month == 10 { "October"@ }
            else if month == 11 { "November"@ }
            else if month == 12 { "December"@ }
            else { ""@ }
        },
        Language::Fr => {
            if month == 1 { "Janvier"@ }
            else if month == 2 { "Février"@ }
            else if month == 3 { "Mars"@ }
            else if month == 4 { "Avril"@ }
            else if month == 5 { "Mai"@ }
            else if month == 6 { "Juin"@ }
            else if month == 7 { "Juillet"@ }
            else if month == 8 { "Août"@ }
            else if month == 9 { "Septembre"@ }
            else if month == 10 { "Octobre"@ }
            else if month == 11 { "Novembre"@ }
            else if month == 12 { "Décembre"@ }
            else { ""@ }
        },
        Language::De => {
            if month == 1 { "Januar"@ }
            else if month == 2 { "Februar"@ }
            else if month == 3 { "März"@ }
            else if month == 4 { "April"@ }
            else if month == 5 { "Mai"@ }
            else if month == 6 { "Juni"@ }
            else if month == 7 { "Juli"@ }
            else if month == 8 { "August"@ }
            else if month == 9 { "September"@ }
            else if month == 10 { "Oktober"@ }
            else if month == 11 { "November"@ }
            else if month == 12 { "Dezember"@ }
            else { ""@ }
        },
        Language::Es => {
            if month == 1 { "Enero"@ }
            else if month == 2 { "Febrero"@ }
            else if month == 3 { "Marzo"@ }
            else if month == 4 { "Abril"@ }
            else if month == 5 { "Mayo"@ }
            else if month == 6 { "Junio"@ }
            else if month == 7 { "Julio"@ }
            else if month == 8 { "Agosto"@ }
            else if month == 9 { "Septiembre"@ }
            else if month == 10 { "Octubre"@ }
            else if month == 11 { "Noviembre"@ }
            else if month == 12 { "Diciembre"@ }
            else { ""@ }
        },
        Language::Ja => {
            if month == 1 { "1月"@ }
            else if month == 2 { "2月"@ }
            else if month == 3 { "3月"@ }
            else if month == 4 { "4月"@ }
            else if month == 5 { "5月"@ }
            else if month == 6 { "6月"@ }
            else if month == 7 { "7月"@ }
            else if month == 8 { "8月"@ }
            else if month == 9 { "9月"@ }
            else if month == 10 { "10月"@ }
            else if month == 11 { "11月"@ }
            else if month == 12 { "12月"@ }
            else { ""@ }
        },
    }
}

pub fn month_long(month: u32, language: Language) -> (r: &'static str)
    ensures
        r@ == month_long_text(month, language),
{
    match language {
        Language::En => {
            if month == 1 { "January" }
            else if month == 2 { "February" }
            else if month == 3 { "March" }
            else if month == 4 { "April" }
            else if month == 5 { "May" }
            else if month == 6 { "June" }
            else if month == 7 { "July" }
            else if month == 8 { "August" }
            else if month == 9 { "September" }
            else if month == 10 { "October" }
            else if month == 11 { "November" }
            else if month == 12 { "December" }
            else {
                proof {
                    reveal_strlit("");
                }
                ""
            }
        },
        Language::Fr => {
            if month == 1 { "Janvier" }
            else if month == 2 { "Février" }
            else if month == 3 { "Mars" }
            else if month == 4 { "Avril" }
            else if month == 5 { "Mai" }
            else if month == 6 { "Juin" }
            else if month == 7 { "Juillet" }
            else if month == 8 { "Août" }
            else if month == 9 { "Septembre" }
            else if month == 10 { "Octobre" }
            else if month == 11 { "Novembre" }
            else if month == 12 { "Décembre" }
            else {
                proof {
                    reveal_strlit("");
                }
                ""
            }
        },
        Language::De => {
            if month == 1 { "Januar" }
            else if month == 2 { "Februar" }
            else if month == 3 { "März" }
            else if month == 4 { "April" }
            else if month == 5 { "Mai" }
            else if month == 6 { "Juni" }
            else if month == 7 { "Juli" }
            else if month == 8 { "August" }
            else if month == 9 { "September" }
            else if month == 10 { "Oktober" }
            else if month == 11 { "November" }
            else if month == 12 { "Dezember" }
            else {
                proof {
                    reveal_strlit("");
                }
                ""
            }
        },
        Language::Es => {
            if month == 1 { "Enero" }
            else if month == 2 { "Febrero" }
            else if month == 3 { "Marzo" }
            else if month == 4 { "Abril" }
            else if month == 5 { "Mayo" }
            else if month == 6 { "Junio" }
            else if month == 7 { "Julio" }
            else if month == 8 { "Agosto" }
            else if month == 9 { "Septiembre" }
            else if month == 10 { "Octubre" }
            else if month == 11 { "Noviembre" }
            else if month == 12 { "Diciembre" }
            else {
                proof {
                    reveal_strlit("");
                }
                ""
            }
        },
        Language::Ja => {
            if month == 1 { "1月" }
            else if month == 2 { "2月" }
            else if month == 3 { "3月" }
            else if month == 4 { "4月" }
            else if month == 5 { "5月" }
            else if month == 6 { "6月" }
            else if month == 7 { "7月" }
            else if month == 8 { "8月" }
            else if month == 9 { "9月" }
            else if month == 10 { "10月" }
            else if month == 11 { "11月" }
            else if month == 12 { "12月" }
            else {
                proof {
                    reveal_strlit("");
                }
                ""
            }
        },
    }
}


/// Sentinels that stand for localised names while chrono renders a format.
pub open spec fn weekday_long_sentinel() -> Seq<char> { seq!['\0', 'W', 'L', '\0'] }
pub open spec fn weekday_short_sentinel() -> Seq<char> { seq!['\0', 'W', 'S', '\0'] }
pub open spec fn month_long_sentinel() -> Seq<char> { seq!['\0', 'M', 'L', '\0'] }
pub open spec fn month_short_sentinel() -> Seq<char> { seq!['\0', 'M', 'S', '\0'] }

/// `format` with `%A`, `%a`, `%B` and `%b` swapped for the sentinels, read
/// one `%`-token at a time so that an escaped `%%` stays intact (and `%%A`
/// keeps meaning a literal "%A").
pub open spec fn substituted(format: Seq<char>) -> Seq<char>
    decreases format.len(),
{
    if format.len() == 0 {
        Seq::empty()
    } else if format[0] != '%' {
        seq![format[0]] + substituted(format.drop_first())
    } else if format.len() >= 2 && format[1] == '%' {
        seq!['%', '%'] + substituted(format.skip(2))
    } else if format.len() >= 2 && format[1] == 'A' {
        weekday_long_sentinel() + substituted(format.skip(2))
    } else if format.len() >= 2 && format[1] == 'a' {
        weekday_short_sentinel() + substituted(format.skip(2))
    } else if format.len() >= 2 && format[1] == 'B' {
        month_long_sentinel() + substituted(format.skip(2))
    } else if format.len() >= 2 && format[1] == 'b' {
        month_short_sentinel() + substituted(format.skip(2))
    } else {
        seq!['%'] + substituted(format.drop_first())
    }
}

fn push_sentinel(out: &mut String, kind: char, size: char)
    ensures
        final(out)@ == old(out)@ + seq!['\0', kind, size, '\0'],
{
    push_char(out, '\0');
    push_char(out, kind);
    push_char(out, size);
    push_char(out, '\0');
}

/// Swaps chrono's `%A`/`%a`/`%B`/`%b` specifiers for null-byte-delimited
/// sentinels, leaving every other specifier, including `%%`, untouched.
pub fn substitute_localizable_specifiers(format: &str) -> (r: String)
    ensures
        r@ == substituted(format@),
{
    let v = chars_of(format);
    let n = v.len();
    let mut out = String::new();
    let mut i: usize = 0;
    assert(v@.skip(0) =~= v@);
    while i < n
        invariant
            v@ == format@,
            n == v.len(),
            i <= n,
            out@ + substituted(v@.skip(i as int)) == substituted(format@),
        decreases n - i,
    {
        let ghost rest = v@.skip(i as int);
        let c = v[i];
        assert(rest[0] == c);
        if c != '%' {
            push_char(&mut out, c);
            assert(rest.drop_first() =~= v@.skip(i + 1));
            assert(out@ + substituted(v@.skip(i + 1)) =~= substituted(format@));
            i = i + 1;
        } else if i + 1 < n && (v[i + 1] == '%' || v[i + 1] == 'A' || v[i + 1] == 'a' || v[i + 1] == 'B' || v[i + 1] == 'b') {
            let d = v[i + 1];
            assert(rest[1] == d);
            if d == '%' {
                push_char(&mut out, '%');
                push_char(&mut out, '%');
            } else if d == 'A' {
                push_sentinel(&mut out, 'W', 'L');
            } else if d == 'a' {
                push_sentinel(&mut out, 'W', 'S');
            } else if d == 'B' {
                push_sentinel(&mut out, 'M', 'L');
            } else {
                push_sentinel(&mut out, 'M', 'S');
            }
            assert(rest.skip(2) =~= v@.skip(i + 2));
            assert(out@ + substituted(v@.skip(i + 2)) =~= substituted(format@));
            i = i + 2;
        } else {
            push_char(&mut out, '%');
            assert(rest.drop_first() =~= v@.skip(i + 1));
            if i + 1 < n {
                assert(rest[1] == v@[i + 1]);
            }
            assert(out@ + substituted(v@.skip(i + 1)) =~= substituted(format@));
            i = i + 1;
        }
    }
    assert(v@.skip(n as int) =~= Seq::<char>::empty());
    assert(out@ =~= out@ + substituted(Seq::<char>::empty()));
    out
}

/// `rendered` with the sentinels replaced by the names of `weekday` and
/// `month` in `language` (long weekday, short weekday, long month, short month).
pub open spec fn localized(rendered: Seq<char>, month: u32, weekday: Weekday, language: Language) -> Seq<char> {
    let a = replace_spec(rendered, weekday_long_sentinel(), weekday_long_text(weekday, language));
    let b = replace_spec(a, weekday_short_sentinel(), weekday_short_text(weekday, language));
    let c = replace_spec(b, month_long_sentinel(), month_long_text(month, language));
    replace_spec(c, month_short_sentinel(), month_short_text(month, language))
}

/// Replaces the sentinels in text rendered from a substituted format with
/// the localised weekday and month names.
pub fn localize_rendered(rendered: &str, month: u32, weekday: Weekday, language: Language) -> (r: String)
    ensures
        r@ == localized(rendered@, month, weekday, language),
{
    let mut wl = String::new();
    push_sentinel(&mut wl, 'W', 'L');
    let mut ws = String::new();
    push_sentinel(&mut ws, 'W', 'S');
    let mut ml = String::new();
    push_sentinel(&mut ml, 'M', 'L');
    let mut ms = String::new();
    push_sentinel(&mut ms, 'M', 'S');
    let a = replace_all(rendered, wl.as_str(), weekday_long(weekday, language));
    let b = replace_all(a.as_str(), ws.as_str(), weekday_short(weekday, language));
    let c = replace_all(b.as_str(), ml.as_str(), month_long(month, language));
    replace_all(c.as_str(), ms.as_str(), month_short(month, language))
}

/// The localised rendering of an instant in a time zone: English uses
/// chrono's names as they are; other languages render the substituted
/// format and put the localised names in. `None` when chrono cannot render
/// the instant in that zone.
pub open spec fn localized_date(utc_secs: i64, tz_name: Seq<char>, format: Seq<char>, language: Language) -> Option<Seq<char>> {
    if language == Language::En {
        chrono_format_in_zone(utc_secs, tz_name, format)
    } else {
        match (chrono_format_in_zone(utc_secs, tz_name, substituted(format)), chrono_local_month_weekday(utc_secs, tz_name)) {
            (Some(text), Some((m, w))) => Some(localized(text, m, Weekday::spec_from_monday(w), language)),
            _ => None,
        }
    }
}

/// Formats the instant `utc_secs` in the IANA zone `tz_name` with the
/// strftime `format`, with weekday and month names in `language`.
pub fn format_localized_date(utc_secs: i64, tz_name: &str, format: &str, language: Language) -> (r: Option<String>)
    ensures
        match r {
            Some(s) => localized_date(utc_secs, tz_name@, format@, language) == Some(s@),
            None => localized_date(utc_secs, tz_name@, format@, language) is None,
        },
{
    if language == Language::En {
        return format_in_zone(utc_secs, tz_name, format);
    }
    let template = substitute_localizable_specifiers(format);
    let rendered = format_in_zone(utc_secs, tz_name, template.as_str());
    let parts = local_month_weekday(utc_secs, tz_name);
    match (rendered, parts) {
        (Some(text), Some((month, w))) => {
            let weekday = Weekday::from_days_from_monday(w);
            Some(localize_rendered(text.as_str(), month, weekday, language))
        },
        _ => None,
    }
}

/// The localised names of the weekday `n` days after Monday (chrono's
/// `num_days_from_monday`), long and short, in every language.
pub proof fn lemma_weekday_names(n: u32, language: Language)
    ensures
        n == 0 && language == Language::En ==> weekday_long_text(Weekday::spec_from_monday(n), language) == "Monday"@ && weekday_short_text(Weekday::spec_from_monday(n), language) == "Mon"@,
        n == 1 && language == Language::En ==> weekday_long_text(Weekday::spec_from_monday(n), language) == "Tuesday"@ && weekday_short_text(Weekday::spec_from_monday(n), language) == "Tue"@,
        n == 2 && language == Language::En ==> weekday_long_text(Weekday::spec_from_monday(n), language) == "Wednesday"@ && weekday_short_text(Weekday::spec_from_monday(n), language) == "Wed"@,
        n == 3 && language == Language::En ==> weekday_long_text(Weekday::spec_from_monday(n), language) == "Thursday"@ && weekday_short_text(Weekday::spec_from_monday(n), language) == "Thu"@,
        n == 4 && language == Language::En ==> weekday_long_text(Weekday::spec_from_monday(n), language) == "Friday"@ && weekday_short_text(Weekday::spec_from_monday(n), language) == "Fri"@,
        n == 5 && language == Language::En ==> weekday_long_text(Weekday::spec_from_monday(n), language) == "Saturday"@ && weekday_short_text(Weekday::spec_from_monday(n), language) == "Sat"@,
        n == 6 && language == Language::En ==> weekday_long_text(Weekday::spec_from_monday(n), language) == "Sunday"@ && weekday_short_text(Weekday::spec_from_monday(n), language) == "Sun"@,
        n == 0 && language == Language::Fr ==> weekday_long_text(Weekday::spec_from_monday(n), language) == "Lundi"@ && weekday_short_text(Weekday::spec_from_monday(n), language) == "Lun"@,
        n == 1 && language == Language::Fr ==> weekday_long_text(Weekday::spec_from_monday(n), language) == "Mardi"@ && weekday_short_text(Weekday::spec_from_monday(n), language) == "Mar"@,
        n == 2 && language == Language::Fr ==> weekday_long_text(Weekday::spec_from_monday(n), language) == "Mercredi"@ && weekday_short_text(Weekday::spec_from_monday(n), language) == "Mer"@,
        n == 3 && language == Language::Fr ==> weekday_long_text(Weekday::spec_from_monday(n), language) == "Jeudi"@ && weekday_short_text(Weekday::spec_from_monday(n), language) == "Jeu"@,
        n == 4 && language == Language::Fr ==> weekday_long_text(Weekday::spec_from_monday(n), language) == "Vendredi"@ && weekday_short_text(Weekday::spec_from_monday(n), language) == "Ven"@,
        n == 5 && language == Language::Fr ==> weekday_long_text(Weekday::spec_from_monday(n), language) == "Samedi"@ && weekday_short_text(Weekday::spec_from_monday(n), language) == "Sam"@,
        n == 6 && language == Language::Fr ==> weekday_long_text(Weekday::spec_from_monday(n), language) == "Dimanche"@ && weekday_short_text(Weekday::spec_from_monday(n), language) == "Dim"@,
        n == 0 && language == Language::De ==> weekday_long_text(Weekday::spec_from_monday(n), language) == "Montag"@ && weekday_short_text(Weekday::spec_from_monday(n), language) == "Mo"@,
        n == 1 && language == Language::De ==> weekday_long_text(Weekday::spec_from_monday(n), language) == "Dienstag"@ && weekday_short_text(Weekday::spec_from_monday(n), language) == "Di"@,
        n == 2 && language == Language::De ==> weekday_long_text(Weekday::spec_from_monday(n), language) == "Mittwoch"@ && weekday_short_text(Weekday::spec_from_monday(n), language) == "Mi"@,
        n == 3 && language == Language::De ==> weekday_long_text(Weekday::spec_from_monday(n), language) == "Donnerstag"@ && weekday_short_text(Weekday::spec_from_monday(n), language) == "Do"@,
        n == 4 && language == Language::De ==> weekday_long_text(Weekday::spec_from_monday(n), language) == "Freitag"@ && weekday_short_text(Weekday::spec_from_monday(n), language) == "Fr"@,
        n == 5 && language == Language::De ==> weekday_long_text(Weekday::spec_from_monday(n), language) == "Samstag"@ && weekday_short_text(Weekday::spec_from_monday(n), language) == "Sa"@,
        n == 6 && language == Language::De ==> weekday_long_text(Weekday::spec_from_monday(n), language) == "Sonntag"@ && weekday_short_text(Weekday::spec_from_monday(n), language) == "So"@,
        n == 0 && language == Language::Es ==> weekday_long_text(Weekday::spec_from_monday(n), language) == "Lunes"@ && weekday_short_text(Weekday::spec_from_monday(n), language) == "Lun"@,
        n == 1 && language == Language::Es ==> weekday_long_text(Weekday::spec_from_monday(n), language) == "Martes"@ && weekday_short_text(Weekday::spec_from_monday(n), language) == "Mar"@,
        n == 2 && language == Language::Es ==> weekday_long_text(Weekday::spec_from_monday(n), language) == "Miércoles"@ && weekday_short_text(Weekday::spec_from_monday(n), language) == "Mie"@,
        n == 3 && language == Language::Es ==> weekday_long_text(Weekday::spec_from_monday(n), language) == "Jueves"@ && weekday_short_text(Weekday::spec_from_monday(n), language) == "Jue"@,
        n == 4 && language == Language::Es ==> weekday_long_text(Weekday::spec_from_monday(n), language) == "Viernes"@ && weekday_short_text(Weekday::spec_from_monday(n), language) == "Vie"@,
        n == 5 && language == Language::Es ==> weekday_long_text(Weekday::spec_from_monday(n), language) == "Sábado"@ && weekday_short_text(Weekday::spec_from_monday(n), language) == "Sab"@,
        n == 6 && language == Language::Es ==> weekday_long_text(Weekday::spec_from_monday(n), language) == "Domingo"@ && weekday_short_text(Weekday::spec_from_monday(n), language) == "Dom"@,
        n == 0 && language == Language::Ja ==> weekday_long_text(Weekday::spec_from_monday(n), language) == "月曜日"@ && weekday_short_text(Weekday::spec_from_monday(n), language) == "月"@,
        n == 1 && language == Language::Ja ==> weekday_long_text(Weekday::spec_from_monday(n), language) == "火曜日"@ && weekday_short_text(Weekday::spec_from_monday(n), language) == "火"@,
        n == 2 && language == Language::Ja ==> weekday_long_text(Weekday::spec_from_monday(n), language) == "水曜日"@ && weekday_short_text(Weekday::spec_from_monday(n), language) == "水"@,
        n == 3 && language == Language::Ja ==> weekday_long_text(Weekday::spec_from_monday(n), language) == "木曜日"@ && weekday_short_text(Weekday::spec_from_monday(n), language) == "木"@,
        n == 4 && language == Language::Ja ==> weekday_long_text(Weekday::spec_from_monday(n), language) == "金曜日"@ && weekday_short_text(Weekday::spec_from_monday(n), language) == "金"@,
        n == 5 && language == Language::Ja ==> weekday_long_text(Weekday::spec_from_monday(n), language) == "土曜日"@ && weekday_short_text(Weekday::spec_from_monday(n), language) == "土"@,
        n == 6 && language == Language::Ja ==> weekday_long_text(Weekday::spec_from_monday(n), language) == "日曜日"@ && weekday_short_text(Weekday::spec_from_monday(n), language) == "日"@,
{
}

/// The localised names of each month (1 = January … 12 = December), long
/// and short, in every language.
pub proof fn lemma_month_names(month: u32, language: Language)
    ensures
        month == 1 && language == Language::En ==> month_long_text(month, language) == "January"@ && month_short_text(month, language) == "Jan"@,
        month == 2 && language == Language::En ==> month_long_text(month, language) == "February"@ && month_short_text(month, language) == "Feb"@,
        month == 3 && language == Language::En ==> month_long_text(month, language) == "March"@ && month_short_text(month, language) == "Mar"@,
        month == 4 && language == Language::En ==> month_long_text(month, language) == "April"@ && month_short_text(month, language) == "Apr"@,
        month == 5 && language == Language::En ==> month_long_text(month, language) == "May"@ && month_short_text(month, language) == "May"@,
        month == 6 && language == Language::En ==> month_long_text(month, language) == "June"@ && month_short_text(month, language) == "Jun"@,
        month == 7 && language == Language::En ==> month_long_text(month, language) == "July"@ && month_short_text(month, language) == "Jul"@,
        month == 8 && language == Language::En ==> month_long_text(month, language) == "August"@ && month_short_text(month, language) == "Aug"@,
        month == 9 && language == Language::En ==> month_long_text(month, language) == "September"@ && month_short_text(month, language) == "Sep"@,
        month == 10 && language == Language::En ==> month_long_text(month, language) == "October"@ && month_short_text(month, language) == "Oct"@,
        month == 11 && language == Language::En ==> month_long_text(month, language) == "November"@ && month_short_text(month, language) == "Nov"@,
        month == 12 && language == Language::En ==> month_long_text(month, language) == "December"@ && month_short_text(month, language) == "Dec"@,
        month == 1 && language == Language::Fr ==> month_long_text(month, language) == "Janvier"@ && month_short_text(month, language) == "Janv"@,
        month == 2 && language == Language::Fr ==> month_long_text(month, language) == "Février"@ && month_short_text(month, language) == "Févr"@,
        month == 3 && language == Language::Fr ==> month_long_text(month, language) == "Mars"@ && month_short_text(month, language) == "Mars"@,
        month == 4 && language == Language::Fr ==> month_long_text(month, language) == "Avril"@ && month_short_text(month, language) == "Avr"@,
        month == 5 && language == Language::Fr ==> month_long_text(month, language) == "Mai"@ && month_short_text(month, language) == "Mai"@,
        month == 6 && language == Language::Fr ==> month_long_text(month, language) == "Juin"@ && month_short_text(month, language) == "Juin"@,
        month == 7 && language == Language::Fr ==> month_long_text(month, language) == "Juillet"@ && month_short_text(month, language) == "Juil"@,
        month == 8 && language == Language::Fr ==> month_long_text(month, language) == "Août"@ && month_short_text(month, language) == "Août"@,
        month == 9 && language == Language::Fr ==> month_long_text(month, language) == "Septembre"@ && month_short_text(month, language) == "Sept"@,
        month == 10 && language == Language::Fr ==> month_long_text(month, language) == "Octobre"@ && month_short_text(month, language) == "Oct"@,
        month == 11 && language == Language::Fr ==> month_long_text(month, language) == "Novembre"@ && month_short_text(month, language) == "Nov"@,
        month == 12 && language == Language::Fr ==> month_long_text(month, language) == "Décembre"@ && month_short_text(month, language) == "Dec"@,
        month == 1 && language == Language::De ==> month_long_text(month, language) == "Januar"@ && month_short_text(month, language) == "Jan"@,
        month == 2 && language == Language::De ==> month_long_text(month, language) == "Februar"@ && month_short_text(month, language) == "Feb"@,
        month == 3 && language == Language::De ==> month_long_text(month, language) == "März"@ && month_short_text(month, language) == "Mar"@,
        month == 4 && language == Language::De ==> month_long_text(month, language) == "April"@ && month_short_text(month, language) == "Apr"@,
        month == 5 && language == Language::De ==> month_long_text(month, language) == "Mai"@ && month_short_text(month, language) == "Mai"@,
        month == 6 && language == Language::De ==> month_long_text(month, language) == "Juni"@ && month_short_text(month, language) == "Jun"@,
        month == 7 && language == Language::De ==> month_long_text(month, language) == "Juli"@ && month_short_text(month, language) == "Jul"@,
        month == 8 && language == Language::De ==> month_long_text(month, language) == "August"@ && month_short_text(month, language) == "Aug"@,
        month == 9 && language == Language::De ==> month_long_text(month, language) == "September"@ && month_short_text(month, language) == "Sep"@,
        month == 10 && language == Language::De ==> month_long_text(month, language) == "Oktober"@ && month_short_text(month, language) == "Okt"@,
        month == 11 && language == Language::De ==> month_long_text(month, language) == "November"@ && month_short_text(month, language) == "Nov"@,
        month == 12 && language == Language::De ==> month_long_text(month, language) == "Dezember"@ && month_short_text(month, language) == "Dez"@,
        month == 1 && language == Language::Es ==> month_long_text(month, language) == "Enero"@ && month_short_text(month, language) == "Ene"@,
        month == 2 && language == Language::Es ==> month_long_text(month, language) == "Febrero"@ && month_short_text(month, language) == "Feb"@,
        month == 3 && language == Language::Es ==> month_long_text(month, language) == "Marzo"@ && month_short_text(month, language) == "Mar"@,
        month == 4 && language == Language::Es ==> month_long_text(month, language) == "Abril"@ && month_short_text(month, language) == "Abr"@,
        month == 5 && language == Language::Es ==> month_long_text(month, language) == "Mayo"@ && month_short_text(month, language) == "May"@,
        month == 6 && language == Language::Es ==> month_long_text(month, language) == "Junio"@ && month_short_text(month, language) == "Jun"@,
        month == 7 && language == Language::Es ==> month_long_text(month, language) == "Julio"@ && month_short_text(month, language) == "Jul"@,
        month == 8 && language == Language::Es ==> month_long_text(month, language) == "Agosto"@ && month_short_text(month, language) == "Ago"@,
        month == 9 && language == Language::Es ==> month_long_text(month, language) == "Septiembre"@ && month_short_text(month, language) == "Sep"@,
        month == 10 && language == Language::Es ==> month_long_text(month, language) == "Octubre"@ && month_short_text(month, language) == "Oct"@,
        month == 11 && language == Language::Es ==> month_long_text(month, language) == "Noviembre"@ && month_short_text(month, language) == "Nov"@,
        month == 12 && language == Language::Es ==> month_long_text(month, language) == "Diciembre"@ && month_short_text(month, language) == "Dic"@,
        month == 1 && language == Language::Ja ==> month_long_text(month, language) == "1月"@ && month_short_text(month, language) == "1月"@,
        month == 2 && language == Language::Ja ==> month_long_text(month, language) == "2月"@ && month_short_text(month, language) == "2月"@,
        month == 3 && language == Language::Ja ==> month_long_text(month, language) == "3月"@ && month_short_text(month, language) == "3月"@,
        month == 4 && language == Language::Ja ==> month_long_text(month, language) == "4月"@ && month_short_text(month, language) == "4月"@,
        month == 5 && language == Language::Ja ==> month_long_text(month, language) == "5月"@ && month_short_text(month, language) == "5月"@,
        month == 6 && language == Language::Ja ==> month_long_text(month, language) == "6月"@ && month_short_text(month, language) == "6月"@,
        month == 7 && language == Language::Ja ==> month_long_text(month, language) == "7月"@ && month_short_text(month, language) == "7月"@,
        month == 8 && language == Language::Ja ==> month_long_text(month, language) == "8月"@ && month_short_text(month, language) == "8月"@,
        month == 9 && language == Language::Ja ==> month_long_text(month, language) == "9月"@ && month_short_text(month, language) == "9月"@,
        month == 10 && language == Language::Ja ==> month_long_text(month, language) == "10月"@ && month_short_text(month, language) == "10月"@,
        month == 11 && language == Language::Ja ==> month_long_text(month, language) == "11月"@ && month_short_text(month, language) == "11月"@,
        month == 12 && language == Language::Ja ==> month_long_text(month, language) == "12月"@ && month_short_text(month, language) == "12月"@,
{
}

} // verus!
