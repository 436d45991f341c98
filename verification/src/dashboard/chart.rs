//! Chart vocabulary: precipitation patterns, text styles, visibility, the
//! glyph-placement random generator, the UV gradient colours and the hour
//! labels of the x axis.
use vstd::prelude::*;
use crate::text::{concat2, digit_char, nat_to_decimal, owned, u64_to_string};
use crate::weather::icons::UVIndexIcon;

verus! {

/// Fill pattern of an hour's precipitation block.
#[derive(Debug, Clone, Copy, PartialEq, Eq, Structural)]
pub enum PrecipitationPattern {
    Snow,
    Rain,
}

impl PrecipitationPattern {
    pub open spec fn name(self) -> Seq<char> {
        match self {
            PrecipitationPattern::Snow => "snow"@,
            PrecipitationPattern::Rain => "rain"@,
        }
    }

    /// The pattern name.
    pub fn as_str(&self) -> (r: &'static str)
        ensures
            r@ == self.name(),
    {
        match self {
            PrecipitationPattern::Snow => "snow",
            PrecipitationPattern::Rain => "rain",
        }
    }
}

/// The axis paths and labels of the hourly graph, as SVG fragments.
#[derive(Debug, Clone)]
pub struct AxisPaths {
    pub x_axis_path: String,
    pub x_axis_guideline_path: String,
    pub y_left_axis_path: String,
    pub y_right_axis_path: String,
    pub x_labels: String,
    pub y_left_labels: String,
    pub y_right_labels: String,
}

/// Select the precipitation pattern of an hour from whether it is primarily
/// snow (pre-computed from `Precipitation::is_primarily_snow()`).
pub fn select_precipitation_pattern(is_snow: bool) -> (r: PrecipitationPattern)
    ensures
        r == (if is_snow { PrecipitationPattern::Snow } else { PrecipitationPattern::Rain }),
{
    if is_snow {
        PrecipitationPattern::Snow
    } else {
        PrecipitationPattern::Rain
    }
}

/// Font style of a table value: italics mark a value taken from tomorrow.
#[derive(Debug, Clone, Copy, PartialEq, Eq, Structural)]
pub enum FontStyle {
    Normal,
    Italic,
}

impl FontStyle {
    pub open spec fn name(self) -> Seq<char> {
        match self {
            FontStyle::Normal => "normal"@,
            FontStyle::Italic => "italic"@,
        }
    }

    pub fn as_str(&self) -> (r: &'static str)
        ensures
            r@ == self.name(),
    {
        match self {
            FontStyle::Normal => "normal",
            FontStyle::Italic => "italic",
        }
    }
}

/// SVG visibility of an element.
#[derive(Debug, Clone, Copy, PartialEq, Eq, Structural)]
pub enum ElementVisibility {
    Visible,
    Hidden,
}

impl ElementVisibility {
    pub open spec fn name(self) -> Seq<char> {
        match self {
            ElementVisibility::Visible => "visible"@,
            ElementVisibility::Hidden => "hidden"@,
        }
    }

    pub fn as_str(&self) -> (r: &'static str)
        ensures
            r@ == self.name(),
    {
        match self {
            ElementVisibility::Visible => "visible",
            ElementVisibility::Hidden => "hidden",
        }
    }
}

/// One step of the linear congruential generator that places rain and snow
/// glyphs: `seed * 6364136223846793005 + 1442695040888963407` modulo 2^64.
pub open spec fn lcg_step(seed: u64) -> u64 {
    ((seed as nat * 6364136223846793005 + 1442695040888963407) % 0x1_0000_0000_0000_0000) as u64
}

/// Advances the glyph-placement generator by one step.
pub fn lcg_next(seed: u64) -> (r: u64)
    ensures
        r == lcg_step(seed),
{
    let r = seed.wrapping_mul(6364136223846793005).wrapping_add(1442695040888963407);
    proof {
        vstd::arithmetic::mul::lemma_mul_is_commutative(seed as int, 6364136223846793005);
        lemma_wrapping_mul_add(seed);
    }
    r
}

proof fn lemma_wrapping_mul_add(seed: u64)
    ensures
        (((seed as nat * 6364136223846793005) % 0x1_0000_0000_0000_0000) + 1442695040888963407) % 0x1_0000_0000_0000_0000
            == (seed as nat * 6364136223846793005 + 1442695040888963407) % 0x1_0000_0000_0000_0000,
{
    vstd::arithmetic::div_mod::lemma_add_mod_noop(
        (seed as nat * 6364136223846793005) as int,
        1442695040888963407,
        0x1_0000_0000_0000_0000,
    );
    vstd::arithmetic::div_mod::lemma_mod_twice(1442695040888963407int, 0x1_0000_0000_0000_0000int);
}

/// The gradient colour of each hour's UV index.
pub open spec fn uv_colours(uv: Seq<u16>, background_colour: Seq<char>) -> Seq<Seq<char>> {
    uv.map_values(|u: u16| UVIndexIcon::spec_from(u).colour(background_colour))
}

/// The gradient colours of the UV index of each hour of the day, the
/// background colour where there is no UV.
pub fn uv_gradient_colours(uv_data: &Vec<u16>, background_colour: &str) -> (r: Vec<String>)
    ensures
        r@.len() == uv_data@.len(),
        forall|i: int| 0 <= i < r@.len() ==> #[trigger] r@[i]@ == uv_colours(uv_data@, background_colour@)[i],
{
    let mut out: Vec<String> = Vec::new();
    let mut i: usize = 0;
    while i < uv_data.len()
        invariant
            i <= uv_data.len(),
            out@.len() == i,
            forall|j: int| 0 <= j < i ==> #[trigger] out@[j]@ == uv_colours(uv_data@, background_colour@)[j],
        decreases uv_data.len() - i,
    {
        let icon = UVIndexIcon::from(uv_data[i]);
        out.push(icon.to_colour(background_colour));
        i = i + 1;
    }
    out
}

/// The x-axis label of a clock hour (0–23) on a 12-hour clock: midnight
/// is `12am`, noon `12pm`, other afternoon hours count from 1 again.
pub open spec fn hour_label_text(hour: u32) -> Seq<char> {
    let display: nat = if hour == 0 { 12 } else if hour > 12 { (hour - 12) as nat } else { hour as nat };
    nat_to_decimal(display) + if hour < 12 { "am"@ } else { "pm"@ }
}

/// Every clock hour on the x axis reads as on a 12-hour clock: `12am` at
/// midnight, `1am` … `11am` in the morning, `12pm` at noon and `1pm` …
/// `11pm` in the afternoon and evening.
pub proof fn lemma_hour_labels(hour: u32)
    ensures
        hour == 0 ==> hour_label_text(hour) == "12am"@,
        hour == 1 ==> hour_label_text(hour) == "1am"@,
        hour == 2 ==> hour_label_text(hour) == "2am"@,
        hour == 3 ==> hour_label_text(hour) == "3am"@,
        hour == 4 ==> hour_label_text(hour) == "4am"@,
        hour == 5 ==> hour_label_text(hour) == "5am"@,
        hour == 6 ==> hour_label_text(hour) == "6am"@,
        hour == 7 ==> hour_label_text(hour) == "7am"@,
        hour == 8 ==> hour_label_text(hour) == "8am"@,
        hour == 9 ==> hour_label_text(hour) == "9am"@,
        hour == 10 ==> hour_label_text(hour) == "10am"@,
        hour == 11 ==> hour_label_text(hour) == "11am"@,
        hour == 12 ==> hour_label_text(hour) == "12pm"@,
        hour == 13 ==> hour_label_text(hour) == "1pm"@,
        hour == 14 ==> hour_label_text(hour) == "2pm"@,
        hour == 15 ==> hour_label_text(hour) == "3pm"@,
        hour == 16 ==> hour_label_text(hour) == "4pm"@,
        hour == 17 ==> hour_label_text(hour) == "5pm"@,
        hour == 18 ==> hour_label_text(hour) == "6pm"@,
        hour == 19 ==> hour_label_text(hour) == "7pm"@,
        hour == 20 ==> hour_label_text(hour) == "8pm"@,
        hour == 21 ==> hour_label_text(hour) == "9pm"@,
        hour == 22 ==> hour_label_text(hour) == "10pm"@,
        hour == 23 ==> hour_label_text(hour) == "11pm"@,
{
    reveal_with_fuel(nat_to_decimal, 2);
    reveal_strlit("am");
    reveal_strlit("pm");
    assert(digit_char(1) == '1' && digit_char(2) == '2' && digit_char(0) == '0');
    if hour == 0 {
        reveal_strlit("12am");
        assert(hour_label_text(hour) =~= "12am"@);
    }
    if hour == 1 {
        reveal_strlit("1am");
        assert(hour_label_text(hour) =~= "1am"@);
    }
    if hour == 2 {
        reveal_strlit("2am");
        assert(hour_label_text(hour) =~= "2am"@);
    }
    if hour == 3 {
        reveal_strlit("3am");
        assert(hour_label_text(hour) =~= "3am"@);
    }
    if hour == 4 {
        reveal_strlit("4am");
        assert(hour_label_text(hour) =~= "4am"@);
    }
    if hour == 5 {
        reveal_strlit("5am");
        assert(hour_label_text(hour) =~= "5am"@);
    }
    if hour == 6 {
        reveal_strlit("6am");
        assert(hour_label_text(hour) =~= "6am"@);
    }
    if hour == 7 {
        reveal_strlit("7am");
        assert(hour_label_text(hour) =~= "7am"@);
    }
    if hour == 8 {
        reveal_strlit("8am");
        assert(hour_label_text(hour) =~= "8am"@);
    }
    if hour == 9 {
        reveal_strlit("9am");
        assert(hour_label_text(hour) =~= "9am"@);
    }
    if hour == 10 {
        reveal_strlit("10am");
        assert(hour_label_text(hour) =~= "10am"@);
    }
    if hour == 11 {
        reveal_strlit("11am");
        assert(hour_label_text(hour) =~= "11am"@);
    }
    if hour == 12 {
        reveal_strlit("12pm");
        assert(hour_label_text(hour) =~= "12pm"@);
    }
    if hour == 13 {
        reveal_strlit("1pm");
        assert(hour_label_text(hour) =~= "1pm"@);
    }
    if hour == 14 {
        reveal_strlit("2pm");
        assert(hour_label_text(hour) =~= "2pm"@);
    }
    if hour == 15 {
        reveal_strlit("3pm");
        assert(hour_label_text(hour) =~= "3pm"@);
    }
    if hour == 16 {
        reveal_strlit("4pm");
        assert(hour_label_text(hour) =~= "4pm"@);
    }
    if hour == 17 {
        reveal_strlit("5pm");
        assert(hour_label_text(hour) =~= "5pm"@);
    }
    if hour == 18 {
        reveal_strlit("6pm");
        assert(hour_label_text(hour) =~= "6pm"@);
    }
    if hour == 19 {
        reveal_strlit("7pm");
        assert(hour_label_text(hour) =~= "7pm"@);
    }
    if hour == 20 {
        reveal_strlit("8pm");
        assert(hour_label_text(hour) =~= "8pm"@);
    }
    if hour == 21 {
        reveal_strlit("9pm");
        assert(hour_label_text(hour) =~= "9pm"@);
    }
    if hour == 22 {
        reveal_strlit("10pm");
        assert(hour_label_text(hour) =~= "10pm"@);
    }
    if hour == 23 {
        reveal_strlit("11pm");
        assert(hour_label_text(hour) =~= "11pm"@);
    }
}

/// Labels a clock hour for the graph's x axis.
pub fn hour_label(hour: u32) -> (r: String)
    requires
        hour < 24,
    ensures
        r@ == hour_label_text(hour),
{
    let display: u64 = if hour == 0 { 12 } else if hour > 12 { (hour - 12) as u64 } else { hour as u64 };
    let mut s = u64_to_string(display);
    if hour < 12 {
        s.append("am");
    } else {
        s.append("pm");
    }
    s
}

} // verus!
