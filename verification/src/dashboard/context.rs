//! The values the dashboard template is filled with, and the builder that
//! fills them from forecasts and diagnostics.
use vstd::prelude::*;
use std::collections::HashMap;
use vstd::multiset::Multiset;
use crate::configs::settings::{Colours, Providers, RenderOptions};
use crate::errors::{DashboardError, DashboardErrorIconName, Description, DiagnosticPriority};
use crate::time::{chrono_format_in_zone, chrono_format_utc, chrono_local_days, chrono_local_midnight, format_in_zone, format_utc, in_chrono_range, local_days_from_ce, local_midnight};
use crate::domain::models::{converted_speed, DailyForecast, HourlyForecast, Wind};
use crate::configs::settings::WindSpeedUnit;
use crate::utils::{find_max_item_between_dates, lemma_max_in_window_is_max, max_in_window, total_between_dates, total_in_window};
use crate::weather::icons::{HumidityIconName, UVIndexIcon};
use crate::constants::{not_available_icon_path, not_available_path_of, not_available_text, NOT_AVAILABLE};
use crate::dashboard::chart::{ElementVisibility, FontStyle};
use crate::text::{has_prefix, i64_to_string, int_to_decimal, joined, nat_to_decimal, owned, u128_to_string, u64_to_string};
use crate::weather::icons::{icon_path_in, join_path, Icon, IconContext, SunPositionIconName};

verus! {

/// Every value the dashboard template shows, as text.
#[derive(Debug, Clone)]
pub struct Context {
    // colours
    pub background_colour: String,
    pub text_colour: String,
    pub x_axis_colour: String,
    pub y_left_axis_colour: String,
    pub y_right_axis_colour: String,
    pub actual_temp_colour: String,
    pub feels_like_colour: String,
    pub rain_colour: String,
    pub snow_colour: String,
    // weather elements outside the graph
    pub max_uv_index: String,
    pub max_uv_index_font_style: String,
    pub max_gust_speed: String,
    pub max_gust_speed_font_style: String,
    pub max_relative_humidity: String,
    pub max_relative_humidity_font_style: String,
    pub total_rain_today: String,
    pub temp_unit: String,
    pub current_wind_speed_unit: String,
    pub current_hour_actual_temp: String,
    pub current_hour_weather_icon: String,
    pub current_hour_feels_like: String,
    pub current_hour_wind_speed: String,
    pub current_hour_wind_icon: String,
    pub current_hour_uv_index: String,
    pub current_hour_uv_index_icon: String,
    pub current_hour_relative_humidity: String,
    pub current_hour_relative_humidity_icon: String,
    pub current_day_date: String,
    pub current_hour_rain_amount: String,
    pub sunset_time: String,
    pub sunrise_time: String,
    pub sunset_icon: String,
    pub sunrise_icon: String,
    // graph size
    pub graph_height: String,
    pub graph_width: String,
    // graph and curves
    pub actual_temp_curve_data: String,
    pub feel_like_curve_data: String,
    pub rain_curve_data: String,
    pub x_axis_path: String,
    pub x_axis_guideline_path: String,
    pub y_left_axis_path: String,
    pub x_labels: String,
    pub y_left_labels: String,
    pub y_right_axis_path: String,
    pub y_right_labels: String,
    pub uv_gradient: String,
    // daily forecast
    pub day2_mintemp: String,
    pub day2_maxtemp: String,
    pub day2_icon: String,
    pub day2_name: String,
    pub day3_mintemp: String,
    pub day3_maxtemp: String,
    pub day3_icon: String,
    pub day3_name: String,
    pub day4_mintemp: String,
    pub day4_maxtemp: String,
    pub day4_icon: String,
    pub day4_name: String,
    pub day5_mintemp: String,
    pub day5_maxtemp: String,
    pub day5_icon: String,
    pub day5_name: String,
    pub day6_mintemp: String,
    pub day6_maxtemp: String,
    pub day6_icon: String,
    pub day6_name: String,
    pub day7_mintemp: String,
    pub day7_maxtemp: String,
    pub day7_icon: String,
    pub day7_name: String,
    // diagnostics
    pub diagnostic_message: String,
    pub diagnostic_visibility: String,
    pub diagnostic_icons_svg: String,
    // debug information
    pub debug_info_visibility: String,
    pub debug_version: String,
    pub debug_provider: String,
    pub debug_location: String,
    pub debug_timezone: String,
}

impl Context {
    /// The values before any forecast or diagnostic is applied: the
    /// configured colours and units, "N/A" for every reading, the
    /// not-available icon for every weather icon, the sunrise and sunset
    /// icons, a 600 × 300 graph with no curves, and hidden diagnostics and
    /// debug information.
    pub open spec fn is_initial(self, colours: Colours, render_options: RenderOptions, icon_ctx: IconContext) -> bool {
        &&& self.has_initial_readings(colours, render_options, icon_ctx)
        &&& self.debug_info_visibility@ == ElementVisibility::Hidden.name()
        &&& self.debug_version@ == Seq::<char>::empty()
        &&& self.debug_provider@ == Seq::<char>::empty()
        &&& self.debug_location@ == Seq::<char>::empty()
        &&& self.debug_timezone@ == Seq::<char>::empty()
    }

    /// The initial values of every field but the debug information.
    pub open spec fn has_initial_readings(self, colours: Colours, render_options: RenderOptions, icon_ctx: IconContext) -> bool {
        &&& self.background_colour@ == colours.background_colour.view_colour()
        &&& self.text_colour@ == colours.text_colour.view_colour()
        &&& self.x_axis_colour@ == colours.x_axis_colour.view_colour()
        &&& self.y_left_axis_colour@ == colours.y_left_axis_colour.view_colour()
        &&& self.y_right_axis_colour@ == colours.y_right_axis_colour.view_colour()
        &&& self.actual_temp_colour@ == colours.actual_temp_colour.view_colour()
        &&& self.feels_like_colour@ == colours.feels_like_colour.view_colour()
        &&& self.rain_colour@ == colours.rain_colour.view_colour()
        &&& self.snow_colour@ == colours.snow_colour.view_colour()
        &&& self.max_uv_index@ == not_available_text()
        &&& self.max_uv_index_font_style@ == FontStyle::Normal.name()
        &&& self.max_gust_speed@ == not_available_text()
        &&& self.max_gust_speed_font_style@ == FontStyle::Normal.name()
        &&& self.max_relative_humidity@ == not_available_text()
        &&& self.max_relative_humidity_font_style@ == FontStyle::Normal.name()
        &&& self.total_rain_today@ == not_available_text()
        &&& self.temp_unit@ == render_options.temp_unit.name()
        &&& self.current_wind_speed_unit@ == render_options.wind_speed_unit.name()
        &&& self.current_hour_actual_temp@ == not_available_text()
        &&& self.current_hour_weather_icon@ == not_available_path_of(icon_ctx.svg_icons_directory@)
        &&& self.current_hour_feels_like@ == not_available_text()
        &&& self.current_hour_wind_speed@ == not_available_text()
        &&& self.current_hour_wind_icon@ == not_available_path_of(icon_ctx.svg_icons_directory@)
        &&& self.current_hour_uv_index@ == not_available_text()
        &&& self.current_hour_uv_index_icon@ == not_available_path_of(icon_ctx.svg_icons_directory@)
        &&& self.current_hour_relative_humidity@ == not_available_text()
        &&& self.current_hour_relative_humidity_icon@ == not_available_path_of(icon_ctx.svg_icons_directory@)
        &&& self.current_day_date@ == not_available_text()
        &&& self.current_hour_rain_amount@ == not_available_text()
        &&& self.sunset_time@ == not_available_text()
        &&& self.sunrise_time@ == not_available_text()
        &&& self.sunset_icon@ == join_path(icon_ctx.svg_icons_directory@, SunPositionIconName::Sunset.name())
        &&& self.sunrise_icon@ == join_path(icon_ctx.svg_icons_directory@, SunPositionIconName::Sunrise.name())
        &&& self.graph_height@ == "300"@
        &&& self.graph_width@ == "600"@
        &&& self.actual_temp_curve_data@ == Seq::<char>::empty()
        &&& self.feel_like_curve_data@ == Seq::<char>::empty()
        &&& self.rain_curve_data@ == Seq::<char>::empty()
        &&& self.x_axis_path@ == Seq::<char>::empty()
        &&& self.x_axis_guideline_path@ == Seq::<char>::empty()
        &&& self.y_left_axis_path@ == Seq::<char>::empty()
        &&& self.x_labels@ == Seq::<char>::empty()
        &&& self.y_left_labels@ == Seq::<char>::empty()
        &&& self.y_right_axis_path@ == Seq::<char>::empty()
        &&& self.y_right_labels@ == Seq::<char>::empty()
        &&& self.uv_gradient@ == Seq::<char>::empty()
        &&& self.day2_mintemp@ == not_available_text()
        &&& self.day2_maxtemp@ == not_available_text()
        &&& self.day2_icon@ == not_available_path_of(icon_ctx.svg_icons_directory@)
        &&& self.day2_name@ == not_available_text()
        &&& self.day3_mintemp@ == not_available_text()
        &&& self.day3_maxtemp@ == not_available_text()
        &&& self.day3_icon@ == not_available_path_of(icon_ctx.svg_icons_directory@)
        &&& self.day3_name@ == not_available_text()
        &&& self.day4_mintemp@ == not_available_text()
        &&& self.day4_maxtemp@ == not_available_text()
        &&& self.day4_icon@ == not_available_path_of(icon_ctx.svg_icons_directory@)
        &&& self.day4_name@ == not_available_text()
        &&& self.day5_mintemp@ == not_available_text()
        &&& self.day5_maxtemp@ == not_available_text()
        &&& self.day5_icon@ == not_available_path_of(icon_ctx.svg_icons_directory@)
        &&& self.day5_name@ == not_available_text()
        &&& self.day6_mintemp@ == not_available_text()
        &&& self.day6_maxtemp@ == not_available_text()
        &&& self.day6_icon@ == not_available_path_of(icon_ctx.svg_icons_directory@)
        &&& self.day6_name@ == not_available_text()
        &&& self.day7_mintemp@ == not_available_text()
        &&& self.day7_maxtemp@ == not_available_text()
        &&& self.day7_icon@ == not_available_path_of(icon_ctx.svg_icons_directory@)
        &&& self.day7_name@ == not_available_text()
        &&& self.diagnostic_message@ == not_available_text()
        &&& self.diagnostic_visibility@ == ElementVisibility::Hidden.name()
        &&& self.diagnostic_icons_svg@ == Seq::<char>::empty()
    }

    /// The initial values for the given colours, render options and icons.
    pub fn new(colours: &Colours, render_options: &RenderOptions, icon_ctx: &IconContext) -> (r: Context)
        ensures
            r.is_initial(*colours, *render_options, *icon_ctx),
    {
        let na_path = not_available_icon_path(icon_ctx.svg_icons_directory.as_str());
        Context {
            background_colour: owned(colours.background_colour.as_str()),
            text_colour: owned(colours.text_colour.as_str()),
            x_axis_colour: owned(colours.x_axis_colour.as_str()),
            y_left_axis_colour: owned(colours.y_left_axis_colour.as_str()),
            y_right_axis_colour: owned(colours.y_right_axis_colour.as_str()),
            actual_temp_colour: owned(colours.actual_temp_colour.as_str()),
            feels_like_colour: owned(colours.feels_like_colour.as_str()),
            rain_colour: owned(colours.rain_colour.as_str()),
            snow_colour: owned(colours.snow_colour.as_str()),
            max_uv_index: owned(NOT_AVAILABLE),
            max_uv_index_font_style: owned(FontStyle::Normal.as_str()),
            max_gust_speed: owned(NOT_AVAILABLE),
            max_gust_speed_font_style: owned(FontStyle::Normal.as_str()),
            max_relative_humidity: owned(NOT_AVAILABLE),
            max_relative_humidity_font_style: owned(FontStyle::Normal.as_str()),
            total_rain_today: owned(NOT_AVAILABLE),
            temp_unit: owned(render_options.temp_unit.as_str()),
            current_wind_speed_unit: owned(render_options.wind_speed_unit.as_str()),
            current_hour_actual_temp: owned(NOT_AVAILABLE),
            current_hour_weather_icon: na_path.clone(),
            current_hour_feels_like: owned(NOT_AVAILABLE),
            current_hour_wind_speed: owned(NOT_AVAILABLE),
            current_hour_wind_icon: na_path.clone(),
            current_hour_uv_index: owned(NOT_AVAILABLE),
            current_hour_uv_index_icon: na_path.clone(),
            current_hour_relative_humidity: owned(NOT_AVAILABLE),
            current_hour_relative_humidity_icon: na_path.clone(),
            current_day_date: owned(NOT_AVAILABLE),
            current_hour_rain_amount: owned(NOT_AVAILABLE),
            sunset_time: owned(NOT_AVAILABLE),
            sunrise_time: owned(NOT_AVAILABLE),
            sunset_icon: SunPositionIconName::Sunset.icon_path(icon_ctx),
            sunrise_icon: SunPositionIconName::Sunrise.icon_path(icon_ctx),
            graph_height: owned("300"),
            graph_width: owned("600"),
            actual_temp_curve_data: String::new(),
            feel_like_curve_data: String::new(),
            rain_curve_data: String::new(),
            x_axis_path: String::new(),
            x_axis_guideline_path: String::new(),
            y_left_axis_path: String::new(),
            x_labels: String::new(),
            y_left_labels: String::new(),
            y_right_axis_path: String::new(),
            y_right_labels: String::new(),
            uv_gradient: String::new(),
            day2_mintemp: owned(NOT_AVAILABLE),
            day2_maxtemp: owned(NOT_AVAILABLE),
            day2_icon: na_path.clone(),
            day2_name: owned(NOT_AVAILABLE),
            day3_mintemp: owned(NOT_AVAILABLE),
            day3_maxtemp: owned(NOT_AVAILABLE),
            day3_icon: na_path.clone(),
            day3_name: owned(NOT_AVAILABLE),
            day4_mintemp: owned(NOT_AVAILABLE),
            day4_maxtemp: owned(NOT_AVAILABLE),
            day4_icon: na_path.clone(),
            day4_name: owned(NOT_AVAILABLE),
            day5_mintemp: owned(NOT_AVAILABLE),
            day5_maxtemp: owned(NOT_AVAILABLE),
            day5_icon: na_path.clone(),
            day5_name: owned(NOT_AVAILABLE),
            day6_mintemp: owned(NOT_AVAILABLE),
            day6_maxtemp: owned(NOT_AVAILABLE),
            day6_icon: na_path.clone(),
            day6_name: owned(NOT_AVAILABLE),
            day7_mintemp: owned(NOT_AVAILABLE),
            day7_maxtemp: owned(NOT_AVAILABLE),
            day7_icon: na_path.clone(),
            day7_name: owned(NOT_AVAILABLE),
            diagnostic_message: owned(NOT_AVAILABLE),
            diagnostic_visibility: owned(ElementVisibility::Hidden.as_str()),
            diagnostic_icons_svg: String::new(),
            debug_info_visibility: owned(ElementVisibility::Hidden.as_str()),
            debug_version: String::new(),
            debug_provider: String::new(),
            debug_location: String::new(),
            debug_timezone: String::new(),
        }
    }
}

/// Picks which of today's and tomorrow's maximum governs the table: the
/// larger one, with ties and a missing today favouring tomorrow (shown in
/// italics). Returns `(value, is_from_tomorrow)`, or `None` when neither
/// window has data.
pub fn pick_today_or_tomorrow_max(today: Option<u16>, tomorrow: Option<u16>) -> (r: Option<(u16, bool)>)
    ensures
        r == (match (today, tomorrow) {
            (Some(t), Some(tm)) => if t > tm { Some((t, false)) } else { Some((tm, true)) },
            (Some(t), None) => Some((t, false)),
            (None, Some(tm)) => Some((tm, true)),
            (None, None) => None::<(u16, bool)>,
        }),
{
    match (today, tomorrow) {
        (Some(t), Some(tm)) => if t > tm { Some((t, false)) } else { Some((tm, true)) },
        (Some(t), None) => Some((t, false)),
        (None, Some(tm)) => Some((tm, true)),
        (None, None) => None,
    }
}

/// How many diagnostics in `d` have priority `p`.
pub open spec fn count_of(d: Seq<DashboardError>, p: DiagnosticPriority) -> nat
    decreases d.len(),
{
    if d.len() == 0 {
        0
    } else {
        count_of(d.drop_last(), p) + if d.last().spec_priority() == p { 1nat } else { 0nat }
    }
}

/// The highest priority present in `d` (low when `d` has none higher).
pub open spec fn highest_priority(d: Seq<DashboardError>) -> DiagnosticPriority {
    if count_of(d, DiagnosticPriority::High) > 0 {
        DiagnosticPriority::High
    } else if count_of(d, DiagnosticPriority::Medium) > 0 {
        DiagnosticPriority::Medium
    } else {
        DiagnosticPriority::Low
    }
}

/// The short description that belongs to each priority (each priority has
/// exactly one kind of diagnostic).
pub open spec fn priority_message(p: DiagnosticPriority) -> Seq<char> {
    match p {
        DiagnosticPriority::High => "API error -> Stale Data"@,
        DiagnosticPriority::Medium => "API unreachable -> Stale Data"@,
        DiagnosticPriority::Low => "Incomplete Data"@,
    }
}

/// The icon at position `i` once `d` is ordered from highest priority to
/// lowest (stably): first the API errors, then the network problems, then
/// the incomplete data.
pub open spec fn sorted_icon(d: Seq<DashboardError>, i: int) -> DashboardErrorIconName {
    if i < count_of(d, DiagnosticPriority::High) {
        DashboardErrorIconName::ApiError
    } else if i < count_of(d, DiagnosticPriority::High) + count_of(d, DiagnosticPriority::Medium) {
        DashboardErrorIconName::NoInternet
    } else {
        DashboardErrorIconName::IncompleteData
    }
}

/// The separator between the icon elements.
pub open spec fn cascade_separator() -> Seq<char> {
    "\n        "@
}

/// The SVG image element of the icon at sorted position `i`: each later
/// icon sits 5 units further left and 3 units further up, starting at
/// (63, -10), with a 74 × 74 icon.
pub open spec fn cascade_line(dir: Seq<char>, i: int, icon: DashboardErrorIconName) -> Seq<char> {
    "<image x=\""@ + int_to_decimal(63 - 5 * i) + "\" y=\""@ + int_to_decimal(-10 - 3 * i)
        + "\" width=\"74\" height=\"74\" href=\""@ + join_path(dir, icon.name()) + "\"/>"@
}

/// The cascading icons of `d`: one element per diagnostic, the lowest
/// priority first (drawn at the back) and the highest last (in front).
pub open spec fn cascade_svg(d: Seq<DashboardError>, dir: Seq<char>) -> Seq<char> {
    joined(cascade_lines(d, dir), cascade_separator())
}

/// The image elements of the cascade, in drawing order.
pub open spec fn cascade_lines(d: Seq<DashboardError>, dir: Seq<char>) -> Seq<Seq<char>> {
    let n = d.len() as int;
    Seq::new(n as nat, |j: int| cascade_line(dir, n - 1 - j, sorted_icon(d, n - 1 - j)))
}

/// The priority an icon stands for.
pub open spec fn icon_rank(icon: DashboardErrorIconName) -> nat {
    match icon {
        DashboardErrorIconName::IncompleteData => 1,
        DashboardErrorIconName::NoInternet => 2,
        DashboardErrorIconName::ApiError => 3,
    }
}

/// The icon drawn as the `j`-th element of the cascade.
pub open spec fn drawn_icon(d: Seq<DashboardError>, j: int) -> DashboardErrorIconName {
    sorted_icon(d, d.len() - 1 - j)
}

/// The cascade has one image element per diagnostic, and the icons are
/// drawn in non-decreasing priority, the highest last (in front); as many
/// icons of each priority are drawn as there are diagnostics of it.
pub proof fn lemma_cascade_one_image_per_diagnostic(d: Seq<DashboardError>, dir: Seq<char>)
    ensures
        cascade_svg(d, dir) == joined(cascade_lines(d, dir), cascade_separator()),
        cascade_lines(d, dir).len() == d.len(),
        forall|j: int| 0 <= j < d.len() ==> #[trigger] cascade_lines(d, dir)[j] == cascade_line(dir, d.len() - 1 - j, drawn_icon(d, j)),
        forall|j: int| 0 <= j < d.len() ==> has_prefix(#[trigger] cascade_lines(d, dir)[j], "<image "@),
        forall|j1: int, j2: int| 0 <= j1 <= j2 < d.len() ==> icon_rank(#[trigger] drawn_icon(d, j1)) <= icon_rank(#[trigger] drawn_icon(d, j2)),
        forall|j: int| 0 <= j < d.len() ==> (icon_rank(#[trigger] drawn_icon(d, j)) == 3
            <==> j >= d.len() - count_of(d, DiagnosticPriority::High)),
        forall|j: int| 0 <= j < d.len() ==> (icon_rank(#[trigger] drawn_icon(d, j)) == 1
            <==> j < d.len() - count_of(d, DiagnosticPriority::High) - count_of(d, DiagnosticPriority::Medium)),
{
    reveal_strlit("<image ");
    reveal_strlit("<image x=\"");
    assert forall|j: int| 0 <= j < d.len() implies has_prefix(#[trigger] cascade_lines(d, dir)[j], "<image "@) by {
        let line = cascade_lines(d, dir)[j];
        assert(line.subrange(0, 7) =~= "<image "@);
    }
}

/// The number of diagnostics whose icon positions still fit the 32-bit
/// coordinates the icons are laid out with.
pub open spec fn max_diagnostics() -> nat {
    429_496_730
}

/// Details shown when debug information is enabled.
#[derive(Debug, Clone)]
pub struct DebugDetails {
    /// The application's version, without the leading `v`.
    pub version: String,
    pub provider: Providers,
    /// The location, already rounded for privacy (e.g. `-37.8, 145.0`).
    pub location: String,
}

/// Fills a [`Context`] from forecasts and diagnostics.
pub struct ContextBuilder {
    icon_ctx: IconContext,
    /// IANA name of the dashboard's time zone.
    timezone: String,
    pub context: Context,
    diagnostics: Vec<DashboardError>,
}

impl ContextBuilder {
    /// The diagnostics recorded so far, in the order they were added.
    pub closed spec fn diagnostics_view(&self) -> Seq<DashboardError> {
        self.diagnostics@
    }

    /// The values filled in so far.
    pub closed spec fn context_view(&self) -> Context {
        self.context
    }

    /// The icon context the builder renders with.
    pub closed spec fn icon_context(&self) -> IconContext {
        self.icon_ctx
    }

    /// The time zone the builder renders local times in.
    pub closed spec fn timezone_view(&self) -> Seq<char> {
        self.timezone@
    }

    /// A builder for the given settings at the instant `now_utc_secs`, with no
    /// diagnostics. With debug details, the debug information is made
    /// visible: the version prefixed with `v`, the provider, the location and
    /// the time zone's UTC offset now (`%z`, empty when it cannot be rendered).
    pub fn new(
        colours: &Colours,
        icon_ctx: IconContext,
        timezone: &str,
        now_utc_secs: i64,
        debug: Option<DebugDetails>,
    ) -> (r: ContextBuilder)
        ensures
            r.diagnostics_view().len() == 0,
            r.icon_context() == icon_ctx,
            r.timezone_view() == timezone@,
            debug is None ==> r.context_view().is_initial(*colours, icon_ctx.render_options, icon_ctx),
            debug matches Some(dbg) ==> {
                &&& r.context_view().debug_info_visibility@ == ElementVisibility::Visible.name()
                &&& r.context_view().debug_version@ == "v"@ + dbg.version@
                &&& r.context_view().debug_provider@ == dbg.provider.name()
                &&& r.context_view().debug_location@ == dbg.location@
                &&& r.context_view().debug_timezone@ == match chrono_format_in_zone(now_utc_secs, timezone@, "%z"@) {
                    Some(t) => t,
                    None => Seq::<char>::empty(),
                }
                &&& r.context_view().has_initial_readings(*colours, icon_ctx.render_options, icon_ctx)
            },
    {
        let mut context = Context::new(colours, &icon_ctx.render_options, &icon_ctx);
        let ghost initial = context;
        match debug {
            Some(dbg) => {
                context.debug_info_visibility = owned(ElementVisibility::Visible.as_str());
                let mut version = owned("v");
                version.append(dbg.version.as_str());
                context.debug_version = version;
                context.debug_provider = owned(dbg.provider.as_str());
                context.debug_location = dbg.location;
                context.debug_timezone = match format_in_zone(now_utc_secs, timezone, "%z") {
                    Some(t) => t,
                    None => String::new(),
                };
            },
            None => {
                assert(context == initial);
            },
        }
        ContextBuilder { icon_ctx, timezone: owned(timezone), context, diagnostics: Vec::new() }
    }

    /// How many diagnostics of the API error, network and incomplete-data
    /// kinds have been recorded.
    fn priority_counts(&self) -> (r: (usize, usize))
        ensures
            r.0 == count_of(self.diagnostics@, DiagnosticPriority::High),
            r.1 == count_of(self.diagnostics@, DiagnosticPriority::Medium),
            r.0 + r.1 <= self.diagnostics@.len(),
    {
        let d = &self.diagnostics;
        let mut high: usize = 0;
        let mut medium: usize = 0;
        let mut i: usize = 0;
        while i < d.len()
            invariant
                i <= d.len(),
                high == count_of(d@.subrange(0, i as int), DiagnosticPriority::High),
                medium == count_of(d@.subrange(0, i as int), DiagnosticPriority::Medium),
                high + medium <= i,
            decreases d.len() - i,
        {
            assert(d@.subrange(0, i + 1).drop_last() =~= d@.subrange(0, i as int));
            match d[i].priority() {
                DiagnosticPriority::High => high = high + 1,
                DiagnosticPriority::Medium => medium = medium + 1,
                DiagnosticPriority::Low => {},
            }
            i = i + 1;
        }
        assert(d@.subrange(0, i as int) =~= d@);
        (high, medium)
    }

    /// Generates the SVG elements of the cascading diagnostic icons: sorted
    /// by priority from high to low, the lowest written first so that it
    /// appears at the back.
    fn generate_cascading_icons_svg(&self) -> (r: String)
        requires
            self.diagnostics@.len() <= max_diagnostics(),
        ensures
            r@ == cascade_svg(self.diagnostics@, self.icon_ctx.svg_icons_directory@),
    {
        let (high, medium) = self.priority_counts();
        let n = self.diagnostics.len();
        let dir = self.icon_ctx.svg_icons_directory.as_str();
        let ghost d = self.diagnostics@;
        let ghost lines = Seq::new(n as nat, |j: int| cascade_line(dir@, n - 1 - j, sorted_icon(d, n - 1 - j)));
        let mut out = String::new();
        let mut j: usize = 0;
        while j < n
            invariant
                n == d.len(),
                n <= max_diagnostics(),
                j <= n,
                high == count_of(d, DiagnosticPriority::High),
                medium == count_of(d, DiagnosticPriority::Medium),
                high + medium <= n,
                lines == Seq::new(n as nat, |j: int| cascade_line(dir@, n - 1 - j, sorted_icon(d, n - 1 - j))),
                out@ == joined(lines.take(j as int), cascade_separator()),
            decreases n - j,
        {
            let i = n - 1 - j;
            let icon = if i < high {
                DashboardErrorIconName::ApiError
            } else if i < high + medium {
                DashboardErrorIconName::NoInternet
            } else {
                DashboardErrorIconName::IncompleteData
            };
            let line = cascade_line_text(dir, i, icon);
            if j > 0 {
                out.append("\n        ");
            }
            out.append(line.as_str());
            proof {
                assert(lines.take(j + 1).drop_last() =~= lines.take(j as int));
                assert(lines.take(j + 1).last() == lines[j as int]);
                if j == 0 {
                    assert(out@ =~= joined(lines.take(1), cascade_separator()));
                }
            }
            j = j + 1;
        }
        assert(lines.take(n as int) =~= lines);
        out
    }

    /// Updates the warning display after a diagnostic was added: the message
    /// of the highest priority diagnostic, made visible, with the cascading
    /// icons of all of them.
    fn update_warning_display(&mut self)
        requires
            old(self).diagnostics@.len() > 0,
            old(self).diagnostics@.len() <= max_diagnostics(),
        ensures
            final(self).diagnostics == old(self).diagnostics,
            final(self).icon_ctx == old(self).icon_ctx,
            final(self).timezone == old(self).timezone,
            final(self).context == (Context {
                diagnostic_message: final(self).context.diagnostic_message,
                diagnostic_visibility: final(self).context.diagnostic_visibility,
                diagnostic_icons_svg: final(self).context.diagnostic_icons_svg,
                ..old(self).context
            }),
            final(self).context.diagnostic_message@ == priority_message(highest_priority(old(self).diagnostics@)),
            final(self).context.diagnostic_visibility@ == ElementVisibility::Visible.name(),
            final(self).context.diagnostic_icons_svg@
                == cascade_svg(old(self).diagnostics@, old(self).icon_ctx.svg_icons_directory@),
    {
        let (high, medium) = self.priority_counts();
        let message = if high > 0 {
            "API error -> Stale Data"
        } else if medium > 0 {
            "API unreachable -> Stale Data"
        } else {
            "Incomplete Data"
        };
        self.context.diagnostic_message = owned(message);
        self.context.diagnostic_visibility = owned(ElementVisibility::Visible.as_str());
        self.context.diagnostic_icons_svg = self.generate_cascading_icons_svg();
    }

    /// Records a diagnostic detected while building (such as incomplete
    /// forecast data) and shows the highest priority one.
    pub fn with_validation_error(&mut self, error: DashboardError)
        requires
            old(self).diagnostics_view().len() < max_diagnostics(),
        ensures
            final(self).shows_after(*old(self), error),
    {
        self.diagnostics.push(error);
        self.update_warning_display();
    }

    /// Records a warning from outside (such as stale data because the API
    /// was unreachable) and shows the highest priority diagnostic.
    pub fn with_warning(&mut self, warning: DashboardError)
        requires
            old(self).diagnostics_view().len() < max_diagnostics(),
        ensures
            final(self).shows_after(*old(self), warning),
    {
        self.diagnostics.push(warning);
        self.update_warning_display();
    }

    /// `self` is `before` with `added` recorded: the diagnostics gain it at
    /// the end, and the display shows the message of the highest priority,
    /// visible, with the cascading icons of all diagnostics; nothing else
    /// changes.
    pub open spec fn shows_after(self, before: ContextBuilder, added: DashboardError) -> bool {
        let d = before.diagnostics_view().push(added);
        &&& self.diagnostics_view() == d
        &&& self.icon_context() == before.icon_context()
        &&& self.timezone_view() == before.timezone_view()
        &&& self.context_view() == (Context {
            diagnostic_message: self.context_view().diagnostic_message,
            diagnostic_visibility: self.context_view().diagnostic_visibility,
            diagnostic_icons_svg: self.context_view().diagnostic_icons_svg,
            ..before.context_view()
        })
        &&& self.context_view().diagnostic_message@ == priority_message(highest_priority(d))
        &&& self.context_view().diagnostic_visibility@ == ElementVisibility::Visible.name()
        &&& self.context_view().diagnostic_icons_svg@ == cascade_svg(d, before.icon_context().svg_icons_directory@)
    }
}

/// Recording one more diagnostic adds one to the count of its priority.
pub proof fn lemma_count_push(d: Seq<DashboardError>, e: DashboardError, p: DiagnosticPriority)
    ensures
        count_of(d.push(e), p) == count_of(d, p) + if e.spec_priority() == p { 1nat } else { 0nat },
{
    assert(d.push(e).drop_last() =~= d);
}

/// Every diagnostic has exactly one of the three priorities.
pub proof fn lemma_counts_sum_to_len(d: Seq<DashboardError>)
    ensures
        count_of(d, DiagnosticPriority::High) + count_of(d, DiagnosticPriority::Medium)
            + count_of(d, DiagnosticPriority::Low) == d.len(),
    decreases d.len(),
{
    if d.len() > 0 {
        lemma_counts_sum_to_len(d.drop_last());
    }
}

/// A priority is counted exactly when some diagnostic has it.
pub proof fn lemma_count_positive_iff_present(d: Seq<DashboardError>, p: DiagnosticPriority)
    ensures
        count_of(d, p) > 0 <==> exists|i: int| 0 <= i < d.len() && (#[trigger] d[i]).spec_priority() == p,
    decreases d.len(),
{
    if d.len() > 0 {
        let e = d.drop_last();
        lemma_count_positive_iff_present(e, p);
        if count_of(e, p) > 0 {
            let i = choose|i: int| 0 <= i < e.len() && (#[trigger] e[i]).spec_priority() == p;
            assert(d[i] == e[i]);
        }
        if exists|i: int| 0 <= i < d.len() && (#[trigger] d[i]).spec_priority() == p {
            let i = choose|i: int| 0 <= i < d.len() && (#[trigger] d[i]).spec_priority() == p;
            if i < d.len() - 1 {
                assert(e[i] == d[i]);
            }
        }
    }
}

/// The diagnostic message shown is the short description of a recorded
/// diagnostic whose priority no other recorded diagnostic exceeds.
pub proof fn lemma_shown_message_is_highest_priority(d: Seq<DashboardError>)
    requires
        d.len() > 0,
    ensures
        exists|i: int| 0 <= i < d.len()
            && (#[trigger] d[i]).spec_short_description() == priority_message(highest_priority(d))
            && (forall|j: int| 0 <= j < d.len() ==> (#[trigger] d[j]).spec_priority().spec_rank() <= d[i].spec_priority().spec_rank()),
{
    lemma_count_positive_iff_present(d, DiagnosticPriority::High);
    lemma_count_positive_iff_present(d, DiagnosticPriority::Medium);
    lemma_count_positive_iff_present(d, DiagnosticPriority::Low);
    lemma_counts_sum_to_len(d);
    let p = highest_priority(d);
    let i = choose|i: int| 0 <= i < d.len() && (#[trigger] d[i]).spec_priority() == p;
    assert forall|j: int| 0 <= j < d.len() implies (#[trigger] d[j]).spec_priority().spec_rank() <= d[i].spec_priority().spec_rank() by {
        if d[j].spec_priority() == DiagnosticPriority::High {
            assert(count_of(d, DiagnosticPriority::High) > 0);
        }
        if d[j].spec_priority() == DiagnosticPriority::Medium {
            assert(count_of(d, DiagnosticPriority::Medium) > 0);
        }
    }
    assert(d[i].spec_short_description() == priority_message(p));
}

/// The warning display (message and icons) depends only on how many
/// diagnostics of each priority were recorded, not on their order or details.
pub proof fn lemma_display_depends_only_on_counts(d1: Seq<DashboardError>, d2: Seq<DashboardError>, dir: Seq<char>)
    requires
        count_of(d1, DiagnosticPriority::High) == count_of(d2, DiagnosticPriority::High),
        count_of(d1, DiagnosticPriority::Medium) == count_of(d2, DiagnosticPriority::Medium),
        count_of(d1, DiagnosticPriority::Low) == count_of(d2, DiagnosticPriority::Low),
    ensures
        priority_message(highest_priority(d1)) == priority_message(highest_priority(d2)),
        cascade_svg(d1, dir) == cascade_svg(d2, dir),
{
    lemma_counts_sum_to_len(d1);
    lemma_counts_sum_to_len(d2);
    let n = d1.len() as int;
    assert(Seq::new(n as nat, |j: int| cascade_line(dir, n - 1 - j, sorted_icon(d1, n - 1 - j)))
        =~= Seq::new(n as nat, |j: int| cascade_line(dir, n - 1 - j, sorted_icon(d2, n - 1 - j))));
}

/// The diagnostics of `m` that have priority `p`.
pub open spec fn of_priority(m: Multiset<DashboardError>, p: DiagnosticPriority) -> Multiset<DashboardError> {
    m.filter(|e: DashboardError| e.spec_priority() == p)
}

/// The number of diagnostics of a priority is that of the multiset of the
/// diagnostics, whatever their order.
proof fn lemma_count_of_multiset(d: Seq<DashboardError>, p: DiagnosticPriority)
    ensures
        count_of(d, p) == of_priority(d.to_multiset(), p).len(),
    decreases d.len(),
{
    broadcast use vstd::multiset::group_multiset_axioms;
    broadcast use vstd::seq_lib::group_to_multiset_ensures;
    if d.len() == 0 {
        assert(d.to_multiset() =~= Multiset::<DashboardError>::empty());
        assert(of_priority(d.to_multiset(), p) =~= Multiset::<DashboardError>::empty());
    } else {
        let rest = d.drop_last();
        let x = d.last();
        lemma_count_of_multiset(rest, p);
        assert(rest.push(x) =~= d);
        vstd::seq_lib::to_multiset_build(rest, x);
        let m = rest.to_multiset();
        if x.spec_priority() == p {
            assert(of_priority(m.insert(x), p) =~= of_priority(m, p).insert(x));
        } else {
            assert(of_priority(m.insert(x), p) =~= of_priority(m, p));
        }
    }
}

/// Diagnostics recorded in any order show the same message and the same
/// icons: the display depends only on which diagnostics were recorded.
pub proof fn lemma_display_independent_of_order(d1: Seq<DashboardError>, d2: Seq<DashboardError>, dir: Seq<char>)
    requires
        d1.to_multiset() == d2.to_multiset(),
    ensures
        priority_message(highest_priority(d1)) == priority_message(highest_priority(d2)),
        cascade_svg(d1, dir) == cascade_svg(d2, dir),
{
    lemma_count_of_multiset(d1, DiagnosticPriority::High);
    lemma_count_of_multiset(d2, DiagnosticPriority::High);
    lemma_count_of_multiset(d1, DiagnosticPriority::Medium);
    lemma_count_of_multiset(d2, DiagnosticPriority::Medium);
    lemma_count_of_multiset(d1, DiagnosticPriority::Low);
    lemma_count_of_multiset(d2, DiagnosticPriority::Low);
    lemma_display_depends_only_on_counts(d1, d2, dir);
}

/// Recording two diagnostics in either order shows the same message and
/// the same icons.
pub proof fn lemma_diagnostic_order_irrelevant(d: Seq<DashboardError>, a: DashboardError, b: DashboardError, dir: Seq<char>)
    ensures
        priority_message(highest_priority(d.push(a).push(b))) == priority_message(highest_priority(d.push(b).push(a))),
        cascade_svg(d.push(a).push(b), dir) == cascade_svg(d.push(b).push(a), dir),
{
    let ab = d.push(a).push(b);
    let ba = d.push(b).push(a);
    assert forall|p: DiagnosticPriority| count_of(ab, p) == count_of(ba, p) by {
        lemma_count_push(d, a, p);
        lemma_count_push(d, b, p);
        lemma_count_push(d.push(a), b, p);
        lemma_count_push(d.push(b), a, p);
    }
    assert(count_of(ab, DiagnosticPriority::Low) == count_of(ba, DiagnosticPriority::Low));
    assert(count_of(ab, DiagnosticPriority::Medium) == count_of(ba, DiagnosticPriority::Medium));
    assert(count_of(ab, DiagnosticPriority::High) == count_of(ba, DiagnosticPriority::High));
    lemma_display_depends_only_on_counts(ab, ba, dir);
}

/// The decimal text of a coordinate as written in the icon elements.
fn coordinate_text(v: i64) -> (r: String)
    ensures
        r@ == int_to_decimal(v as int),
{
    i64_to_string(v)
}

/// The image element of the icon at sorted position `i`.
fn cascade_line_text(dir: &str, i: usize, icon: DashboardErrorIconName) -> (r: String)
    requires
        i < max_diagnostics(),
    ensures
        r@ == cascade_line(dir@, i as int, icon),
{
    let ii = i as i64;
    let mut out = owned("<image x=\"");
    out.append(coordinate_text(63 - 5 * ii).as_str());
    out.append("\" y=\"");
    out.append(coordinate_text(-10 - 3 * ii).as_str());
    out.append("\" width=\"74\" height=\"74\" href=\"");
    out.append(icon_path_in(dir, icon.as_str()).as_str());
    out.append("\"/>");
    out
}

/// The forecast of `daily` for the calendar day `date`: the last one with
/// that date, as when later entries overwrite earlier ones in a map.
pub open spec fn forecast_for(daily: Seq<DailyForecast>, date: int) -> Option<DailyForecast>
    decreases daily.len(),
{
    if daily.len() == 0 {
        None
    } else if daily.last().date == Some(date as i32) {
        Some(daily.last())
    } else {
        forecast_for(daily.drop_last(), date)
    }
}

/// The forecast for day `k` (0 = today) of the seven-day window that starts
/// on `today`; none when today's date is unknown.
pub open spec fn window_forecast(daily: Seq<DailyForecast>, today: Option<i32>, k: int) -> Option<DailyForecast> {
    match today {
        Some(t) => forecast_for(daily, t + k),
        None => None,
    }
}

/// How many of the first `n` days of the window have no forecast.
pub open spec fn missing_in_window(daily: Seq<DailyForecast>, today: Option<i32>, n: nat) -> nat
    decreases n,
{
    if n == 0 {
        0
    } else {
        missing_in_window(daily, today, (n - 1) as nat)
            + if window_forecast(daily, today, n - 1) is None { 1nat } else { 0nat }
    }
}

/// A temperature as shown, or "N/A".
pub open spec fn temp_text(t: Option<i16>) -> Seq<char> {
    match t {
        Some(v) => int_to_decimal(v as int),
        None => not_available_text(),
    }
}

/// The lowest temperature of a day, or "N/A".
pub open spec fn min_temp_text(f: Option<DailyForecast>) -> Seq<char> {
    match f {
        Some(f) => temp_text(f.temp_min),
        None => not_available_text(),
    }
}

/// The highest temperature of a day, or "N/A".
pub open spec fn max_temp_text(f: Option<DailyForecast>) -> Seq<char> {
    match f {
        Some(f) => temp_text(f.temp_max),
        None => not_available_text(),
    }
}

/// The icon path of a day, or the not-available icon.
pub open spec fn day_icon_text(f: Option<DailyForecast>, ctx: IconContext) -> Seq<char> {
    match f {
        Some(f) => join_path(ctx.svg_icons_directory@, f.icon_name_of(&ctx)),
        None => not_available_path_of(ctx.svg_icons_directory@),
    }
}

/// The abbreviated weekday (`%a`) of the instant `k` days after `now` in
/// the time zone; the previous name when it cannot be rendered.
pub open spec fn day_name_text(before: Seq<char>, now: i64, tz: Seq<char>, k: int) -> Seq<char> {
    match chrono_format_in_zone((now + 86400 * k) as i64, tz, "%a"@) {
        Some(t) => t,
        None => before,
    }
}

/// A local wall-clock time as `%H:%M`, or "N/A".
pub open spec fn clock_text(t: Option<i64>) -> Seq<char> {
    match t {
        Some(s) => match chrono_format_utc(s, "%H:%M"@) {
            Some(x) => x,
            None => not_available_text(),
        },
        None => not_available_text(),
    }
}

/// Today's sunrise: the forecast's when it has astronomical data, else unchanged.
pub open spec fn sunrise_text(before: Seq<char>, f: Option<DailyForecast>) -> Seq<char> {
    match f {
        Some(f) => match f.astronomical {
            Some(a) => clock_text(a.sunrise_time),
            None => before,
        },
        None => before,
    }
}

/// Today's sunset: the forecast's when it has astronomical data, else unchanged.
pub open spec fn sunset_text(before: Seq<char>, f: Option<DailyForecast>) -> Seq<char> {
    match f {
        Some(f) => match f.astronomical {
            Some(a) => clock_text(a.sunset_time),
            None => before,
        },
        None => before,
    }
}

/// The details of the diagnostic raised for missing days.
pub open spec fn incomplete_days_details(missing: nat) -> Seq<char> {
    "Missing "@ + nat_to_decimal(missing) + " day(s) of daily forecast data, using incomplete data"@
}

/// The name shown for day `k` (1–6) of the window.
pub open spec fn day_name_of(c: Context, k: int) -> Seq<char> {
    if k == 1 {
        c.day2_name@
    } else if k == 2 {
        c.day3_name@
    } else if k == 3 {
        c.day4_name@
    } else if k == 4 {
        c.day5_name@
    } else if k == 5 {
        c.day6_name@
    } else if k == 6 {
        c.day7_name@
    } else {
        Seq::<char>::empty()
    }
}

/// `after` is `before` with day `k` (1–6) of the window shown as `name`,
/// `min`, `max` and `icon`, and nothing else changed.
pub open spec fn day_set(before: Context, after: Context, k: int, name: Seq<char>, min: Seq<char>, max: Seq<char>, icon: Seq<char>) -> bool {
    if k == 1 {
        &&& after == (Context { day2_name: after.day2_name, day2_mintemp: after.day2_mintemp, day2_maxtemp: after.day2_maxtemp, day2_icon: after.day2_icon, ..before })
        &&& after.day2_name@ == name
        &&& after.day2_mintemp@ == min
        &&& after.day2_maxtemp@ == max
        &&& after.day2_icon@ == icon
    } else if k == 2 {
        &&& after == (Context { day3_name: after.day3_name, day3_mintemp: after.day3_mintemp, day3_maxtemp: after.day3_maxtemp, day3_icon: after.day3_icon, ..before })
        &&& after.day3_name@ == name
        &&& after.day3_mintemp@ == min
        &&& after.day3_maxtemp@ == max
        &&& after.day3_icon@ == icon
    } else if k == 3 {
        &&& after == (Context { day4_name: after.day4_name, day4_mintemp: after.day4_mintemp, day4_maxtemp: after.day4_maxtemp, day4_icon: after.day4_icon, ..before })
        &&& after.day4_name@ == name
        &&& after.day4_mintemp@ == min
        &&& after.day4_maxtemp@ == max
        &&& after.day4_icon@ == icon
    } else if k == 4 {
        &&& after == (Context { day5_name: after.day5_name, day5_mintemp: after.day5_mintemp, day5_maxtemp: after.day5_maxtemp, day5_icon: after.day5_icon, ..before })
        &&& after.day5_name@ == name
        &&& after.day5_mintemp@ == min
        &&& after.day5_maxtemp@ == max
        &&& after.day5_icon@ == icon
    } else if k == 5 {
        &&& after == (Context { day6_name: after.day6_name, day6_mintemp: after.day6_mintemp, day6_maxtemp: after.day6_maxtemp, day6_icon: after.day6_icon, ..before })
        &&& after.day6_name@ == name
        &&& after.day6_mintemp@ == min
        &&& after.day6_maxtemp@ == max
        &&& after.day6_icon@ == icon
    } else if k == 6 {
        &&& after == (Context { day7_name: after.day7_name, day7_mintemp: after.day7_mintemp, day7_maxtemp: after.day7_maxtemp, day7_icon: after.day7_icon, ..before })
        &&& after.day7_name@ == name
        &&& after.day7_mintemp@ == min
        &&& after.day7_maxtemp@ == max
        &&& after.day7_icon@ == icon
    } else {
        false
    }
}

/// `after` is `before` once the daily forecasts `daily` were applied at
/// the instant `now`: the window is the seven local days from today; today
/// gives the sunrise and sunset, the six following days their name,
/// temperatures and icon ("N/A" and the not-available icon for a missing
/// day); when any day is missing, one incomplete-data diagnostic that counts
/// them is recorded and shown.
pub open spec fn daily_applied(before: ContextBuilder, after: ContextBuilder, daily: Seq<DailyForecast>, now: i64) -> bool {
    let today = chrono_local_days(now, before.timezone_view());
    let b = before.context_view();
    let a = after.context_view();
    let ctx = before.icon_context();
    let missing = missing_in_window(daily, today, 7);
    let d = after.diagnostics_view();
    &&& after.icon_context() == ctx
    &&& after.timezone_view() == before.timezone_view()
    &&& a == (Context { sunrise_time: a.sunrise_time, sunset_time: a.sunset_time, day2_name: a.day2_name, day2_mintemp: a.day2_mintemp, day2_maxtemp: a.day2_maxtemp, day2_icon: a.day2_icon, day3_name: a.day3_name, day3_mintemp: a.day3_mintemp, day3_maxtemp: a.day3_maxtemp, day3_icon: a.day3_icon, day4_name: a.day4_name, day4_mintemp: a.day4_mintemp, day4_maxtemp: a.day4_maxtemp, day4_icon: a.day4_icon, day5_name: a.day5_name, day5_mintemp: a.day5_mintemp, day5_maxtemp: a.day5_maxtemp, day5_icon: a.day5_icon, day6_name: a.day6_name, day6_mintemp: a.day6_mintemp, day6_maxtemp: a.day6_maxtemp, day6_icon: a.day6_icon, day7_name: a.day7_name, day7_mintemp: a.day7_mintemp, day7_maxtemp: a.day7_maxtemp, day7_icon: a.day7_icon, diagnostic_message: a.diagnostic_message, diagnostic_visibility: a.diagnostic_visibility, diagnostic_icons_svg: a.diagnostic_icons_svg, ..b })
    &&& a.sunrise_time@ == sunrise_text(b.sunrise_time@, window_forecast(daily, today, 0))
    &&& a.sunset_time@ == sunset_text(b.sunset_time@, window_forecast(daily, today, 0))
    &&& a.day2_name@ == day_name_text(b.day2_name@, now, before.timezone_view(), 1)
    &&& a.day2_mintemp@ == min_temp_text(window_forecast(daily, today, 1))
    &&& a.day2_maxtemp@ == max_temp_text(window_forecast(daily, today, 1))
    &&& a.day2_icon@ == day_icon_text(window_forecast(daily, today, 1), ctx)
    &&& a.day3_name@ == day_name_text(b.day3_name@, now, before.timezone_view(), 2)
    &&& a.day3_mintemp@ == min_temp_text(window_forecast(daily, today, 2))
    &&& a.day3_maxtemp@ == max_temp_text(window_forecast(daily, today, 2))
    &&& a.day3_icon@ == day_icon_text(window_forecast(daily, today, 2), ctx)
    &&& a.day4_name@ == day_name_text(b.day4_name@, now, before.timezone_view(), 3)
    &&& a.day4_mintemp@ == min_temp_text(window_forecast(daily, today, 3))
    &&& a.day4_maxtemp@ == max_temp_text(window_forecast(daily, today, 3))
    &&& a.day4_icon@ == day_icon_text(window_forecast(daily, today, 3), ctx)
    &&& a.day5_name@ == day_name_text(b.day5_name@, now, before.timezone_view(), 4)
    &&& a.day5_mintemp@ == min_temp_text(window_forecast(daily, today, 4))
    &&& a.day5_maxtemp@ == max_temp_text(window_forecast(daily, today, 4))
    &&& a.day5_icon@ == day_icon_text(window_forecast(daily, today, 4), ctx)
    &&& a.day6_name@ == day_name_text(b.day6_name@, now, before.timezone_view(), 5)
    &&& a.day6_mintemp@ == min_temp_text(window_forecast(daily, today, 5))
    &&& a.day6_maxtemp@ == max_temp_text(window_forecast(daily, today, 5))
    &&& a.day6_icon@ == day_icon_text(window_forecast(daily, today, 5), ctx)
    &&& a.day7_name@ == day_name_text(b.day7_name@, now, before.timezone_view(), 6)
    &&& a.day7_mintemp@ == min_temp_text(window_forecast(daily, today, 6))
    &&& a.day7_maxtemp@ == max_temp_text(window_forecast(daily, today, 6))
    &&& a.day7_icon@ == day_icon_text(window_forecast(daily, today, 6), ctx)
    &&& missing == 0 ==> {
        &&& d == before.diagnostics_view()
        &&& a.diagnostic_message == b.diagnostic_message
        &&& a.diagnostic_visibility == b.diagnostic_visibility
        &&& a.diagnostic_icons_svg == b.diagnostic_icons_svg
    }
    &&& missing > 0 ==> {
        &&& d.len() == before.diagnostics_view().len() + 1
        &&& d.drop_last() == before.diagnostics_view()
        &&& d.last() is IncompleteData
        &&& d.last().details_of() == incomplete_days_details(missing)
        &&& a.diagnostic_message@ == priority_message(highest_priority(d))
        &&& a.diagnostic_visibility@ == ElementVisibility::Visible.name()
        &&& a.diagnostic_icons_svg@ == cascade_svg(d, ctx.svg_icons_directory@)
    }
}

/// Whether `by_date` maps each date to the forecast `daily` holds for it.
pub open spec fn indexes_daily(by_date: Map<i32, DailyForecast>, daily: Seq<DailyForecast>) -> bool {
    &&& forall|d: i32| #[trigger] by_date.contains_key(d) <==> forecast_for(daily, d as int) is Some
    &&& forall|d: i32| by_date.contains_key(d) ==> Some(#[trigger] by_date[d]) == forecast_for(daily, d as int)
}

/// A forecast found for a date is one of the forecasts.
proof fn lemma_forecast_for_member(daily: Seq<DailyForecast>, date: int)
    ensures
        forecast_for(daily, date) matches Some(f) ==> exists|j: int| 0 <= j < daily.len() && daily[j] == f,
    decreases daily.len(),
{
    if daily.len() > 0 {
        lemma_forecast_for_member(daily.drop_last(), date);
        if forecast_for(daily, date) is Some && daily.last().date != Some(date as i32) {
            let f = forecast_for(daily, date)->0;
            let j = choose|j: int| 0 <= j < daily.drop_last().len() && daily.drop_last()[j] == f;
            assert(daily[j] == f);
        }
    }
}

/// Indexes the forecasts by date in a map; a later forecast for a date
/// replaces an earlier one.
fn forecasts_by_date(daily: &Vec<DailyForecast>) -> (m: HashMap<i32, DailyForecast>)
    ensures
        indexes_daily(m@, daily@),
{
    broadcast use vstd::std_specs::hash::group_hash_axioms;
    let mut m: HashMap<i32, DailyForecast> = HashMap::new();
    let mut i: usize = 0;
    while i < daily.len()
        invariant
            i <= daily.len(),
            indexes_daily(m@, daily@.subrange(0, i as int)),
        decreases daily.len() - i,
    {
        let ghost before = daily@.subrange(0, i as int);
        assert(daily@.subrange(0, i + 1).drop_last() =~= before);
        assert(daily@.subrange(0, i + 1).last() == daily@[i as int]);
        let f = daily[i];
        match f.date {
            Some(d) => {
                m.insert(d, f);
            },
            None => {},
        }
        i = i + 1;
    }
    assert(daily@.subrange(0, i as int) =~= daily@);
    m
}

/// A temperature as shown, or "N/A".
fn temp_label(t: Option<i16>) -> (r: String)
    ensures
        r@ == temp_text(t),
{
    match t {
        Some(v) => i64_to_string(v as i64),
        None => owned(NOT_AVAILABLE),
    }
}

/// A local wall-clock time as `%H:%M`, or "N/A".
fn clock_label(t: Option<i64>) -> (r: String)
    ensures
        r@ == clock_text(t),
{
    match t {
        Some(s) => match format_utc(s, "%H:%M") {
            Some(x) => x,
            None => owned(NOT_AVAILABLE),
        },
        None => owned(NOT_AVAILABLE),
    }
}

impl ContextBuilder {
    /// The forecast for day `k` of the window that starts on `today`.
    fn window_day(daily: &Vec<DailyForecast>, by_date: &HashMap<i32, DailyForecast>, today: Option<i32>, k: i32) -> (r: Option<DailyForecast>)
        requires
            indexes_daily(by_date@, daily@),
            today matches Some(t) ==> -100_000_000 < t < 100_000_000,
            0 <= k < 7,
        ensures
            r == window_forecast(daily@, today, k as int),
            r matches Some(f) ==> exists|j: int| 0 <= j < daily@.len() && daily@[j] == f,
    {
        broadcast use vstd::std_specs::hash::group_hash_axioms;
        match today {
            Some(t) => {
                proof {
                    lemma_forecast_for_member(daily@, (t + k) as int);
                }
                match by_date.get(&(t + k)) {
                    Some(f) => Some(*f),
                    None => None,
                }
            },
            None => None,
        }
    }

    /// Shows today's sunrise and sunset when the forecast has them.
    fn set_today(&mut self, f: Option<DailyForecast>)
        ensures
            final(self).diagnostics == old(self).diagnostics,
            final(self).icon_ctx == old(self).icon_ctx,
            final(self).timezone == old(self).timezone,
            final(self).context == (Context {
                sunrise_time: final(self).context.sunrise_time,
                sunset_time: final(self).context.sunset_time,
                ..old(self).context
            }),
            final(self).context.sunrise_time@ == sunrise_text(old(self).context.sunrise_time@, f),
            final(self).context.sunset_time@ == sunset_text(old(self).context.sunset_time@, f),
    {
        match f {
            Some(day) => match day.astronomical {
                Some(astro) => {
                    self.context.sunrise_time = clock_label(astro.sunrise_time);
                    self.context.sunset_time = clock_label(astro.sunset_time);
                },
                None => {},
            },
            None => {},
        }
    }

    /// Shows day `k` (1–6) of the window: its name when known, its
    /// temperatures and its icon.
    fn set_day(&mut self, k: usize, name: Option<String>, min: String, max: String, icon: String)
        requires
            1 <= k <= 6,
        ensures
            final(self).diagnostics == old(self).diagnostics,
            final(self).icon_ctx == old(self).icon_ctx,
            final(self).timezone == old(self).timezone,
            day_set(old(self).context, final(self).context, k as int,
                match name { Some(n) => n@, None => day_name_of(old(self).context, k as int) },
                min@, max@, icon@),
    {
        if k == 1 {
            match name {
                Some(n) => self.context.day2_name = n,
                None => {},
            }
            self.context.day2_mintemp = min;
            self.context.day2_maxtemp = max;
            self.context.day2_icon = icon;
        } else if k == 2 {
            match name {
                Some(n) => self.context.day3_name = n,
                None => {},
            }
            self.context.day3_mintemp = min;
            self.context.day3_maxtemp = max;
            self.context.day3_icon = icon;
        } else if k == 3 {
            match name {
                Some(n) => self.context.day4_name = n,
                None => {},
            }
            self.context.day4_mintemp = min;
            self.context.day4_maxtemp = max;
            self.context.day4_icon = icon;
        } else if k == 4 {
            match name {
                Some(n) => self.context.day5_name = n,
                None => {},
            }
            self.context.day5_mintemp = min;
            self.context.day5_maxtemp = max;
            self.context.day5_icon = icon;
        } else if k == 5 {
            match name {
                Some(n) => self.context.day6_name = n,
                None => {},
            }
            self.context.day6_mintemp = min;
            self.context.day6_maxtemp = max;
            self.context.day6_icon = icon;
        } else if k == 6 {
            match name {
                Some(n) => self.context.day7_name = n,
                None => {},
            }
            self.context.day7_mintemp = min;
            self.context.day7_maxtemp = max;
            self.context.day7_icon = icon;
        }
    }

    /// Fills day `k` (1–6) of the window from the forecasts; returns whether
    /// the day has no forecast.
    fn fill_day(&mut self, daily: &Vec<DailyForecast>, by_date: &HashMap<i32, DailyForecast>, today: Option<i32>, now_utc_secs: i64, k: usize) -> (missing: bool)
        requires
            indexes_daily(by_date@, daily@),
            1 <= k <= 6,
            in_chrono_range(now_utc_secs),
            today matches Some(t) ==> -100_000_000 < t < 100_000_000,
        ensures
            final(self).diagnostics == old(self).diagnostics,
            final(self).icon_ctx == old(self).icon_ctx,
            final(self).timezone == old(self).timezone,
            missing == window_forecast(daily@, today, k as int) is None,
            day_set(old(self).context, final(self).context, k as int,
                day_name_text(day_name_of(old(self).context, k as int), now_utc_secs, old(self).timezone@, k as int),
                min_temp_text(window_forecast(daily@, today, k as int)),
                max_temp_text(window_forecast(daily@, today, k as int)),
                day_icon_text(window_forecast(daily@, today, k as int), old(self).icon_ctx)),
    {
        let f = Self::window_day(daily, by_date, today, k as i32);
        let at = now_utc_secs + 86400 * (k as i64);
        let name = format_in_zone(at, self.timezone.as_str(), "%a");
        let (min, max, icon) = match f {
            Some(day) => (temp_label(day.temp_min), temp_label(day.temp_max), day.icon_path(&self.icon_ctx)),
            None => (
                owned(NOT_AVAILABLE),
                owned(NOT_AVAILABLE),
                not_available_icon_path(self.icon_ctx.svg_icons_directory.as_str()),
            ),
        };
        self.set_day(k, name, min, max, icon);
        f.is_none()
    }

    /// Applies the daily forecasts at the instant `now_utc_secs`: the window
    /// is the seven local days from today; today gives the sunrise and
    /// sunset, the six following days their name, temperatures and icon;
    /// missing days are shown as "N/A" and reported once as incomplete data.
    pub fn with_daily_forecast_data(&mut self, daily_forecast_data: Vec<DailyForecast>, now_utc_secs: i64)
        requires
            in_chrono_range(now_utc_secs),
            old(self).diagnostics_view().len() < max_diagnostics(),
        ensures
            daily_applied(*old(self), *final(self), daily_forecast_data@, now_utc_secs),
    {
        let daily = &daily_forecast_data;
        let today = local_days_from_ce(now_utc_secs, self.timezone.as_str());
        let by_date = forecasts_by_date(daily);
        let f0 = Self::window_day(daily, &by_date, today, 0);
        self.set_today(f0);
        let mut missing: u64 = if f0.is_none() { 1 } else { 0 };
        if self.fill_day(daily, &by_date, today, now_utc_secs, 1) { missing = missing + 1; }
        if self.fill_day(daily, &by_date, today, now_utc_secs, 2) { missing = missing + 1; }
        if self.fill_day(daily, &by_date, today, now_utc_secs, 3) { missing = missing + 1; }
        if self.fill_day(daily, &by_date, today, now_utc_secs, 4) { missing = missing + 1; }
        if self.fill_day(daily, &by_date, today, now_utc_secs, 5) { missing = missing + 1; }
        if self.fill_day(daily, &by_date, today, now_utc_secs, 6) { missing = missing + 1; }
        proof {
            reveal_with_fuel(missing_in_window, 8);
        }
        if missing > 0 {
            let mut details = owned("Missing ");
            details.append(u64_to_string(missing).as_str());
            details.append(" day(s) of daily forecast data, using incomplete data");
            let ghost before = self.diagnostics@;
            self.with_validation_error(DashboardError::IncompleteData { details });
            assert(self.diagnostics@.drop_last() =~= before);
        }
    }
}

/// The start of the UTC hour that contains the instant `t`.
pub open spec fn hour_start(t: int) -> int {
    t - t % 3600
}

/// The UTC calendar day (days since 1970-01-01) that contains the instant `t`.
pub open spec fn utc_day(t: int) -> int {
    t / 86400
}

/// The times of the hourly forecasts.
pub open spec fn hourly_times(hourly: Seq<HourlyForecast>) -> Seq<i64> {
    hourly.map_values(|f: HourlyForecast| f.time)
}

/// The first of `times` at or after `t`.
pub open spec fn first_at_or_after(times: Seq<i64>, t: int) -> Option<i64>
    decreases times.len(),
{
    if times.len() == 0 {
        None
    } else if times[0] >= t {
        Some(times[0])
    } else {
        first_at_or_after(times.drop_first(), t)
    }
}

/// The 24-hour forecast window at the instant `now`: it starts at the first
/// forecast at or after the current UTC hour, provided that forecast is
/// still on today's UTC date.
pub open spec fn forecast_window(hourly: Seq<HourlyForecast>, now: i64) -> Option<(i64, i64)> {
    let current = hour_start(now as int);
    match first_at_or_after(hourly_times(hourly), current) {
        Some(f) => if utc_day(f as int) == utc_day(current) { Some((f, (f + 86400) as i64)) } else { None },
        None => None,
    }
}

/// The first forecast whose time lies in `[start, end)`.
pub open spec fn first_in_window(hourly: Seq<HourlyForecast>, start: i64, end: i64) -> Option<HourlyForecast>
    decreases hourly.len(),
{
    if hourly.len() == 0 {
        None
    } else if start <= hourly[0].time && hourly[0].time < end {
        Some(hourly[0])
    } else {
        first_in_window(hourly.drop_first(), start, end)
    }
}

/// An amount in half-millimetres as `f32` shows it: whole numbers without a
/// fraction, halves with `.5`.
pub open spec fn halves_text(h: nat) -> Seq<char> {
    if h % 2 == 0 {
        nat_to_decimal(h / 2)
    } else {
        nat_to_decimal(h / 2) + ".5"@
    }
}

/// Today's or tomorrow's maximum by the table's rule: the larger, with
/// ties and a missing today going to tomorrow (`true`).
pub open spec fn picked(today: Option<i64>, tomorrow: Option<i64>) -> Option<(i64, bool)> {
    match (today, tomorrow) {
        (Some(t), Some(tm)) => if t > tm { Some((t, false)) } else { Some((tm, true)) },
        (Some(t), None) => Some((t, false)),
        (None, Some(tm)) => Some((tm, true)),
        (None, None) => None,
    }
}

/// The value that governs a table cell: the maximum of `values` today
/// (`[start, day_end)`) against tomorrow (`[day_end, end)`).
pub open spec fn split_max(hourly: Seq<HourlyForecast>, values: Seq<i64>, start: i64, day_end: i64, end: i64) -> Option<(i64, bool)> {
    picked(
        max_in_window(hourly_times(hourly), values, start, day_end),
        max_in_window(hourly_times(hourly), values, day_end, end),
    )
}

/// One reading of every forecast, in order (see [`reading`]).
pub open spec fn readings(hourly: Seq<HourlyForecast>, which: u8, use_gust: bool) -> Seq<i64> {
    hourly.map_values(|f: HourlyForecast| reading(f, which, use_gust))
}

/// The text of a table maximum, or "N/A" when neither day has data.
pub open spec fn max_text(m: Option<(i64, bool)>) -> Seq<char> {
    match m {
        Some((v, _)) => nat_to_decimal(v as nat),
        None => not_available_text(),
    }
}

/// The font style of a table maximum: italics when it comes from tomorrow,
/// otherwise unchanged.
pub open spec fn max_style(before: Seq<char>, m: Option<(i64, bool)>) -> Seq<char> {
    match m {
        Some((_, true)) => FontStyle::Italic.name(),
        _ => before,
    }
}

/// The text of the wind maximum, converted to the display unit.
pub open spec fn wind_max_text(m: Option<(i64, bool)>, unit: WindSpeedUnit) -> Seq<char> {
    match m {
        Some((v, _)) => nat_to_decimal(converted_speed(v as u16, unit)),
        None => not_available_text(),
    }
}

/// The details of the diagnostic raised when no hourly window exists.
pub open spec fn no_hourly_window_details() -> Seq<char> {
    "No hourly forecast data available, Could Not find a date later than the current date"@
}

/// `after` is `before` with one incomplete-data diagnostic with `details`
/// recorded and shown, and nothing else changed.
pub open spec fn incomplete_recorded(before: ContextBuilder, after: ContextBuilder, details: Seq<char>) -> bool {
    let b = before.context_view();
    let a = after.context_view();
    let d = after.diagnostics_view();
    &&& after.icon_context() == before.icon_context()
    &&& after.timezone_view() == before.timezone_view()
    &&& a == (Context {
        diagnostic_message: a.diagnostic_message,
        diagnostic_visibility: a.diagnostic_visibility,
        diagnostic_icons_svg: a.diagnostic_icons_svg,
        ..b
    })
    &&& d.len() == before.diagnostics_view().len() + 1
    &&& d.drop_last() == before.diagnostics_view()
    &&& d.last() is IncompleteData
    &&& d.last().details_of() == details
    &&& a.diagnostic_message@ == priority_message(highest_priority(d))
    &&& a.diagnostic_visibility@ == ElementVisibility::Visible.name()
    &&& a.diagnostic_icons_svg@ == cascade_svg(d, before.icon_context().svg_icons_directory@)
}

/// The current hour's readings and icons in `a`, from `cur`, at the instant `now`.
pub open spec fn current_hour_shown(b: Context, a: Context, cur: HourlyForecast, ctx: IconContext, tz: Seq<char>, now: i64) -> bool {
    let dir = ctx.svg_icons_directory@;
    let opts = ctx.render_options;
    &&& a.current_hour_actual_temp@ == int_to_decimal(cur.temperature as int)
    &&& a.current_hour_weather_icon@ == join_path(dir, cur.icon_name_of(&ctx))
    &&& a.current_hour_feels_like@ == int_to_decimal(cur.apparent_temperature as int)
    &&& a.current_day_date@ == match chrono_format_in_zone(now, tz, opts.date_format.view_format()) {
        Some(t) => t,
        None => b.current_day_date@,
    }
    &&& a.current_hour_rain_amount@ == halves_text(cur.precipitation.amount_halves())
    &&& a.current_hour_wind_speed@ == nat_to_decimal(converted_speed(cur.wind.spec_speed(opts.use_gust_instead_of_wind), opts.wind_speed_unit))
    &&& a.current_hour_wind_icon@ == join_path(dir, cur.wind.icon_name_of(&ctx))
    &&& a.current_hour_uv_index@ == nat_to_decimal(cur.uv_index as nat)
    &&& a.current_hour_uv_index_icon@ == join_path(dir, UVIndexIcon::spec_from(cur.uv_index).name())
    &&& a.current_hour_relative_humidity@ == nat_to_decimal(cur.relative_humidity as nat)
    &&& a.current_hour_relative_humidity_icon@ == join_path(dir, HumidityIconName::spec_from(cur.relative_humidity).name())
}

/// The current hour's fields of `a` are those of `b`.
pub open spec fn current_hour_unchanged(b: Context, a: Context) -> bool {
    &&& a.current_hour_actual_temp == b.current_hour_actual_temp
    &&& a.current_hour_weather_icon == b.current_hour_weather_icon
    &&& a.current_hour_feels_like == b.current_hour_feels_like
    &&& a.current_day_date == b.current_day_date
    &&& a.current_hour_rain_amount == b.current_hour_rain_amount
    &&& a.current_hour_wind_speed == b.current_hour_wind_speed
    &&& a.current_hour_wind_icon == b.current_hour_wind_icon
    &&& a.current_hour_uv_index == b.current_hour_uv_index
    &&& a.current_hour_uv_index_icon == b.current_hour_uv_index_icon
    &&& a.current_hour_relative_humidity == b.current_hour_relative_humidity
    &&& a.current_hour_relative_humidity_icon == b.current_hour_relative_humidity_icon
}

/// `a` is `b` with only the current hour's fields, the table maxima and
/// today's rain total changed.
pub open spec fn only_hourly_fields_changed(b: Context, a: Context) -> bool {
    a == (Context {
        current_hour_actual_temp: a.current_hour_actual_temp,
        current_hour_weather_icon: a.current_hour_weather_icon,
        current_hour_feels_like: a.current_hour_feels_like,
        current_day_date: a.current_day_date,
        current_hour_rain_amount: a.current_hour_rain_amount,
        current_hour_wind_speed: a.current_hour_wind_speed,
        current_hour_wind_icon: a.current_hour_wind_icon,
        current_hour_uv_index: a.current_hour_uv_index,
        current_hour_uv_index_icon: a.current_hour_uv_index_icon,
        current_hour_relative_humidity: a.current_hour_relative_humidity,
        current_hour_relative_humidity_icon: a.current_hour_relative_humidity_icon,
        max_gust_speed: a.max_gust_speed,
        max_gust_speed_font_style: a.max_gust_speed_font_style,
        max_uv_index: a.max_uv_index,
        max_uv_index_font_style: a.max_uv_index_font_style,
        max_relative_humidity: a.max_relative_humidity,
        max_relative_humidity_font_style: a.max_relative_humidity_font_style,
        total_rain_today: a.total_rain_today,
        ..b
    })
}

/// `after` is `before` once the hourly forecasts were applied at `now`.
/// Without a 24-hour window, an incomplete-data diagnostic is recorded.
/// With one whose local day end cannot be resolved, nothing changes and
/// `applied` is false. Otherwise the first forecast of the window gives the
/// current hour, the table shows the larger of today's and tomorrow's
/// maxima of wind, UV and humidity (italic when tomorrow's), and today's
/// rain is the total over the window.
pub open spec fn hourly_applied(before: ContextBuilder, after: ContextBuilder, hourly: Seq<HourlyForecast>, now: i64, applied: bool) -> bool {
    let b = before.context_view();
    let a = after.context_view();
    let ctx = before.icon_context();
    let tz = before.timezone_view();
    let opts = ctx.render_options;
    match forecast_window(hourly, now) {
        None => applied && incomplete_recorded(before, after, no_hourly_window_details()),
        Some((start, end)) => match local_day_end(start, tz) {
            None => {
                &&& !applied
                &&& a == b
                &&& after.diagnostics_view() == before.diagnostics_view()
                &&& after.icon_context() == ctx
                &&& after.timezone_view() == tz
            },
            Some(day_end) => {
                let wind = split_max(hourly, readings(hourly, 0, opts.use_gust_instead_of_wind), start, day_end, end);
                let uv = split_max(hourly, readings(hourly, 1, false), start, day_end, end);
                let humidity = split_max(hourly, readings(hourly, 2, false), start, day_end, end);
                &&& applied
                &&& after.diagnostics_view() == before.diagnostics_view()
                &&& after.icon_context() == ctx
                &&& after.timezone_view() == tz
                &&& only_hourly_fields_changed(b, a)
                &&& match first_in_window(hourly, start, end) {
                    Some(cur) => current_hour_shown(b, a, cur, ctx, tz, now),
                    None => current_hour_unchanged(b, a),
                }
                &&& a.max_gust_speed@ == wind_max_text(wind, opts.wind_speed_unit)
                &&& a.max_gust_speed_font_style@ == max_style(b.max_gust_speed_font_style@, wind)
                &&& a.max_uv_index@ == max_text(uv)
                &&& a.max_uv_index_font_style@ == max_style(b.max_uv_index_font_style@, uv)
                &&& a.max_relative_humidity@ == max_text(humidity)
                &&& a.max_relative_humidity_font_style@ == max_style(b.max_relative_humidity_font_style@, humidity)
                &&& a.total_rain_today@ == halves_text(total_in_window(hourly_times(hourly), readings(hourly, 3, false), start, end) as nat)
            },
        },
    }
}

/// The end of the local day of the instant `start` in the zone `tz`: 24
/// hours after that day's local midnight, when the midnight exists.
pub open spec fn local_day_end(start: i64, tz: Seq<char>) -> Option<i64> {
    match chrono_local_midnight(start, tz) {
        Some(m) => if m + 86400 <= i64::MAX { Some((m + 86400) as i64) } else { None },
        None => None,
    }
}

/// Computes the end of the local day of `start` in the zone `tz`.
fn day_end_of(start: i64, tz: &str) -> (r: Option<i64>)
    ensures
        r == local_day_end(start, tz@),
{
    match local_midnight(start, tz) {
        Some(m) => m.checked_add(86400),
        None => None,
    }
}

/// Finds the 24-hour forecast window at the instant `now_utc_secs`: from
/// the first forecast at or after the current UTC hour, if that forecast is
/// on today's UTC date, for 24 hours.
pub fn find_forecast_window(hourly_forecast_data: &Vec<HourlyForecast>, now_utc_secs: i64) -> (r: Option<(i64, i64)>)
    requires
        in_chrono_range(now_utc_secs),
    ensures
        r == forecast_window(hourly_forecast_data@, now_utc_secs),
{
    let shift: i64 = 8_640_000_000_000;
    let shifted: u64 = (now_utc_secs + shift) as u64;
    let current: i64 = now_utc_secs - (shifted % 3600) as i64;
    let day_start: i64 = now_utc_secs - (shifted % 86400) as i64;
    proof {
        let n = now_utc_secs as int;
        assert(shifted as int == n + 3600 * 2_400_000_000);
        assert(shifted as int == n + 86400 * 100_000_000);
        assert((n + 3600 * 2_400_000_000) % 3600 == n % 3600) by (nonlinear_arith);
        assert((n + 86400 * 100_000_000) % 86400 == n % 86400) by (nonlinear_arith);
    }
    assert(current as int == hour_start(now_utc_secs as int));
    assert(day_start as int == now_utc_secs as int - (now_utc_secs as int) % 86400);
    let ghost times = hourly_times(hourly_forecast_data@);
    assert(times.skip(0) =~= times);
    let mut i: usize = 0;
    while i < hourly_forecast_data.len()
        invariant
            i <= hourly_forecast_data.len(),
            times == hourly_times(hourly_forecast_data@),
            current as int == hour_start(now_utc_secs as int),
            day_start as int == now_utc_secs as int - (now_utc_secs as int) % 86400,
            in_chrono_range(now_utc_secs),
            first_at_or_after(times, current as int) == first_at_or_after(times.skip(i as int), current as int),
        decreases hourly_forecast_data.len() - i,
    {
        let t = hourly_forecast_data[i].time;
        assert(times.skip(i as int)[0] == t);
        if t >= current {
            let same_day = t < day_start + 86400;
            proof {
                let n = now_utc_secs as int;
                let c = current as int;
                assert(c == n - n % 3600);
                assert(utc_day(c) == utc_day(n) && n - n % 86400 <= c) by (nonlinear_arith)
                    requires
                        c == n - n % 3600,
                {
                }
                assert(same_day <==> utc_day(t as int) == utc_day(c)) by (nonlinear_arith)
                    requires
                        t as int >= c,
                        n - n % 86400 <= c,
                        utc_day(c) == utc_day(n),
                        day_start as int == n - n % 86400,
                        same_day == (t < day_start + 86400),
                {
                }
            }
            if same_day {
                return Some((t, t + 86400));
            } else {
                return None;
            }
        }
        assert(times.skip(i as int).drop_first() =~= times.skip(i + 1));
        i = i + 1;
    }
    None
}

/// The first forecast whose time lies in `[start, end)`.
fn first_forecast_in_window(hourly: &Vec<HourlyForecast>, start: i64, end: i64) -> (r: Option<HourlyForecast>)
    ensures
        r == first_in_window(hourly@, start, end),
        r matches Some(f) ==> exists|j: int| 0 <= j < hourly@.len() && hourly@[j] == f,
{
    assert(hourly@.skip(0) =~= hourly@);
    let mut i: usize = 0;
    while i < hourly.len()
        invariant
            i <= hourly.len(),
            first_in_window(hourly@, start, end) == first_in_window(hourly@.skip(i as int), start, end),
        decreases hourly.len() - i,
    {
        let f = hourly[i];
        assert(hourly@.skip(i as int)[0] == f);
        if start <= f.time && f.time < end {
            return Some(f);
        }
        assert(hourly@.skip(i as int).drop_first() =~= hourly@.skip(i + 1));
        i = i + 1;
    }
    None
}

/// An amount in half-millimetres as `f32` shows it.
fn halves_label(h: u128) -> (r: String)
    ensures
        r@ == halves_text(h as nat),
{
    let mut s = u128_to_string(h / 2);
    if h % 2 == 1 {
        s.append(".5");
    }
    s
}

/// A total of values in `[0, hi]` lies in `[0, len × hi]`.
proof fn lemma_total_in_window_bounds(times: Seq<i64>, values: Seq<i64>, start: i64, end: i64, hi: int)
    requires
        times.len() == values.len(),
        hi >= 0,
        forall|i: int| 0 <= i < values.len() ==> 0 <= #[trigger] values[i] <= hi,
    ensures
        0 <= total_in_window(times, values, start, end) <= times.len() * hi,
    decreases times.len(),
{
    if times.len() > 0 {
        let n = times.len() - 1;
        let v2 = values.subrange(0, n as int);
        assert forall|i: int| 0 <= i < v2.len() implies 0 <= #[trigger] v2[i] <= hi by {
            assert(v2[i] == values[i]);
        }
        lemma_total_in_window_bounds(times.drop_last(), v2, start, end, hi);
        assert(0 <= values[n as int] <= hi);
        assert((times.len() - 1) * hi + hi == times.len() * hi) by (nonlinear_arith);
    }
}

/// The times of the forecasts.
fn times_of(hourly: &Vec<HourlyForecast>) -> (r: Vec<i64>)
    ensures
        r@ == hourly_times(hourly@),
{
    let mut r: Vec<i64> = Vec::new();
    let mut i: usize = 0;
    while i < hourly.len()
        invariant
            i <= hourly.len(),
            r@ == hourly_times(hourly@.subrange(0, i as int)),
        decreases hourly.len() - i,
    {
        r.push(hourly[i].time);
        i = i + 1;
        assert(r@ =~= hourly_times(hourly@.subrange(0, i as int)));
    }
    assert(hourly@.subrange(0, i as int) =~= hourly@);
    r
}

/// One reading of every forecast: 0 the wind speed (gusts when `use_gust`),
/// 1 the UV index, 2 the relative humidity, 3 the precipitation amount in
/// half-millimetres.
pub open spec fn reading(f: HourlyForecast, which: u8, use_gust: bool) -> i64 {
    if which == 0 {
        f.wind.spec_speed(use_gust) as i64
    } else if which == 1 {
        f.uv_index as i64
    } else if which == 2 {
        f.relative_humidity as i64
    } else {
        f.precipitation.amount_halves() as i64
    }
}

/// One reading of every forecast, in order.
fn readings_of(hourly: &Vec<HourlyForecast>, which: u8, use_gust: bool) -> (r: Vec<i64>)
    requires
        which <= 3,
    ensures
        r@ == readings(hourly@, which, use_gust),
        forall|i: int| 0 <= i < r@.len() ==> 0 <= #[trigger] r@[i] <= 131070,
        which < 3 ==> forall|i: int| 0 <= i < r@.len() ==> 0 <= #[trigger] r@[i] <= 65535,
{
    let mut r: Vec<i64> = Vec::new();
    let mut i: usize = 0;
    while i < hourly.len()
        invariant
            i <= hourly.len(),
            which <= 3,
                r@ == hourly@.subrange(0, i as int).map_values(|f: HourlyForecast| reading(f, which, use_gust)),
            forall|k: int| 0 <= k < r@.len() ==> 0 <= #[trigger] r@[k] <= 131070,
            which < 3 ==> forall|k: int| 0 <= k < r@.len() ==> 0 <= #[trigger] r@[k] <= 65535,
        decreases hourly.len() - i,
    {
        let f = hourly[i];
        let v: i64 = if which == 0 {
            f.wind.speed(use_gust) as i64
        } else if which == 1 {
            f.uv_index as i64
        } else if which == 2 {
            f.relative_humidity as i64
        } else {
            f.precipitation.amount_in_halves() as i64
        };
        r.push(v);
        i = i + 1;
        assert(r@ =~= hourly@.subrange(0, i as int).map_values(|f: HourlyForecast| reading(f, which, use_gust)));
    }
    assert(hourly@.subrange(0, i as int) =~= hourly@);
    assert(r@ =~= readings(hourly@, which, use_gust));
    r
}

/// The maximum of a window as a `u16`, when the values are `u16` readings.
fn window_max(times: &Vec<i64>, values: &Vec<i64>, start: i64, end: i64) -> (r: Option<u16>)
    requires
        times.len() == values.len(),
        forall|i: int| 0 <= i < values@.len() ==> 0 <= #[trigger] values@[i] <= 65535,
    ensures
        match r {
            Some(v) => max_in_window(times@, values@, start, end) == Some(v as i64),
            None => max_in_window(times@, values@, start, end) is None,
        },
{
    let m = find_max_item_between_dates(times, values, start, end);
    proof {
        lemma_max_in_window_is_max(times@, values@, start, end);
    }
    match m {
        Some(v) => {
            assert(0 <= v <= 65535);
            Some(v as u16)
        },
        None => None,
    }
}

/// The table value of a reading: the larger of today's and tomorrow's maxima.
fn table_max(times: &Vec<i64>, values: &Vec<i64>, start: i64, day_end: i64, end: i64) -> (r: Option<(u16, bool)>)
    requires
        times.len() == values.len(),
        forall|i: int| 0 <= i < values@.len() ==> 0 <= #[trigger] values@[i] <= 65535,
    ensures
        match r {
            Some((v, b)) => picked(max_in_window(times@, values@, start, day_end), max_in_window(times@, values@, day_end, end)) == Some((v as i64, b)),
            None => picked(max_in_window(times@, values@, start, day_end), max_in_window(times@, values@, day_end, end)) is None,
        },
{
    let today = window_max(times, values, start, day_end);
    let tomorrow = window_max(times, values, day_end, end);
    pick_today_or_tomorrow_max(today, tomorrow)
}

impl ContextBuilder {
    /// Shows the current hour's readings and icons, and today's date in
    /// the configured format (unchanged when it cannot be rendered).
    fn show_current_hour(&mut self, cur: HourlyForecast, now_utc_secs: i64)
        ensures
            final(self).diagnostics == old(self).diagnostics,
            final(self).icon_ctx == old(self).icon_ctx,
            final(self).timezone == old(self).timezone,
            final(self).context == (Context {
                current_hour_actual_temp: final(self).context.current_hour_actual_temp,
                current_hour_weather_icon: final(self).context.current_hour_weather_icon,
                current_hour_feels_like: final(self).context.current_hour_feels_like,
                current_day_date: final(self).context.current_day_date,
                current_hour_rain_amount: final(self).context.current_hour_rain_amount,
                current_hour_wind_speed: final(self).context.current_hour_wind_speed,
                current_hour_wind_icon: final(self).context.current_hour_wind_icon,
                current_hour_uv_index: final(self).context.current_hour_uv_index,
                current_hour_uv_index_icon: final(self).context.current_hour_uv_index_icon,
                current_hour_relative_humidity: final(self).context.current_hour_relative_humidity,
                current_hour_relative_humidity_icon: final(self).context.current_hour_relative_humidity_icon,
                ..old(self).context
            }),
            current_hour_shown(old(self).context, final(self).context, cur, old(self).icon_ctx, old(self).timezone@, now_utc_secs),
    {
        let use_gust = self.icon_ctx.render_options.use_gust_instead_of_wind;
        let unit = self.icon_ctx.render_options.wind_speed_unit;
        self.context.current_hour_actual_temp = i64_to_string(cur.temperature as i64);
        self.context.current_hour_weather_icon = cur.icon_path(&self.icon_ctx);
        self.context.current_hour_feels_like = i64_to_string(cur.apparent_temperature as i64);
        match format_in_zone(now_utc_secs, self.timezone.as_str(), self.icon_ctx.render_options.date_format.as_str()) {
            Some(t) => self.context.current_day_date = t,
            None => {},
        }
        self.context.current_hour_rain_amount = halves_label(cur.precipitation.amount_in_halves() as u128);
        self.context.current_hour_wind_speed = u64_to_string(cur.wind.speed_in_unit(use_gust, unit) as u64);
        self.context.current_hour_wind_icon = cur.wind.icon_path(&self.icon_ctx);
        self.context.current_hour_uv_index = u64_to_string(cur.uv_index as u64);
        self.context.current_hour_uv_index_icon = UVIndexIcon::from(cur.uv_index).icon_path(&self.icon_ctx);
        self.context.current_hour_relative_humidity = u64_to_string(cur.relative_humidity as u64);
        self.context.current_hour_relative_humidity_icon =
            HumidityIconName::from(cur.relative_humidity).icon_path(&self.icon_ctx);
    }

    /// Shows the larger of today's (`[start, day_end)`) and tomorrow's
    /// (`[day_end, end)`) maxima of wind, UV and humidity; italics mark a
    /// value from tomorrow, "N/A" a reading with no data in the window.
    fn set_max_values_for_table(&mut self, hourly: &Vec<HourlyForecast>, start: i64, day_end: i64, end: i64)
        ensures
            final(self).diagnostics == old(self).diagnostics,
            final(self).icon_ctx == old(self).icon_ctx,
            final(self).timezone == old(self).timezone,
            final(self).context == (Context {
                max_gust_speed: final(self).context.max_gust_speed,
                max_gust_speed_font_style: final(self).context.max_gust_speed_font_style,
                max_uv_index: final(self).context.max_uv_index,
                max_uv_index_font_style: final(self).context.max_uv_index_font_style,
                max_relative_humidity: final(self).context.max_relative_humidity,
                max_relative_humidity_font_style: final(self).context.max_relative_humidity_font_style,
                ..old(self).context
            }),
            ({
                let opts = old(self).icon_ctx.render_options;
                let wind = split_max(hourly@, readings(hourly@, 0, opts.use_gust_instead_of_wind), start, day_end, end);
                let uv = split_max(hourly@, readings(hourly@, 1, false), start, day_end, end);
                let humidity = split_max(hourly@, readings(hourly@, 2, false), start, day_end, end);
                let b = old(self).context;
                let a = final(self).context;
                &&& a.max_gust_speed@ == wind_max_text(wind, opts.wind_speed_unit)
                &&& a.max_gust_speed_font_style@ == max_style(b.max_gust_speed_font_style@, wind)
                &&& a.max_uv_index@ == max_text(uv)
                &&& a.max_uv_index_font_style@ == max_style(b.max_uv_index_font_style@, uv)
                &&& a.max_relative_humidity@ == max_text(humidity)
                &&& a.max_relative_humidity_font_style@ == max_style(b.max_relative_humidity_font_style@, humidity)
            }),
    {
        let use_gust = self.icon_ctx.render_options.use_gust_instead_of_wind;
        let unit = self.icon_ctx.render_options.wind_speed_unit;
        let times = times_of(hourly);
        let wind = readings_of(hourly, 0, use_gust);
        match table_max(&times, &wind, start, day_end, end) {
            Some((v, tomorrow)) => {
                self.context.max_gust_speed = u64_to_string(Wind::convert_speed(v, unit) as u64);
                if tomorrow {
                    self.context.max_gust_speed_font_style = owned(FontStyle::Italic.as_str());
                }
            },
            None => self.context.max_gust_speed = owned(NOT_AVAILABLE),
        }
        let uv = readings_of(hourly, 1, false);
        match table_max(&times, &uv, start, day_end, end) {
            Some((v, tomorrow)) => {
                self.context.max_uv_index = u64_to_string(v as u64);
                if tomorrow {
                    self.context.max_uv_index_font_style = owned(FontStyle::Italic.as_str());
                }
            },
            None => self.context.max_uv_index = owned(NOT_AVAILABLE),
        }
        let humidity = readings_of(hourly, 2, false);
        match table_max(&times, &humidity, start, day_end, end) {
            Some((v, tomorrow)) => {
                self.context.max_relative_humidity = u64_to_string(v as u64);
                if tomorrow {
                    self.context.max_relative_humidity_font_style = owned(FontStyle::Italic.as_str());
                }
            },
            None => self.context.max_relative_humidity = owned(NOT_AVAILABLE),
        }
    }

    /// Applies the hourly forecasts at the instant `now_utc_secs`: finds the
    /// 24-hour window (recording incomplete data when there is none), shows
    /// the window's first hour as the current hour, the table maxima and
    /// today's rain total. Returns false, changing nothing, when the local
    /// end of the window's first day cannot be resolved.
    pub fn with_hourly_forecast_data(&mut self, hourly_forecast_data: Vec<HourlyForecast>, now_utc_secs: i64) -> (applied: bool)
        requires
            in_chrono_range(now_utc_secs),
            old(self).diagnostics_view().len() < max_diagnostics(),
        ensures
            hourly_applied(*old(self), *final(self), hourly_forecast_data@, now_utc_secs, applied),
    {
        let hourly = &hourly_forecast_data;
        match find_forecast_window(hourly, now_utc_secs) {
            None => {
                let ghost before = self.diagnostics@;
                self.with_validation_error(DashboardError::IncompleteData {
                    details: owned("No hourly forecast data available, Could Not find a date later than the current date"),
                });
                assert(self.diagnostics@.drop_last() =~= before);
                true
            },
            Some((start, end)) => match day_end_of(start, self.timezone.as_str()) {
                None => false,
                Some(day_end) => {
                    match first_forecast_in_window(hourly, start, end) {
                        Some(cur) => self.show_current_hour(cur, now_utc_secs),
                        None => {},
                    }
                    self.set_max_values_for_table(hourly, start, day_end, end);
                    let times = times_of(hourly);
                    let rain = readings_of(hourly, 3, false);
                    let total = total_between_dates(&times, &rain, start, end);
                    proof {
                        lemma_total_in_window_bounds(times@, rain@, start, end, 131070);
                    }
                    assert(total >= 0);
                    self.context.total_rain_today = halves_label(total as u128);
                    true
                },
            },
        }
    }
}

} // verus!
