//! Shared constants: the not-available marker, cache file suffixes and the
//! not-available icon.
use vstd::prelude::*;
use crate::weather::icons::{icon_path_in, join_path, NotAvailableIcon};

verus! {

/// Shown wherever a value is missing.
pub const NOT_AVAILABLE: &'static str = "N/A";

/// Font size of the graph's axis labels.
pub const DEFAULT_AXIS_LABEL_FONT_SIZE: u16 = 19;

/// Suffix of the hourly forecast cache file.
pub const HOURLY_CACHE_SUFFIX: &'static str = "hourly_forecast.json";

/// Suffix of the daily forecast cache file.
pub const DAILY_CACHE_SUFFIX: &'static str = "daily_forecast.json";

/// Suffix of the combined forecast cache file.
pub const CACHE_SUFFIX: &'static str = "forecast.json";

/// The text of [`NOT_AVAILABLE`].
pub open spec fn not_available_text() -> Seq<char> {
    "N/A"@
}

/// The not-available icon's path under the icon directory `dir`.
pub open spec fn not_available_path_of(dir: Seq<char>) -> Seq<char> {
    join_path(dir, NotAvailableIcon::NotAvailable.name())
}

/// The path of the not-available icon in the SVG icon directory.
pub fn not_available_icon_path(svg_icons_directory: &str) -> (r: String)
    ensures
        r@ == not_available_path_of(svg_icons_directory@),
{
    icon_path_in(svg_icons_directory, NotAvailableIcon::NotAvailable.as_str())
}

} // verus!
