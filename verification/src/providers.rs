//! Weather providers: fetch outcomes, the decisions of the retrying
//! fetcher, and the checks of each API's error responses.
pub mod bom;
pub mod fetcher;
pub mod open_meteo;

use vstd::prelude::*;
use crate::configs::settings::Providers;
use crate::errors::DashboardError;
use crate::text::owned;

verus! {

/// Result of a weather data fetch: the data, with a warning when it is stale.
pub struct FetchResult<T> {
    pub data: T,
    pub warning: Option<DashboardError>,
}

impl<T> FetchResult<T> {
    /// Freshly fetched data, without a warning.
    pub fn fresh(data: T) -> (r: FetchResult<T>)
        ensures
            r.data == data,
            r.warning is None,
    {
        FetchResult { data, warning: None }
    }

    /// Stale data, with the error that made it stale as the warning.
    pub fn stale(data: T, error: DashboardError) -> (r: FetchResult<T>)
        ensures
            r.data == data,
            r.warning == Some(error),
    {
        FetchResult { data, warning: Some(error) }
    }
}

impl Providers {
    /// The prefix of the provider's cache files.
    pub open spec fn filename_prefix_text(self) -> Seq<char> {
        match self {
            Providers::Bom => "bom_"@,
            Providers::OpenMeteo => "open_meteo_"@,
        }
    }

    /// The prefix of the provider's cache files.
    pub fn provider_filename_prefix(&self) -> (r: &'static str)
        ensures
            r@ == self.filename_prefix_text(),
    {
        match self {
            Providers::Bom => "bom_",
            Providers::OpenMeteo => "open_meteo_",
        }
    }

    /// The provider's display name.
    pub open spec fn provider_name_text(self) -> Seq<char> {
        match self {
            Providers::Bom => "Bureau of Meteorology (BOM)"@,
            Providers::OpenMeteo => "Open-Meteo"@,
        }
    }

    /// The provider's display name.
    pub fn provider_name(&self) -> (r: &'static str)
        ensures
            r@ == self.provider_name_text(),
    {
        match self {
            Providers::Bom => "Bureau of Meteorology (BOM)",
            Providers::OpenMeteo => "Open-Meteo",
        }
    }

    /// The cache file name: the provider's prefix followed by `suffix`
    /// (e.g. `bom_hourly_forecast.json`).
    pub fn get_cache_filename(&self, suffix: &str) -> (r: String)
        ensures
            r@ == self.filename_prefix_text() + suffix@,
    {
        let mut r = owned(self.provider_filename_prefix());
        r.append(suffix);
        r
    }
}

} // verus!
