//! Weather dashboard logic for a Raspberry Pi e-paper display: icon
//! selection, validation of configuration values, localisation, diagnostic
//! priorities, forecast windows and the other decisions that turn weather
//! data into a dashboard.
pub mod text;
pub mod configs;
pub mod weather;
pub mod domain;
pub mod errors;
pub mod time;
pub mod i18n;
pub mod dashboard;
pub mod utils;
pub mod constants;
pub mod apis;
pub mod providers;
pub mod update;
pub mod logger;
