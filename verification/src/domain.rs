pub mod icons;
pub mod models;
pub mod weather_code;
pub mod from_api;
