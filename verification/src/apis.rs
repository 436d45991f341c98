pub mod bom;
pub mod open_meteo;
