pub mod icons;
pub mod utils;
