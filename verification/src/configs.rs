pub mod settings;
pub mod validation;
