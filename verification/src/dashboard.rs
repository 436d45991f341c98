pub mod chart;
pub mod context;
