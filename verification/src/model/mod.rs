pub mod overlay;
pub mod types;
