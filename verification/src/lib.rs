pub mod engine;
pub mod types;
