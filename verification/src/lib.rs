pub mod display;
pub mod engine;
