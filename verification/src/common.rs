pub mod config;
pub mod global_def;
