pub mod config;
pub mod models;
pub use config::FALLBACK_FILTER;
pub use models::{LogConfig, LogFormat, LogLayout};
