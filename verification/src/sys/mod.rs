pub mod config;
pub mod env;
pub mod health;
pub mod log;
