pub mod connector;
pub mod error;
pub mod health;
pub mod models;
