pub mod error;
pub mod loader;
pub mod models;
pub use error::EnvironmentError;
pub use loader::{get_bool, get_or_default, get_parsed, get_parsed_or_default, get_required};
pub use models::{EnvVar, Environment};
