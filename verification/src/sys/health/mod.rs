pub mod aggregator;
pub mod models;
pub use aggregator::{aggregate_health, assemble, fold_status, http_status_code, report, run_checks};
pub use models::{ComponentHealth, HealthCheck, HealthStatus, SystemHealthResponse};
