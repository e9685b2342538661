//! Health reporting for a network service: what its components say of themselves,
//! folded into one verdict, and the configuration that the service starts from.

pub mod dbs;
pub mod err;
pub use err::error::AppError;
pub mod sys;
pub mod text;
