//! Upstream clients.
pub mod pool;

pub use pool::{ConnectionPool, HttpClient};
