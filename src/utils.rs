//! Small shared utilities.
pub mod backoff;

pub use backoff::{exponential_backoff, BackoffCounter};
