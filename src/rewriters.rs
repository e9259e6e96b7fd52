//! Rewriter implementations.
pub mod base;

pub use base::BaseSniRewriter;
