//! Front-end decisions that do not belong to one request flow.
pub mod healthcheck;
