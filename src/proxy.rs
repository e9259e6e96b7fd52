//! Request handling shared by the front-ends.
pub mod http;
pub mod tunnel;

pub use http::{begin_http_request, complete_http_request};
