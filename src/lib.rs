//! A DNS-over-encrypted-transport ingress gateway: the verified core.
//!
//! The library holds the decisions of the gateway: SNI/Host rewriting, the
//! per-protocol forwarding sessions, the accept-loop backoff, metrics, and the
//! certificate and configuration lookups. Sockets, TLS and the task runtime
//! live in the application around it.
pub mod clock;
pub mod config;
pub mod error;
pub mod metrics;
pub mod proxy;
pub mod readers;
pub mod rewrite;
pub mod rewriters;
pub mod server;
pub mod sni;
pub mod sni_cache;
pub mod text;
pub mod tls_utils;
pub mod upstream;
pub mod utils;
