//! The library's error types and their messages.
use crate::text::{decimal, decimal_text};
use std::time::Duration;
use vstd::prelude::*;

verus! {

#[verifier::external_type_specification]
#[verifier::external_body]
pub struct ExIoError(std::io::Error);

/// The `{:?}` rendering of a duration.
pub uninterp spec fn duration_debug_of(d: Duration) -> Seq<char>;

/// Relies on `Duration`'s `Debug` formatting, which depends on the duration alone.
#[verifier::external_body]
fn duration_debug(d: &Duration) -> (r: String)
    ensures
        r@ == duration_debug_of(*d),
{
    format!("{:?}", d)
}

/// Relies on `std::io::Error`'s `Display`: its text; nothing is known of it.
#[verifier::external_body]
fn io_error_text(e: &std::io::Error) -> String {
    format!("{}", e)
}

/// Main error type of the gateway.
#[derive(Debug)]
pub enum DnsProxyError {
    /// Configuration errors.
    Config(String),
    /// SNI rewrite errors.
    SniRewrite(SniRewriteError),
    /// TLS errors.
    Tls(String),
    /// Certificate errors.
    Certificate(CertificateError),
    /// Upstream errors.
    Upstream(UpstreamError),
    /// Network I/O errors.
    Io(std::io::Error),
    /// Protocol errors.
    Protocol(String),
    /// Timeouts.
    Timeout(String),
    /// Invalid input.
    InvalidInput(String),
}

/// SNI rewrite errors.
#[derive(Debug)]
pub enum SniRewriteError {
    /// No base domain matches the hostname.
    NoMatchingBaseDomain { hostname: String },
    /// The hostname is malformed.
    InvalidHostname { hostname: String },
    /// Nothing precedes the base domain.
    MissingPrefix { hostname: String },
    /// No base domain is configured.
    EmptyBaseDomains,
    /// The target suffix does not begin with a dot.
    InvalidTargetSuffix { suffix: String },
}

/// Certificate errors.
#[derive(Debug)]
pub enum CertificateError {
    /// The certificate file does not exist.
    FileNotFound { path: String },
    /// The certificate could not be loaded.
    LoadFailed { path: String, reason: String },
    /// No certificate is configured for the domain.
    NotConfigured { domain: String },
    /// The certificate file holds no usable certificate.
    InvalidFormat { reason: String },
    /// The private key is missing or unusable.
    PrivateKey { reason: String },
}

/// Upstream errors.
#[derive(Debug)]
pub enum UpstreamError {
    /// The connection could not be made.
    ConnectionFailed { upstream: String, reason: String },
    /// The request failed.
    RequestFailed { upstream: String, reason: String },
    /// No answer within the time allowed.
    Timeout { upstream: String, timeout: Duration },
    /// The upstream address is unusable.
    InvalidAddress { address: String },
    /// The upstream answered with an error status.
    ErrorStatus { upstream: String, status: u16 },
}

impl SniRewriteError {
    /// The message describing this error.
    pub open spec fn message(&self) -> Seq<char> {
        match self {
            SniRewriteError::NoMatchingBaseDomain { hostname } =>
                "No matching base domain found for hostname: "@ + hostname@,
            SniRewriteError::InvalidHostname { hostname } =>
                "Invalid hostname format: "@ + hostname@,
            SniRewriteError::MissingPrefix { hostname } =>
                "Missing prefix in hostname: "@ + hostname@
                    + " (expected format: prefix.base_domain)"@,
            SniRewriteError::EmptyBaseDomains => "No base domains configured for SNI rewriting"@,
            SniRewriteError::InvalidTargetSuffix { suffix } =>
                "Invalid target suffix: "@ + suffix@ + " (must start with '.')"@,
        }
    }

    /// The message describing this error.
    pub fn to_string(&self) -> (r: String)
        ensures
            r@ == self.message(),
    {
        match self {
            SniRewriteError::NoMatchingBaseDomain { hostname } => "No matching base domain found for hostname: ".to_owned().concat(hostname.as_str()),
            SniRewriteError::InvalidHostname { hostname } => "Invalid hostname format: ".to_owned().concat(hostname.as_str()),
            SniRewriteError::MissingPrefix { hostname } => "Missing prefix in hostname: ".to_owned().concat(hostname.as_str()).concat(" (expected format: prefix.base_domain)"),
            SniRewriteError::EmptyBaseDomains => "No base domains configured for SNI rewriting".to_owned(),
            SniRewriteError::InvalidTargetSuffix { suffix } => "Invalid target suffix: ".to_owned().concat(suffix.as_str()).concat(" (must start with '.')"),
        }
    }
}

impl CertificateError {
    /// The message describing this error.
    pub open spec fn message(&self) -> Seq<char> {
        match self {
            CertificateError::FileNotFound { path } => "Certificate file not found: "@ + path@,
            CertificateError::LoadFailed { path, reason } =>
                "Failed to load certificate from "@ + path@ + ": "@ + reason@,
            CertificateError::NotConfigured { domain } =>
                "No certificate configured for domain: "@ + domain@,
            CertificateError::InvalidFormat { reason } =>
                "Invalid certificate format: "@ + reason@,
            CertificateError::PrivateKey { reason } => "Private key error: "@ + reason@,
        }
    }

    /// The message describing this error.
    pub fn to_string(&self) -> (r: String)
        ensures
            r@ == self.message(),
    {
        match self {
            CertificateError::FileNotFound { path } => "Certificate file not found: ".to_owned().concat(path.as_str()),
            CertificateError::LoadFailed { path, reason } => "Failed to load certificate from ".to_owned().concat(path.as_str()).concat(": ").concat(reason.as_str()),
            CertificateError::NotConfigured { domain } => "No certificate configured for domain: ".to_owned().concat(domain.as_str()),
            CertificateError::InvalidFormat { reason } => "Invalid certificate format: ".to_owned().concat(reason.as_str()),
            CertificateError::PrivateKey { reason } => "Private key error: ".to_owned().concat(reason.as_str()),
        }
    }
}

impl UpstreamError {
    /// The message describing this error.
    pub open spec fn message(&self) -> Seq<char> {
        match self {
            UpstreamError::ConnectionFailed { upstream, reason } =>
                "Failed to connect to upstream "@ + upstream@ + ": "@ + reason@,
            UpstreamError::RequestFailed { upstream, reason } =>
                "Upstream request failed to "@ + upstream@ + ": "@ + reason@,
            UpstreamError::Timeout { upstream, timeout } =>
                "Upstream request timeout to "@ + upstream@ + " after "@ + duration_debug_of(*timeout),
            UpstreamError::InvalidAddress { address } => "Invalid upstream address: "@ + address@,
            UpstreamError::ErrorStatus { upstream, status } =>
                "Upstream returned error status "@ + decimal(*status as nat) + " from "@ + upstream@,
        }
    }

    /// The message describing this error.
    pub fn to_string(&self) -> (r: String)
        ensures
            r@ == self.message(),
    {
        match self {
            UpstreamError::ConnectionFailed { upstream, reason } => "Failed to connect to upstream ".to_owned().concat(upstream.as_str()).concat(": ").concat(reason.as_str()),
            UpstreamError::RequestFailed { upstream, reason } => "Upstream request failed to ".to_owned().concat(upstream.as_str()).concat(": ").concat(reason.as_str()),
            UpstreamError::Timeout { upstream, timeout } => {
                let t = duration_debug(timeout);
                "Upstream request timeout to ".to_owned().concat(upstream.as_str()).concat(" after ").concat(t.as_str())
            },
            UpstreamError::InvalidAddress { address } => "Invalid upstream address: ".to_owned().concat(address.as_str()),
            UpstreamError::ErrorStatus { upstream, status } => {
                let s = decimal_text(*status as u64);
                "Upstream returned error status ".to_owned().concat(s.as_str()).concat(" from ").concat(upstream.as_str())
            },
        }
    }
}

impl DnsProxyError {
    /// The message describing this error; an I/O error's own text is not modelled,
    /// so only its heading is stated.
    pub open spec fn heading(&self) -> Seq<char> {
        match self {
            DnsProxyError::Config(_) => "Configuration error: "@,
            DnsProxyError::SniRewrite(_) => "SNI rewrite failed: "@,
            DnsProxyError::Tls(_) => "TLS error: "@,
            DnsProxyError::Certificate(_) => "Certificate error: "@,
            DnsProxyError::Upstream(_) => "Upstream connection error: "@,
            DnsProxyError::Io(_) => "Network I/O error: "@,
            DnsProxyError::Protocol(_) => "Protocol error: "@,
            DnsProxyError::Timeout(_) => "Operation timeout: "@,
            DnsProxyError::InvalidInput(_) => "Invalid input: "@,
        }
    }

    /// The text after the heading, where it is known.
    pub open spec fn detail(&self) -> Option<Seq<char>> {
        match self {
            DnsProxyError::Config(s) => Some(s@),
            DnsProxyError::SniRewrite(e) => Some(e.message()),
            DnsProxyError::Tls(s) => Some(s@),
            DnsProxyError::Certificate(e) => Some(e.message()),
            DnsProxyError::Upstream(e) => Some(e.message()),
            DnsProxyError::Io(_) => None,
            DnsProxyError::Protocol(s) => Some(s@),
            DnsProxyError::Timeout(s) => Some(s@),
            DnsProxyError::InvalidInput(s) => Some(s@),
        }
    }

    /// The message describing this error.
    pub fn to_string(&self) -> (r: String)
        ensures
            match self.detail() {
                Some(d) => r@ == self.heading() + d,
                None => crate::text::has_prefix(r@, self.heading()),
            },
    {
        match self {
            DnsProxyError::Config(s) => "Configuration error: ".to_owned().concat(s.as_str()),
            DnsProxyError::SniRewrite(e) => "SNI rewrite failed: ".to_owned().concat(e.to_string().as_str()),
            DnsProxyError::Tls(s) => "TLS error: ".to_owned().concat(s.as_str()),
            DnsProxyError::Certificate(e) => "Certificate error: ".to_owned().concat(e.to_string().as_str()),
            DnsProxyError::Upstream(e) => "Upstream connection error: ".to_owned().concat(e.to_string().as_str()),
            DnsProxyError::Io(e) => {
                let t = io_error_text(e);
                let r = "Network I/O error: ".to_owned().concat(t.as_str());
                assert(r@.subrange(0, "Network I/O error: "@.len() as int) =~= "Network I/O error: "@);
                r
            },
            DnsProxyError::Protocol(s) => "Protocol error: ".to_owned().concat(s.as_str()),
            DnsProxyError::Timeout(s) => "Operation timeout: ".to_owned().concat(s.as_str()),
            DnsProxyError::InvalidInput(s) => "Invalid input: ".to_owned().concat(s.as_str()),
        }
    }
}

impl From<SniRewriteError> for DnsProxyError {
    fn from(e: SniRewriteError) -> (r: Self)
        ensures
            r == DnsProxyError::SniRewrite(e),
    {
        DnsProxyError::SniRewrite(e)
    }
}

impl vstd::std_specs::convert::FromSpecImpl<SniRewriteError> for DnsProxyError {
    open spec fn obeys_from_spec() -> bool {
        true
    }

    open spec fn from_spec(e: SniRewriteError) -> Self {
        DnsProxyError::SniRewrite(e)
    }
}

impl From<CertificateError> for DnsProxyError {
    fn from(e: CertificateError) -> (r: Self)
        ensures
            r == DnsProxyError::Certificate(e),
    {
        DnsProxyError::Certificate(e)
    }
}

impl vstd::std_specs::convert::FromSpecImpl<CertificateError> for DnsProxyError {
    open spec fn obeys_from_spec() -> bool {
        true
    }

    open spec fn from_spec(e: CertificateError) -> Self {
        DnsProxyError::Certificate(e)
    }
}

impl From<UpstreamError> for DnsProxyError {
    fn from(e: UpstreamError) -> (r: Self)
        ensures
            r == DnsProxyError::Upstream(e),
    {
        DnsProxyError::Upstream(e)
    }
}

impl vstd::std_specs::convert::FromSpecImpl<UpstreamError> for DnsProxyError {
    open spec fn obeys_from_spec() -> bool {
        true
    }

    open spec fn from_spec(e: UpstreamError) -> Self {
        DnsProxyError::Upstream(e)
    }
}

impl From<std::io::Error> for DnsProxyError {
    fn from(e: std::io::Error) -> (r: Self)
        ensures
            r == DnsProxyError::Io(e),
    {
        DnsProxyError::Io(e)
    }
}

impl vstd::std_specs::convert::FromSpecImpl<std::io::Error> for DnsProxyError {
    open spec fn obeys_from_spec() -> bool {
        true
    }

    open spec fn from_spec(e: std::io::Error) -> Self {
        DnsProxyError::Io(e)
    }
}

/// Wraps the error of a failed operation as invalid input, with context.
pub trait ToDnsProxyError<T> {
    /// The value, or the error as `InvalidInput` with `context` before its text.
    fn to_dns_proxy_error(self, context: &str) -> Result<T, DnsProxyError>;
}

impl<T, E: std::fmt::Display> ToDnsProxyError<T> for Result<T, E> {
    fn to_dns_proxy_error(self, context: &str) -> (r: Result<T, DnsProxyError>)
        ensures
            match self {
                Ok(v) => r == Ok::<T, DnsProxyError>(v),
                Err(e) => r matches Err(DnsProxyError::InvalidInput(m)) && exists|s: String|
                    vstd::string::to_string_from_display_ensures::<E>(&e, s) && m@ == context@
                        + ": "@ + s@,
            },
    {
        match self {
            Ok(v) => Ok(v),
            Err(e) => {
                let s = e.to_string();
                let m = context.to_owned().concat(": ").concat(s.as_str());
                Err(DnsProxyError::InvalidInput(m))
            },
        }
    }
}

} // verus!
