//! Configuration of the gateway: the data the rest of the library reads.
use crate::error::{CertificateError, DnsProxyError, SniRewriteError};
use crate::rewriters::base::dotted;
use crate::text::same_text;
use vstd::hash_map::StringHashMap;
use vstd::prelude::*;

verus! {

/// Complete configuration.
pub struct AppConfig {
    pub rewrite: RewriteConfig,
    pub servers: ServersConfig,
    pub upstream: UpstreamConfig,
    pub tls: TlsConfig,
}

/// How the rewriter maps client-facing hostnames onto upstream hostnames.
#[derive(Debug)]
pub struct RewriteConfig {
    /// Base domains to match, in order; the first match wins.
    pub base_domains: Vec<String>,
    /// Appended to the extracted prefix; expected to begin with `.`.
    pub target_suffix: String,
    /// `"passthrough"` forwards unmatched hostnames unchanged; anything else fails them.
    pub rewrite_failure_strategy: String,
}

/// The listening front-ends.
#[derive(Debug)]
pub struct ServersConfig {
    pub dot: ServerPortConfig,
    pub doh: ServerPortConfig,
    pub doq: ServerPortConfig,
    pub doh3: ServerPortConfig,
    pub healthcheck: HealthcheckConfig,
}

/// Where one front-end listens.
#[derive(Debug)]
pub struct ServerPortConfig {
    pub enabled: bool,
    pub bind_address: String,
    pub port: u16,
}

/// Where the health endpoint listens, and its path.
#[derive(Debug)]
pub struct HealthcheckConfig {
    pub enabled: bool,
    pub bind_address: String,
    pub port: u16,
    pub path: String,
}

/// Upstream resolver addresses; `default` stands in for any protocol left unset.
#[derive(Debug)]
pub struct UpstreamConfig {
    pub default: String,
    pub dot: Option<String>,
    pub doh: Option<String>,
    pub doq: Option<String>,
    pub doh3: Option<String>,
}

/// Keypairs to present, by server name.
pub struct TlsConfig {
    /// Used when no server-specific keypair is configured.
    pub default: Option<CertificateConfig>,
    /// Keypairs by server name.
    pub certs: StringHashMap<CertificateConfig>,
}

/// One keypair.
#[derive(Debug, Clone)]
pub struct CertificateConfig {
    /// Certificate chain file (PEM).
    pub cert_file: String,
    /// Private key file (PEM).
    pub key_file: String,
    /// Trust anchor for client certificates, if any.
    pub ca_file: Option<String>,
    /// Clients must present a certificate.
    pub require_client_cert: bool,
}

impl RewriteConfig {
    /// The base domains as character sequences.
    pub open spec fn bases(&self) -> Seq<Seq<char>> {
        self.base_domains.deep_view()
    }

    /// Unmatched hostnames are forwarded unchanged.
    pub open spec fn is_passthrough(&self) -> bool {
        self.rewrite_failure_strategy@ == "passthrough"@
    }
}

/// The DoH upstream used when none is configured.
pub const DEFAULT_DOH_UPSTREAM: &'static str = "https://dns.google/dns-query";

impl TlsConfig {
    /// The keypair for `domain`: its own, or else the default.
    pub open spec fn cert_for(&self, domain: Seq<char>) -> Option<CertificateConfig> {
        if self.certs@.contains_key(domain) {
            Some(self.certs@[domain])
        } else {
            self.default
        }
    }

    /// The keypair configured for `domain`, or the default one.
    pub fn get_cert_config(&self, domain: &str) -> (r: Option<&CertificateConfig>)
        ensures
            match r {
                Some(c) => self.cert_for(domain@) == Some(*c),
                None => self.cert_for(domain@) is None,
            },
    {
        match self.certs.get(domain) {
            Some(c) => Some(c),
            None => self.default.as_ref(),
        }
    }

    /// The keypair configured for `domain`, or the default one, or `NotConfigured`.
    pub fn get_cert_config_or_err(&self, domain: &str) -> (r: Result<&CertificateConfig, CertificateError>)
        ensures
            match r {
                Ok(c) => self.cert_for(domain@) == Some(*c),
                Err(e) => self.cert_for(domain@) is None
                    && e == CertificateError::NotConfigured { domain: e->domain }
                    && e->domain@ == domain@,
            },
    {
        match self.get_cert_config(domain) {
            Some(c) => Ok(c),
            None => Err(CertificateError::NotConfigured { domain: domain.to_owned() }),
        }
    }
}

impl Default for TlsConfig {
    fn default() -> (r: Self)
        ensures
            r.default is None,
            r.certs@.dom() == Set::<Seq<char>>::empty(),
    {
        let certs = StringHashMap::new();
        assert(certs@.dom() =~= Set::<Seq<char>>::empty());
        TlsConfig { default: None, certs }
    }
}

/// The built-in configuration: rewriting `example.com` and `example.org` onto
/// `.example.cn`, DoT, DoH, DoQ and the health endpoint enabled, Google's resolvers
/// upstream, and no keypairs.
pub open spec fn is_default_config(r: &AppConfig) -> bool {
    &&& r.rewrite.bases() == seq!["example.com"@, "example.org"@]
    &&& r.rewrite.target_suffix@ == ".example.cn"@
    &&& r.rewrite.rewrite_failure_strategy@ == "error"@
    &&& r.servers.dot.enabled && r.servers.dot.port == 853
    &&& r.servers.doh.enabled && r.servers.doh.port == 443
    &&& r.servers.doq.enabled && r.servers.doq.port == 853
    &&& !r.servers.doh3.enabled && r.servers.doh3.port == 443
    &&& r.servers.healthcheck.enabled && r.servers.healthcheck.port == 8080
    &&& r.servers.healthcheck.path@ == "/health"@
    &&& r.servers.dot.bind_address@ == "0.0.0.0"@
    &&& r.servers.doh.bind_address@ == "0.0.0.0"@
    &&& r.servers.doq.bind_address@ == "0.0.0.0"@
    &&& r.servers.doh3.bind_address@ == "0.0.0.0"@
    &&& r.servers.healthcheck.bind_address@ == "0.0.0.0"@
    &&& r.upstream.default@ == "8.8.8.8:853"@
    &&& r.upstream.dot matches Some(u) && u@ == "8.8.8.8:853"@
    &&& r.upstream.doh matches Some(u) && u@ == DEFAULT_DOH_UPSTREAM@
    &&& r.upstream.doq matches Some(u) && u@ == "8.8.8.8:853"@
    &&& r.upstream.doh3 matches Some(u) && u@ == DEFAULT_DOH_UPSTREAM@
    &&& r.tls.default is None
    &&& r.tls.certs@.dom() == Set::<Seq<char>>::empty()
}

/// A listener configuration.
pub fn port_config(enabled: bool, bind_address: &str, port: u16) -> (r: ServerPortConfig)
    ensures
        r.enabled == enabled,
        r.bind_address@ == bind_address@,
        r.port == port,
{
    ServerPortConfig { enabled, bind_address: bind_address.to_owned(), port }
}

impl Default for AppConfig {
    fn default() -> (r: Self)
        ensures
            is_default_config(&r),
    {
        let mut base_domains: Vec<String> = Vec::new();
        base_domains.push("example.com".to_owned());
        base_domains.push("example.org".to_owned());
        let rewrite = RewriteConfig {
            base_domains,
            target_suffix: ".example.cn".to_owned(),
            rewrite_failure_strategy: "error".to_owned(),
        };
        assert(rewrite.bases() =~= seq!["example.com"@, "example.org"@]);
        let servers = ServersConfig {
            dot: port_config(true, "0.0.0.0", 853),
            doh: port_config(true, "0.0.0.0", 443),
            doq: port_config(true, "0.0.0.0", 853),
            doh3: port_config(false, "0.0.0.0", 443),
            healthcheck: HealthcheckConfig {
                enabled: true,
                bind_address: "0.0.0.0".to_owned(),
                port: 8080,
                path: "/health".to_owned(),
            },
        };
        let upstream = UpstreamConfig {
            default: "8.8.8.8:853".to_owned(),
            dot: Some("8.8.8.8:853".to_owned()),
            doh: Some(DEFAULT_DOH_UPSTREAM.to_owned()),
            doq: Some("8.8.8.8:853".to_owned()),
            doh3: Some(DEFAULT_DOH_UPSTREAM.to_owned()),
        };
        AppConfig { rewrite, servers, upstream, tls: TlsConfig::default() }
    }
}

/// The configured address, or the fallback when it is unset.
pub open spec fn or_fallback(o: Option<String>, fallback: Seq<char>) -> Seq<char> {
    match o {
        Some(s) => s@,
        None => fallback,
    }
}

/// Two enabled TCP front-ends share a port.
pub open spec fn tcp_port_conflict(s: &ServersConfig) -> bool {
    ||| s.dot.enabled && s.doh.enabled && s.dot.port == s.doh.port
    ||| s.dot.enabled && s.healthcheck.enabled && s.dot.port == s.healthcheck.port
    ||| s.doh.enabled && s.healthcheck.enabled && s.doh.port == s.healthcheck.port
}

/// The two UDP front-ends are enabled on one port.
pub open spec fn udp_port_conflict(s: &ServersConfig) -> bool {
    s.doq.enabled && s.doh3.enabled && s.doq.port == s.doh3.port
}

/// The failure strategy is one of the two known ones.
pub open spec fn known_strategy(s: Seq<char>) -> bool {
    s == "error"@ || s == "passthrough"@
}

impl AppConfig {
    /// Check what can be checked without touching files: a base domain is
    /// configured, the target suffix begins with a dot, the failure strategy is
    /// known, and no two enabled front-ends of one transport share a port.
    pub fn validate(&self) -> (r: Result<(), DnsProxyError>)
        ensures
            self.rewrite.base_domains@.len() == 0 ==> r == Err::<(), DnsProxyError>(
                DnsProxyError::SniRewrite(SniRewriteError::EmptyBaseDomains),
            ),
            self.rewrite.base_domains@.len() > 0 && !dotted(self.rewrite.target_suffix@) ==> (r matches Err(
                DnsProxyError::SniRewrite(SniRewriteError::InvalidTargetSuffix { suffix }),
            ) && suffix@ == self.rewrite.target_suffix@),
            self.rewrite.base_domains@.len() > 0 && dotted(self.rewrite.target_suffix@) ==> {
                ||| !known_strategy(self.rewrite.rewrite_failure_strategy@) && r matches Err(
                    DnsProxyError::Config(_),
                )
                ||| known_strategy(self.rewrite.rewrite_failure_strategy@) && (tcp_port_conflict(
                    &self.servers,
                ) || udp_port_conflict(&self.servers)) && r matches Err(DnsProxyError::Config(_))
                ||| known_strategy(self.rewrite.rewrite_failure_strategy@) && !tcp_port_conflict(
                    &self.servers,
                ) && !udp_port_conflict(&self.servers) && r is Ok
            },
    {
        if self.rewrite.base_domains.len() == 0 {
            return Err(DnsProxyError::SniRewrite(SniRewriteError::EmptyBaseDomains));
        }
        let suffix = self.rewrite.target_suffix.as_str();
        if !(suffix.unicode_len() > 0 && suffix.get_char(0) == '.') {
            return Err(
                DnsProxyError::SniRewrite(
                    SniRewriteError::InvalidTargetSuffix { suffix: suffix.to_owned() },
                ),
            );
        }
        let strategy = self.rewrite.rewrite_failure_strategy.as_str();
        if !(same_text(strategy, "error") || same_text(strategy, "passthrough")) {
            return Err(
                DnsProxyError::Config(
                    "rewrite_failure_strategy must be \"error\" or \"passthrough\"".to_owned(),
                ),
            );
        }
        let s = &self.servers;
        let tcp_conflict = (s.dot.enabled && s.doh.enabled && s.dot.port == s.doh.port) || (
        s.dot.enabled && s.healthcheck.enabled && s.dot.port == s.healthcheck.port) || (
        s.doh.enabled && s.healthcheck.enabled && s.doh.port == s.healthcheck.port);
        let udp_conflict = s.doq.enabled && s.doh3.enabled && s.doq.port == s.doh3.port;
        if tcp_conflict || udp_conflict {
            return Err(
                DnsProxyError::Config("two enabled servers share a port".to_owned()),
            );
        }
        Ok(())
    }

    /// The configuration read from a file, or the built-in one when there is none.
    pub fn load_or_default(loaded: Option<AppConfig>) -> (r: Self)
        ensures
            loaded matches Some(c) ==> r == c,
            loaded is None ==> is_default_config(&r),
    {
        match loaded {
            Some(c) => c,
            None => AppConfig::default(),
        }
    }

    /// The DoH upstream URL.
    pub fn doh_upstream(&self) -> (r: &str)
        ensures
            r@ == or_fallback(self.upstream.doh, DEFAULT_DOH_UPSTREAM@),
    {
        match &self.upstream.doh {
            Some(u) => u.as_str(),
            None => DEFAULT_DOH_UPSTREAM,
        }
    }

    /// The DoH3 upstream URL.
    pub fn doh3_upstream(&self) -> (r: &str)
        ensures
            r@ == or_fallback(self.upstream.doh3, or_fallback(self.upstream.doh, DEFAULT_DOH_UPSTREAM@)),
    {
        match &self.upstream.doh3 {
            Some(u) => u.as_str(),
            None => self.doh_upstream(),
        }
    }

    /// The DoT upstream address: its own, or the default one.
    pub fn dot_upstream_address(&self) -> (r: &str)
        ensures
            r@ == or_fallback(self.upstream.dot, self.upstream.default@),
    {
        match &self.upstream.dot {
            Some(u) => u.as_str(),
            None => self.upstream.default.as_str(),
        }
    }

    /// The DoQ upstream address: its own, or the default one.
    pub fn doq_upstream_address(&self) -> (r: &str)
        ensures
            r@ == or_fallback(self.upstream.doq, self.upstream.default@),
    {
        match &self.upstream.doq {
            Some(u) => u.as_str(),
            None => self.upstream.default.as_str(),
        }
    }
}

} // verus!
