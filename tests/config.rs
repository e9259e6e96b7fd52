use dns_proxy::config::{AppConfig, CertificateConfig, TlsConfig};
use dns_proxy::error::{DnsProxyError, SniRewriteError};
use dns_proxy::proxy::tunnel::upstream_hostname;

#[test]
fn test_default_config() {
    let config = AppConfig::default();
    assert_eq!(config.rewrite.base_domains.len(), 2);
    assert!(config
        .rewrite
        .base_domains
        .contains(&"example.com".to_string()));
    assert!(config
        .rewrite
        .base_domains
        .contains(&"example.org".to_string()));
    assert_eq!(config.rewrite.target_suffix, ".example.cn");
}

#[test]
fn test_tls_config_get_cert() {
    let mut tls_config = TlsConfig::default();

    let cert_config = CertificateConfig {
        cert_file: "/path/to/cert.pem".to_string(),
        key_file: "/path/to/key.pem".to_string(),
        ca_file: None,
        require_client_cert: false,
    };

    tls_config
        .certs
        .insert("example.com".to_string(), cert_config.clone());
    tls_config.default = Some(cert_config);

    assert!(tls_config.get_cert_config("example.com").is_some());
    assert!(tls_config.get_cert_config("example.org").is_some());
    assert!(tls_config.get_cert_config("unknown.com").is_some());
}

#[test]
fn test_tls_config_get_cert_or_err() {
    let mut tls_config = TlsConfig::default();

    let cert_config = CertificateConfig {
        cert_file: "/path/to/cert.pem".to_string(),
        key_file: "/path/to/key.pem".to_string(),
        ca_file: None,
        require_client_cert: false,
    };

    tls_config
        .certs
        .insert("example.com".to_string(), cert_config);

    assert!(tls_config.get_cert_config_or_err("example.com").is_ok());
    assert!(tls_config.get_cert_config_or_err("unknown.com").is_err());
}

#[test]
fn test_load_or_default() {
    // Nothing could be read (e.g. "/nonexistent/file.toml"): the built-in configuration.
    let config = AppConfig::load_or_default(None);
    assert_eq!(config.rewrite.base_domains.len(), 2);
}

#[test]
fn test_tls_config_specific_before_default() {
    let mut tls_config = TlsConfig::default();
    let own = CertificateConfig {
        cert_file: "/own/cert.pem".to_string(),
        key_file: "/own/key.pem".to_string(),
        ca_file: None,
        require_client_cert: false,
    };
    let fallback = CertificateConfig {
        cert_file: "/default/cert.pem".to_string(),
        key_file: "/default/key.pem".to_string(),
        ca_file: None,
        require_client_cert: true,
    };
    tls_config.certs.insert("example.com".to_string(), own);
    tls_config.default = Some(fallback);
    assert_eq!(
        tls_config.get_cert_config("example.com").unwrap().cert_file,
        "/own/cert.pem"
    );
    assert_eq!(
        tls_config.get_cert_config("other.com").unwrap().cert_file,
        "/default/cert.pem"
    );
}

#[test]
fn test_tls_config_not_configured_names_domain() {
    let tls_config = TlsConfig::default();
    let err = tls_config.get_cert_config_or_err("unknown.com").unwrap_err();
    assert_eq!(
        err.to_string(),
        "No certificate configured for domain: unknown.com"
    );
}

#[test]
fn test_default_upstreams() {
    let config = AppConfig::default();
    assert_eq!(config.doh_upstream(), "https://dns.google/dns-query");
    assert_eq!(config.doh3_upstream(), "https://dns.google/dns-query");
    assert_eq!(config.dot_upstream_address(), "8.8.8.8:853");
    assert_eq!(config.doq_upstream_address(), "8.8.8.8:853");
}

#[test]
fn test_upstream_fallback_to_default() {
    let mut config = AppConfig::default();
    config.upstream.dot = None;
    config.upstream.doq = None;
    config.upstream.doh = None;
    config.upstream.doh3 = None;
    config.upstream.default = "1.1.1.1:853".to_string();
    assert_eq!(config.dot_upstream_address(), "1.1.1.1:853");
    assert_eq!(config.doq_upstream_address(), "1.1.1.1:853");
    assert_eq!(config.doh_upstream(), "https://dns.google/dns-query");
}

#[test]
fn test_validate_empty_base_domains() {
    let mut config = AppConfig::default();
    config.rewrite.base_domains.clear();
    assert!(matches!(
        config.validate(),
        Err(DnsProxyError::SniRewrite(SniRewriteError::EmptyBaseDomains))
    ));
}

#[test]
fn test_validate_invalid_target_suffix() {
    let mut config = AppConfig::default();
    config.rewrite.target_suffix = "example.cn".to_string();
    match config.validate() {
        Err(DnsProxyError::SniRewrite(SniRewriteError::InvalidTargetSuffix { suffix })) => {
            assert_eq!(suffix, "example.cn")
        }
        _ => panic!("expected an invalid target suffix"),
    }
}

#[test]
fn test_validate_unknown_strategy() {
    let mut config = AppConfig::default();
    config.rewrite.rewrite_failure_strategy = "retry".to_string();
    assert!(matches!(config.validate(), Err(DnsProxyError::Config(_))));
}

#[test]
fn test_validate_udp_port_conflict() {
    let mut config = AppConfig::default();
    config.servers.doh3.enabled = true;
    config.servers.doh3.port = 853;
    assert!(matches!(config.validate(), Err(DnsProxyError::Config(_))));
}

#[test]
fn test_validate_dot_and_doq_share_port_across_transports() {
    let config = AppConfig::default();
    assert_eq!(config.servers.dot.port, config.servers.doq.port);
    assert!(config.validate().is_ok());
}

#[test]
fn test_upstream_config() {
    let config = AppConfig::default();

    let dot_upstream = config.dot_upstream_address();
    assert!(dot_upstream.ends_with(":853"));

    let doq_upstream = config.doq_upstream_address();
    assert!(doq_upstream.ends_with(":853"));
}

#[test]
fn test_upstream_config_parsing() {
    let config = AppConfig::default();
    assert_eq!(config.dot_upstream_address(), "8.8.8.8:853");
    assert_eq!(config.doq_upstream_address(), "8.8.8.8:853");
    let hostname = upstream_hostname(config.dot_upstream_address());
    assert!(!hostname.is_empty());
    assert_eq!(hostname, "8.8.8.8");
}

#[test]
fn test_default_bind_addresses() {
    let config = AppConfig::default();
    for bind in [
        &config.servers.dot.bind_address,
        &config.servers.doh.bind_address,
        &config.servers.doq.bind_address,
        &config.servers.doh3.bind_address,
        &config.servers.healthcheck.bind_address,
    ] {
        assert_eq!(bind, "0.0.0.0");
    }
}
