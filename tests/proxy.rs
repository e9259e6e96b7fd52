use dns_proxy::config::RewriteConfig;
use dns_proxy::rewrite::create_rewriter;
use dns_proxy::sni::SniRewriter;

#[test]
fn test_rewriter_integration() {
    let mut rewriter = create_rewriter(RewriteConfig {
        base_domains: vec!["test.com".to_string()],
        target_suffix: ".test.cn".to_string(),
        rewrite_failure_strategy: "error".to_string(),
    });

    let result = rewriter.rewrite("www.test.com");
    assert!(result.is_some());
    let rewrite_result = result.unwrap();
    assert_eq!(rewrite_result.original, "www.test.com");
    assert_eq!(rewrite_result.prefix, "www");
    assert_eq!(rewrite_result.target_hostname, "www.test.cn");
}

#[test]
fn test_rewriter_no_match() {
    let mut rewriter = create_rewriter(RewriteConfig {
        base_domains: vec!["test.com".to_string()],
        target_suffix: ".test.cn".to_string(),
        rewrite_failure_strategy: "error".to_string(),
    });

    let result = rewriter.rewrite("example.com");
    assert!(result.is_none());
}

#[test]
fn test_proxy_module_imports() {
    let _ = create_rewriter;
}
