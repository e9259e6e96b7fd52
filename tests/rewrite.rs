use dns_proxy::config::RewriteConfig;
use dns_proxy::rewrite::create_rewriter;
use dns_proxy::sni::SniRewriter;
use std::sync::Arc;

#[test]
fn test_create_rewriter() {
    let config = RewriteConfig {
        base_domains: vec!["test.com".to_string()],
        target_suffix: ".test.cn".to_string(),
        rewrite_failure_strategy: "error".to_string(),
    };

    let rewriter = Arc::new(create_rewriter(config));
    assert!(Arc::strong_count(&rewriter) >= 1);
}

#[test]
fn test_create_rewriter_functionality() {
    let config = RewriteConfig {
        base_domains: vec!["test.com".to_string()],
        target_suffix: ".test.cn".to_string(),
        rewrite_failure_strategy: "error".to_string(),
    };

    let mut rewriter = create_rewriter(config);
    let result = rewriter.rewrite("www.test.com");

    assert!(result.is_some());
    let result = result.unwrap();
    assert_eq!(result.original, "www.test.com");
    assert_eq!(result.prefix, "www");
    assert_eq!(result.target_hostname, "www.test.cn");
}
