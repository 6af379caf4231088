use thaw_cli::config::Proxy;
use thaw_cli::proxy::{
    backend_uri, default_backend_url, host, relative_path, rewrite_request, route, ProxyError, Route,
    UriParts,
};

fn rule(prefix: &str, target: &str, change_origin: bool) -> Proxy {
    Proxy { proxy: prefix.to_string(), target: target.to_string(), change_origin }
}

#[test]
fn proxy_rule_with_change_origin() {
    let rules = vec![rule("/api", "http://example.com:8080", true)];
    let w = rewrite_request(&rules, "/api/x", "/api/x?y=1").unwrap();
    assert_eq!(w.rule, 0);
    assert_eq!(w.uri, "http://example.com:8080/api/x?y=1");
    assert_eq!(w.host.as_deref(), Some("example.com:8080"));
}

#[test]
fn without_change_origin_the_host_stays() {
    let rules = vec![rule("/api", "http://example.com", false)];
    let w = rewrite_request(&rules, "/api", "/api").unwrap();
    assert_eq!(w.uri, "http://example.com/api");
    assert_eq!(w.host, None);
}

#[test]
fn no_rules_never_rewrite() {
    assert!(rewrite_request(&vec![], "/api/x", "/api/x?y=1").is_none());
}

#[test]
fn unmatched_prefix_is_served_locally() {
    let rules = vec![rule("/api", "http://example.com", true)];
    assert!(rewrite_request(&rules, "/assets/a.js", "/assets/a.js").is_none());
}

#[test]
fn rule_with_unparsable_target_is_passed_over() {
    let rules = vec![rule("/api", "http://exa mple.com", true), rule("/api", "http://other.org", true)];
    let w = rewrite_request(&rules, "/api/x", "/api/x").unwrap();
    assert_eq!(w.rule, 1);
    assert_eq!(w.host.as_deref(), Some("other.org"));
}

#[test]
fn standard_ports_are_left_out_of_the_host() {
    let parts = |scheme: &str, port: u16| UriParts {
        scheme: Some(scheme.to_string()),
        host: Some("h.io".to_string()),
        port: Some(port),
    };
    assert_eq!(host(&parts("http", 80)), Some("h.io".to_string()));
    assert_eq!(host(&parts("ws", 80)), Some("h.io".to_string()));
    assert_eq!(host(&parts("https", 443)), Some("h.io".to_string()));
    assert_eq!(host(&parts("wss", 443)), Some("h.io".to_string()));
    assert_eq!(host(&parts("https", 80)), Some("h.io:80".to_string()));
    assert_eq!(host(&parts("ftp", 21)), Some("h.io:21".to_string()));
    assert_eq!(host(&UriParts { scheme: None, host: Some("h".to_string()), port: Some(1) }), Some("h".to_string()));
    assert_eq!(host(&UriParts { scheme: None, host: None, port: None }), None);
}

#[test]
fn backend_uri_and_errors() {
    assert_eq!(default_backend_url(), "http://127.0.0.1:3000");
    assert_eq!(backend_uri("http://127.0.0.1:3000", "/x?y=1"), Ok("http://127.0.0.1:3000/x?y=1".to_string()));
    let err = backend_uri("http://127.0.0.1:3000", "/a b").unwrap_err();
    assert_eq!(err, ProxyError::InvalidUri);
    assert_eq!(err.status(), 400);
    assert_eq!(err.message(), "Invalid backend URL");
    assert_eq!(ProxyError::Unavailable.status(), 502);
    assert_eq!(ProxyError::Unavailable.message(), "Backend service unavailable");
}

#[test]
fn ssr_routes() {
    assert_eq!(route(true, true, true), Route::ClientFile);
    assert_eq!(route(true, false, true), Route::PublicFile);
    assert_eq!(route(true, false, false), Route::Backend);
    assert_eq!(route(false, true, true), Route::Backend);
    assert_eq!(relative_path("/pkg/a.js"), "pkg/a.js");
    assert_eq!(relative_path("a.js"), "a.js");
}
