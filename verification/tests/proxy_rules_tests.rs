use zentinel_agents::proxy_rules::{CertExpiry, CorsConfig, TimeoutOverride,
    apply_timeout_override, cert_expiry_status, compress_eligible, cors_preflight_headers,
    cors_response_headers, is_cors_preflight, is_origin_allowed};
use zentinel_agents::bundle::schema_version_supported;

fn cors() -> CorsConfig {
    CorsConfig {
        allowed_origins: vec!["https://site.example".to_string()],
        allowed_methods: vec!["GET".to_string(), "POST".to_string()],
        allowed_headers: vec![],
        exposed_headers: vec!["x-trace".to_string()],
        allow_credentials: true,
        max_age_secs: 600,
    }
}

#[test]
fn origin_matching_honors_the_wildcard() {
    let exact = vec!["https://site.example".to_string()];
    assert!(is_origin_allowed("https://site.example", &exact));
    assert!(!is_origin_allowed("https://other.example", &exact));
    let any = vec!["*".to_string()];
    assert!(is_origin_allowed("https://other.example", &any));
    assert!(!is_origin_allowed("x", &vec![]));
}

#[test]
fn preflight_headers_mirror_the_request_when_none_are_configured() {
    let c = cors();
    assert!(is_cors_preflight("OPTIONS", true));
    assert!(!is_cors_preflight("GET", true));
    assert!(!is_cors_preflight("OPTIONS", false));

    let headers = cors_preflight_headers(&c, &"https://site.example".to_string(),
        Some("x-custom, content-type".to_string()));
    let as_pairs: Vec<(&str, &str)> =
        headers.iter().map(|(k, v)| (k.as_str(), v.as_str())).collect();
    assert_eq!(as_pairs, vec![
        ("Access-Control-Allow-Origin", "https://site.example"),
        ("Access-Control-Allow-Methods", "GET, POST"),
        ("Access-Control-Allow-Headers", "x-custom, content-type"),
        ("Access-Control-Allow-Credentials", "true"),
        ("Access-Control-Max-Age", "600"),
        ("Content-Length", "0"),
    ]);
}

#[test]
fn response_headers_expose_and_vary() {
    let c = cors();
    let headers = cors_response_headers(&c, &"https://site.example".to_string());
    let as_pairs: Vec<(&str, &str)> =
        headers.iter().map(|(k, v)| (k.as_str(), v.as_str())).collect();
    assert_eq!(as_pairs, vec![
        ("Access-Control-Allow-Origin", "https://site.example"),
        ("Access-Control-Allow-Credentials", "true"),
        ("Access-Control-Expose-Headers", "x-trace"),
        ("Vary", "Origin"),
    ]);
}

#[test]
fn compression_needs_type_size_and_no_prior_encoding() {
    let types = vec!["text/".to_string(), "application/json".to_string()];
    assert!(compress_eligible("text/html; charset=utf-8", &types, Some(2048), 1024, false));
    assert!(!compress_eligible("image/png", &types, Some(2048), 1024, false));
    assert!(!compress_eligible("text/html", &types, Some(100), 1024, false));
    assert!(compress_eligible("text/html", &types, None, 1024, false));
    assert!(!compress_eligible("text/html", &types, Some(2048), 1024, true));
}

#[test]
fn timeout_overrides_keep_what_the_filter_leaves() {
    let current = TimeoutOverride { connect_timeout_secs: Some(5), upstream_timeout_secs: None };
    let filter = TimeoutOverride { connect_timeout_secs: None, upstream_timeout_secs: Some(30) };
    let merged = apply_timeout_override(current, filter);
    assert_eq!(merged.connect_timeout_secs, Some(5));
    assert_eq!(merged.upstream_timeout_secs, Some(30));
}

#[test]
fn certificate_expiry_is_judged_against_the_thirty_day_window() {
    assert_eq!(cert_expiry_status(999, 1000), CertExpiry::Expired);
    assert_eq!(cert_expiry_status(1000, 1000), CertExpiry::ExpiringSoon);
    assert_eq!(cert_expiry_status(1000 + 30 * 86400 - 1, 1000), CertExpiry::ExpiringSoon);
    assert_eq!(cert_expiry_status(1000 + 30 * 86400, 1000), CertExpiry::Valid);
}

#[test]
fn unknown_newer_schemas_are_rejected() {
    assert!(schema_version_supported(0));
    assert!(schema_version_supported(1));
    assert!(!schema_version_supported(99));
}
