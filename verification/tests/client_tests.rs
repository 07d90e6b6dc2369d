use zentinel_agents::client::{GrpcTlsConfig, extract_domain};

#[test]
fn test_grpc_tls_config_builder() {
    let config = GrpcTlsConfig::new()
        .with_ca_cert_pem(b"test-ca-cert".to_vec())
        .with_client_identity(b"test-cert".to_vec(), b"test-key".to_vec())
        .with_domain_name("example.com".to_string());

    assert!(config.ca_cert_pem.is_some());
    assert!(config.client_cert_pem.is_some());
    assert!(config.client_key_pem.is_some());
    assert_eq!(config.domain_name, Some("example.com".to_string()));
    assert!(!config.insecure_skip_verify);
}

#[test]
fn test_grpc_tls_config_insecure() {
    let config = GrpcTlsConfig::new().with_insecure_skip_verify();

    assert!(config.insecure_skip_verify);
    assert!(config.ca_cert_pem.is_none());
}

#[test]
fn test_extract_domain_https() {
    assert_eq!(
        extract_domain("https://example.com:443"),
        Some("example.com".to_string())
    );
    assert_eq!(
        extract_domain("https://agent.internal:50051"),
        Some("agent.internal".to_string())
    );
    assert_eq!(
        extract_domain("https://localhost:8080/path"),
        Some("localhost".to_string())
    );
}

#[test]
fn test_extract_domain_http() {
    assert_eq!(
        extract_domain("http://example.com:8080"),
        Some("example.com".to_string())
    );
    assert_eq!(
        extract_domain("http://localhost:50051"),
        Some("localhost".to_string())
    );
}

#[test]
fn test_extract_domain_invalid() {
    assert_eq!(extract_domain("example.com:443"), None);
    assert_eq!(extract_domain("tcp://example.com:443"), None);
    assert_eq!(extract_domain(""), None);
}

#[test]
fn extract_domain_trims_surrounding_whitespace() {
    assert_eq!(
        extract_domain("  https://example.com:443 \n"),
        Some("example.com".to_string())
    );
}
