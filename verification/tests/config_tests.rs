use zentinel_agents::config::Config;

#[test]
fn test_default_config() {
    let config = Config::default();
    assert_eq!(config.server.listen_address, "0.0.0.0:8080");
    assert_eq!(config.default_upstream.address, "127.0.0.1:8081");
    assert_eq!(config.limits.max_header_count, 100);
}

#[test]
fn test_config_validation() {
    let mut config = Config::default();
    assert!(config.validate().is_ok());

    config.server.worker_threads = 0;
    assert!(config.validate().is_err());

    config.server.worker_threads = 4;
    config.limits.max_header_count = 0;
    assert!(config.validate().is_err());
}

#[test]
fn validation_reports_the_first_violation() {
    let mut config = Config::default();
    config.limits.max_header_size = 0;
    assert_eq!(config.validate().unwrap_err(), "Max header size must be > 0");
}
