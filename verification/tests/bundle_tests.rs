use zentinel_agents::bundle::{AgentInfo, ApiBundleAgent, ApiBundleMeta, ApiBundleResponse,
    BundleLock, StrMap};

fn lock_with_waf() -> BundleLock {
    let mut api_agents = Vec::new();
    api_agents.push(("waf".to_string(), ApiBundleAgent {
        version: "0.2.0".to_string(),
        repository: "zentinelproxy/zentinel-agent-waf".to_string(),
        binary_name: "zentinel-waf-agent".to_string(),
        download_urls: StrMap::new(),
        checksums: StrMap::new(),
    }));
    BundleLock::from(ApiBundleResponse {
        schema_version: 1,
        bundle: ApiBundleMeta {
            version: "26.01_1".to_string(),
            generated_at: "2026-02-23T00:00:00Z".to_string(),
        },
        agents: api_agents,
    })
}

#[test]
fn test_agent_info() {
    let lock = lock_with_waf();
    let agent = lock.agent("waf").unwrap();

    assert_eq!(agent.name, "waf");
    assert_eq!(agent.version, "0.2.0");
    assert_eq!(agent.binary_name, "zentinel-waf-agent");

    let url = agent.download_url("linux", "amd64");
    assert!(url.contains("zentinel-waf-agent"));
    assert!(url.contains("v0.2.0"));
    assert!(url.contains("x86_64"));
}

#[test]
fn test_agent_not_found() {
    let lock = lock_with_waf();
    assert!(lock.agent("nonexistent").is_none());
}

#[test]
fn test_agent_without_repository() {
    // An agent listed without a repository entry cannot be resolved.
    let mut lock = lock_with_waf();
    lock.agents.push_entry("orphan".to_string(), "1.0.0".to_string());
    assert!(lock.agent("orphan").is_none());
    let agents = lock.agents();
    assert_eq!(agents.len(), 1);
    assert_eq!(agents[0].name, "waf");
}

#[test]
fn test_agent_names() {
    let mut lock = lock_with_waf();
    lock.agents.push_entry("ratelimit".to_string(), "0.2.0".to_string());
    lock.agents.push_entry("denylist".to_string(), "0.2.0".to_string());
    let names = lock.agent_names();
    assert_eq!(names.len(), 3);
    assert!(names.contains(&"waf".to_string()));
    assert!(names.contains(&"ratelimit".to_string()));
    assert!(names.contains(&"denylist".to_string()));
}

#[test]
fn test_download_url_linux_amd64() {
    let agent = AgentInfo {
        name: "waf".to_string(),
        version: "0.2.0".to_string(),
        repository: "zentinelproxy/zentinel-agent-waf".to_string(),
        binary_name: "zentinel-waf-agent".to_string(),
        precomputed_urls: StrMap::new(),
    };

    let url = agent.download_url("linux", "amd64");
    assert_eq!(
        url,
        "https://github.com/zentinelproxy/zentinel-agent-waf/releases/download/v0.2.0/zentinel-waf-agent-0.2.0-linux-x86_64.tar.gz"
    );
}

#[test]
fn test_download_url_linux_arm64() {
    let agent = AgentInfo {
        name: "ratelimit".to_string(),
        version: "1.0.0".to_string(),
        repository: "zentinelproxy/zentinel-agent-ratelimit".to_string(),
        binary_name: "zentinel-ratelimit-agent".to_string(),
        precomputed_urls: StrMap::new(),
    };

    let url = agent.download_url("linux", "arm64");
    assert_eq!(
        url,
        "https://github.com/zentinelproxy/zentinel-agent-ratelimit/releases/download/v1.0.0/zentinel-ratelimit-agent-1.0.0-linux-aarch64.tar.gz"
    );
}

#[test]
fn test_download_url_darwin() {
    let agent = AgentInfo {
        name: "denylist".to_string(),
        version: "0.5.0".to_string(),
        repository: "zentinelproxy/zentinel-agent-denylist".to_string(),
        binary_name: "zentinel-denylist-agent".to_string(),
        precomputed_urls: StrMap::new(),
    };

    let url = agent.download_url("darwin", "arm64");
    assert!(url.contains("darwin"));
    assert!(url.contains("aarch64"));
}

#[test]
fn test_checksum_url() {
    let agent = AgentInfo {
        name: "waf".to_string(),
        version: "0.2.0".to_string(),
        repository: "zentinelproxy/zentinel-agent-waf".to_string(),
        binary_name: "zentinel-waf-agent".to_string(),
        precomputed_urls: StrMap::new(),
    };

    let url = agent.checksum_url("linux", "amd64");
    assert!(url.ends_with(".sha256"));
    assert!(url.contains("zentinel-waf-agent"));
}

#[test]
fn test_embedded_lock() {
    let lock = BundleLock::embedded().unwrap();
    assert!(!lock.bundle.version.is_empty());
    assert!(!lock.agents.is_empty());
}

#[test]
fn test_embedded_lock_has_required_agents() {
    let lock = BundleLock::embedded().unwrap();

    assert!(lock.agent("waf").is_some(), "waf agent should be in bundle");
    assert!(
        lock.agent("ratelimit").is_some(),
        "ratelimit agent should be in bundle"
    );
    assert!(
        lock.agent("denylist").is_some(),
        "denylist agent should be in bundle"
    );

    assert!(
        lock.agent("zentinelsec").is_some(),
        "zentinelsec agent should be in bundle"
    );
    assert!(
        lock.agent("ip-reputation").is_some(),
        "ip-reputation agent should be in bundle"
    );

    assert!(lock.agent("lua").is_some(), "lua agent should be in bundle");
    assert!(lock.agent("js").is_some(), "js agent should be in bundle");
    assert!(
        lock.agent("wasm").is_some(),
        "wasm agent should be in bundle"
    );

    assert!(
        lock.agents.len() >= 20,
        "bundle should have at least 20 agents"
    );
}

#[test]
fn test_api_bundle_response_conversion() {
    let mut download_urls = StrMap::new();
    download_urls.push_entry(
        "linux-x86_64".to_string(),
        "https://example.com/waf-linux-x86_64.tar.gz".to_string(),
    );
    download_urls.push_entry(
        "darwin-aarch64".to_string(),
        "https://example.com/waf-darwin-aarch64.tar.gz".to_string(),
    );

    let mut agents = Vec::new();
    agents.push((
        "waf".to_string(),
        ApiBundleAgent {
            version: "0.3.0".to_string(),
            repository: "zentinelproxy/zentinel-agent-waf".to_string(),
            binary_name: "zentinel-waf-agent".to_string(),
            download_urls,
            checksums: StrMap::new(),
        },
    ));

    let api = ApiBundleResponse {
        schema_version: 1,
        bundle: ApiBundleMeta {
            version: "26.02_13".to_string(),
            generated_at: "2026-02-23T00:00:00Z".to_string(),
        },
        agents,
    };

    let lock = BundleLock::from(api);
    assert_eq!(lock.bundle.version, "26.02_13");
    assert_eq!(lock.agents.get("waf"), Some(&"0.3.0".to_string()));
    assert_eq!(
        lock.binary_names.get("waf"),
        Some(&"zentinel-waf-agent".to_string())
    );

    let agent = lock.agent("waf").unwrap();
    let url = agent.download_url("linux", "amd64");
    assert_eq!(url, "https://example.com/waf-linux-x86_64.tar.gz");

    let url = agent.download_url("darwin", "arm64");
    assert_eq!(url, "https://example.com/waf-darwin-aarch64.tar.gz");
}

#[test]
fn test_precomputed_url_fallback() {
    let agent = AgentInfo {
        name: "waf".to_string(),
        version: "0.3.0".to_string(),
        repository: "zentinelproxy/zentinel-agent-waf".to_string(),
        binary_name: "zentinel-waf-agent".to_string(),
        precomputed_urls: StrMap::new(),
    };

    let url = agent.download_url("linux", "amd64");
    assert_eq!(
        url,
        "https://github.com/zentinelproxy/zentinel-agent-waf/releases/download/v0.3.0/zentinel-waf-agent-0.3.0-linux-x86_64.tar.gz"
    );
}

#[test]
fn test_precomputed_url_used_when_available() {
    let mut precomputed = StrMap::new();
    precomputed.push_entry(
        "linux-x86_64".to_string(),
        "https://api.example.com/waf-custom.tar.gz".to_string(),
    );

    let agent = AgentInfo {
        name: "waf".to_string(),
        version: "0.3.0".to_string(),
        repository: "zentinelproxy/zentinel-agent-waf".to_string(),
        binary_name: "zentinel-waf-agent".to_string(),
        precomputed_urls: precomputed,
    };

    let url = agent.download_url("linux", "amd64");
    assert_eq!(url, "https://api.example.com/waf-custom.tar.gz");

    let url = agent.download_url("darwin", "arm64");
    assert!(url.contains("github.com"));
}
