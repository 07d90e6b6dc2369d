use zentinel_agents::registry::{AgentBundleConfig, AgentDef, AgentEntry, AgentMetadata,
    BundleMeta, download_url, generate_agent_detail_json, generate_agents_json,
    generate_bundle_json, generate_health_json, platform_arch};

fn test_bundle_meta() -> BundleMeta {
    BundleMeta {
        version: "26.02_13".to_string(),
    }
}

fn test_agent() -> AgentEntry {
    AgentEntry {
        agent: AgentDef {
            name: "waf".to_string(),
            version: "0.3.0".to_string(),
            repository: "zentinelproxy/zentinel-agent-waf".to_string(),
            binary_name: "zentinel-waf-agent".to_string(),
        },
        metadata: AgentMetadata {
            description: "Test WAF agent".to_string(),
            author: "Test".to_string(),
            license: "Apache-2.0".to_string(),
            status: "stable".to_string(),
            category: "security".to_string(),
            tags: vec!["security".to_string(), "waf".to_string()],
            protocol_version: "v2".to_string(),
            min_zentinel_version: "26.01.0".to_string(),
        },
        bundle: Some(AgentBundleConfig {
            included: true,
            group: "Core agents".to_string(),
        }),
    }
}

#[test]
fn test_download_url_format() {
    let url = download_url(
        "zentinelproxy/zentinel-agent-waf",
        "0.3.0",
        "zentinel-waf-agent",
        "linux",
        "x86_64",
    );
    assert_eq!(
        url,
        "https://github.com/zentinelproxy/zentinel-agent-waf/releases/download/v0.3.0/zentinel-waf-agent-0.3.0-linux-x86_64.tar.gz"
    );
}

#[test]
fn test_generate_bundle_json() {
    let bundle = test_bundle_meta();
    let agents = vec![test_agent()];
    let result = generate_bundle_json(&bundle, &agents, "2026-02-23T00:00:00Z");

    assert_eq!(result.schema_version, 1);
    assert_eq!(result.bundle.version, "26.02_13");
    assert!(result.agents.iter().any(|(name, _)| name == "waf"));

    let waf = &result.agents.iter().find(|(name, _)| name == "waf").unwrap().1;
    assert_eq!(waf.version, "0.3.0");
    assert_eq!(waf.download_urls.len(), 4);
    assert!(waf.download_urls.contains("linux-x86_64"));
}

#[test]
fn test_generate_agents_json() {
    let agents = vec![test_agent()];
    let result = generate_agents_json(&agents);

    assert_eq!(result.schema_version, 1);
    assert_eq!(result.agents.len(), 1);
    assert_eq!(result.agents[0].name, "waf");
    assert_eq!(result.agents[0].homepage, "https://registry.zentinelproxy.io/waf/");
}

#[test]
fn test_generate_health_json() {
    let bundle = test_bundle_meta();
    let result = generate_health_json(&bundle, 22, "2026-02-23T00:00:00Z");

    assert_eq!(result.status, "ok");
    assert_eq!(result.agent_count, 22);
    assert_eq!(result.api_version, "v1");
}

#[test]
fn test_unbundled_agent_excluded_from_bundle_json() {
    let bundle = test_bundle_meta();
    let mut agent = test_agent();
    agent.bundle = Some(AgentBundleConfig {
        included: false,
        group: "Other".to_string(),
    });

    let result = generate_bundle_json(&bundle, &vec![agent], "2026-02-23T00:00:00Z");
    assert!(result.agents.is_empty());
}

#[test]
fn test_agent_detail_json() {
    let agent = test_agent();
    let detail = generate_agent_detail_json(&agent);

    assert_eq!(detail.schema_version, 1);
    assert_eq!(detail.agent.name, "waf");
    assert_eq!(detail.agent.min_zentinel_version, "26.01.0");
    assert_eq!(detail.agent.download_urls.len(), 4);
}

#[test]
fn platform_arch_reads_the_architecture() {
    assert_eq!(platform_arch("linux-x86_64"), "x86_64");
    assert_eq!(platform_arch("darwin-aarch64"), "aarch64");
}
