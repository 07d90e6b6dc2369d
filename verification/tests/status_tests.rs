use zentinel_agents::bundle::{ApiBundleAgent, ApiBundleMeta, ApiBundleResponse, BundleLock,
    StrMap};
use zentinel_agents::bundle_status::{AgentStatus, BundleStatus, Status};

#[test]
fn check_sorts_agents_by_name_and_judges_each() {
    let mut api_agents = Vec::new();
    for name in ["waf", "denylist", "ratelimit"] {
        api_agents.push((name.to_string(), ApiBundleAgent {
            version: "0.2.0".to_string(),
            repository: format!("zentinelproxy/zentinel-agent-{name}"),
            binary_name: format!("zentinel-{name}-agent"),
            download_urls: StrMap::new(),
            checksums: StrMap::new(),
        }));
    }
    let lock = BundleLock::from(ApiBundleResponse {
        schema_version: 1,
        bundle: ApiBundleMeta {
            version: "26.01_1".to_string(),
            generated_at: "2026-02-23T00:00:00Z".to_string(),
        },
        agents: api_agents,
    });
    let mut installed = StrMap::new();
    installed.push_entry("zentinel-waf-agent".to_string(), "0.2.0".to_string());
    installed.push_entry("zentinel-denylist-agent".to_string(), "0.1.0".to_string());

    let status = BundleStatus::check(&lock, &installed);
    let names: Vec<&str> = status.agents.iter().map(|a| a.name.as_str()).collect();
    assert_eq!(names, vec!["denylist", "ratelimit", "waf"]);
    assert_eq!(status.agents[0].status, Status::Outdated);
    assert_eq!(status.agents[1].status, Status::NotInstalled);
    assert_eq!(status.agents[2].status, Status::UpToDate);
    assert_eq!(status.bundle_version, "26.01_1");
}

#[test]
fn test_status_display() {
    let status = AgentStatus {
        name: "waf".to_string(),
        expected_version: "0.2.0".to_string(),
        installed_version: Some("0.2.0".to_string()),
        status: Status::UpToDate,
    };

    assert_eq!(status.status.label(), "up to date");
}

#[test]
fn test_bundle_status_summary() {
    let status = BundleStatus {
        bundle_version: "26.01_1".to_string(),
        agents: vec![
            AgentStatus {
                name: "waf".to_string(),
                expected_version: "0.2.0".to_string(),
                installed_version: Some("0.2.0".to_string()),
                status: Status::UpToDate,
            },
            AgentStatus {
                name: "ratelimit".to_string(),
                expected_version: "0.2.0".to_string(),
                installed_version: None,
                status: Status::NotInstalled,
            },
        ],
    };

    let summary = status.summary();
    assert_eq!(summary.total, 2);
    assert_eq!(summary.up_to_date, 1);
    assert_eq!(summary.not_installed, 1);
}

#[test]
fn pending_and_complete_agree_with_the_statuses() {
    let status = BundleStatus {
        bundle_version: "26.01_1".to_string(),
        agents: vec![
            AgentStatus {
                name: "waf".to_string(),
                expected_version: "0.2.0".to_string(),
                installed_version: Some("0.1.0".to_string()),
                status: Status::Outdated,
            },
        ],
    };
    assert!(!status.is_complete());
    let pending = status.pending_agents();
    assert_eq!(pending.len(), 1);
    assert_eq!(pending[0].name, "waf");
}
