//! Agent registry: the data the bundle API serves, generated from
//! per-agent registry entries.  Reading registry files and writing
//! JSON stay outside the library.

use vstd::prelude::*;
use vstd::string::StringExecFns;
use crate::bundle::{ApiBundleAgent, StrMap, spec_constructed_url};
use crate::strutil::{str_contains, spec_occurs_at};

verus! {

/// Bundle-level registry metadata.
#[derive(Debug, Clone)]
pub struct BundleMeta {
    /// Bundle version
    pub version: String,
}

/// Identity of one registry agent.
#[derive(Debug, Clone)]
pub struct AgentDef {
    /// Agent name
    pub name: String,
    /// Version
    pub version: String,
    /// GitHub repository
    pub repository: String,
    /// Binary name
    pub binary_name: String,
}

/// Descriptive metadata of one registry agent.
#[derive(Debug, Clone)]
pub struct AgentMetadata {
    /// Description
    pub description: String,
    /// Author
    pub author: String,
    /// License
    pub license: String,
    /// Status, such as stable
    pub status: String,
    /// Category, such as security
    pub category: String,
    /// Tags
    pub tags: Vec<String>,
    /// Protocol version the agent speaks
    pub protocol_version: String,
    /// Oldest proxy version the agent works with
    pub min_zentinel_version: String,
}

/// Whether and where an agent is bundled.
#[derive(Debug, Clone)]
pub struct AgentBundleConfig {
    /// Included in the curated bundle
    pub included: bool,
    /// Bundle group
    pub group: String,
}

/// One agent's registry entry.
#[derive(Debug, Clone)]
pub struct AgentEntry {
    /// Identity
    pub agent: AgentDef,
    /// Descriptive metadata
    pub metadata: AgentMetadata,
    /// Bundle membership, if stated
    pub bundle: Option<AgentBundleConfig>,
}

/// Bundle endpoint payload.
#[derive(Debug)]
pub struct ApiBundleJson {
    /// Schema version of the payload
    pub schema_version: u32,
    /// Bundle metadata
    pub bundle: ApiBundleInfo,
    /// Bundled agents by name, in registry order
    pub agents: Vec<(String, ApiBundleAgent)>,
}

/// Bundle metadata in the payload.
#[derive(Debug)]
pub struct ApiBundleInfo {
    /// Bundle version
    pub version: String,
    /// Generation timestamp
    pub generated_at: String,
}

/// Agent list payload.
#[derive(Debug)]
pub struct ApiAgentsJson {
    /// Schema version of the payload
    pub schema_version: u32,
    /// Every agent, in registry order
    pub agents: Vec<ApiAgentSummary>,
}

/// Summary of one agent in the list payload.
#[derive(Debug)]
pub struct ApiAgentSummary {
    pub name: String,
    pub version: String,
    pub description: String,
    pub author: String,
    pub license: String,
    pub status: String,
    pub category: String,
    pub tags: Vec<String>,
    pub protocol_version: String,
    pub homepage: String,
    pub repository: String,
}

/// Detail payload of one agent.
#[derive(Debug)]
pub struct ApiAgentDetailJson {
    /// Schema version of the payload
    pub schema_version: u32,
    /// The agent
    pub agent: ApiAgentDetail,
}

/// Detail of one agent.
#[derive(Debug)]
pub struct ApiAgentDetail {
    pub name: String,
    pub version: String,
    pub description: String,
    pub author: String,
    pub license: String,
    pub status: String,
    pub category: String,
    pub tags: Vec<String>,
    pub protocol_version: String,
    pub min_zentinel_version: String,
    pub homepage: String,
    pub repository: String,
    pub binary_name: String,
    pub download_urls: StrMap,
    pub checksums: StrMap,
}

/// Health payload.
#[derive(Debug)]
pub struct ApiHealthJson {
    pub status: String,
    pub bundle_version: String,
    pub agent_count: usize,
    pub api_version: String,
    pub generated_at: String,
}

/// The release architecture named inside a platform string: anything
/// mentioning `x86_64` is `x86_64`, everything else is `aarch64`.
pub open spec fn spec_platform_arch(platform: Seq<char>) -> Seq<char> {
    if exists|i: int| spec_occurs_at(platform, "x86_64"@, i) {
        "x86_64"@
    } else {
        "aarch64"@
    }
}

/// The architecture part of a platform string.
pub fn platform_arch(platform: &str) -> (r: &'static str)
    ensures
        r@ == spec_platform_arch(platform@),
{
    if str_contains(platform, "x86_64") {
        "x86_64"
    } else {
        "aarch64"
    }
}

/// The release URL for one agent binary.
pub fn download_url(repo: &str, version: &str, binary_name: &str, os: &str, arch: &str)
    -> (r: String)
    ensures
        r@ == spec_constructed_url(repo@, version@, binary_name@, os@, arch@),
{
    let mut url = String::new();
    url.append("https://github.com/");
    url.append(repo);
    url.append("/releases/download/v");
    url.append(version);
    url.append("/");
    url.append(binary_name);
    url.append("-");
    url.append(version);
    url.append("-");
    url.append(os);
    url.append("-");
    url.append(arch);
    url.append(".tar.gz");
    url
}

/// The four released platforms as (platform, os) pairs.
pub fn release_platforms() -> (r: Vec<(&'static str, &'static str)>)
    ensures
        r@.len() == 4,
        r@[0].0@ == "linux-x86_64"@ && r@[0].1@ == "linux"@,
        r@[1].0@ == "linux-aarch64"@ && r@[1].1@ == "linux"@,
        r@[2].0@ == "darwin-x86_64"@ && r@[2].1@ == "darwin"@,
        r@[3].0@ == "darwin-aarch64"@ && r@[3].1@ == "darwin"@,
{
    let r: Vec<(&'static str, &'static str)> = vec![
        ("linux-x86_64", "linux"),
        ("linux-aarch64", "linux"),
        ("darwin-x86_64", "darwin"),
        ("darwin-aarch64", "darwin"),
    ];
    r
}

/// The download URLs of one agent over the four platforms, keyed by
/// platform, each the constructed release URL.
pub open spec fn spec_agent_urls_ok(urls: Seq<(Seq<char>, String)>, a: AgentDef) -> bool {
    &&& urls.len() == 4
    &&& urls[0].0 == "linux-x86_64"@ && urls[0].1@ == spec_constructed_url(
        a.repository@, a.version@, a.binary_name@, "linux"@, "x86_64"@)
    &&& urls[1].0 == "linux-aarch64"@ && urls[1].1@ == spec_constructed_url(
        a.repository@, a.version@, a.binary_name@, "linux"@, "aarch64"@)
    &&& urls[2].0 == "darwin-x86_64"@ && urls[2].1@ == spec_constructed_url(
        a.repository@, a.version@, a.binary_name@, "darwin"@, "x86_64"@)
    &&& urls[3].0 == "darwin-aarch64"@ && urls[3].1@ == spec_constructed_url(
        a.repository@, a.version@, a.binary_name@, "darwin"@, "aarch64"@)
}

/// Build one agent's download URL map over the four platforms.
fn build_agent_urls(a: &AgentDef) -> (r: StrMap)
    ensures
        spec_agent_urls_ok(r@, *a),
{
    let platforms = release_platforms();
    let mut urls = StrMap::new();
    let u0 = download_url(a.repository.as_str(), a.version.as_str(),
        a.binary_name.as_str(), platforms[0].1, platform_arch(platforms[0].0));
    proof {
        reveal_strlit("linux-x86_64");
        reveal_strlit("linux-aarch64");
        reveal_strlit("darwin-x86_64");
        reveal_strlit("darwin-aarch64");
        reveal_strlit("x86_64");
        assert(spec_occurs_at("linux-x86_64"@, "x86_64"@, 6)) by {
            assert("linux-x86_64"@.subrange(6, 12) =~= "x86_64"@);
        }
        assert(spec_occurs_at("darwin-x86_64"@, "x86_64"@, 7)) by {
            assert("darwin-x86_64"@.subrange(7, 13) =~= "x86_64"@);
        }
        assert(!(exists|i: int| spec_occurs_at("linux-aarch64"@, "x86_64"@, i))) by {
            assert forall|i: int| !spec_occurs_at("linux-aarch64"@, "x86_64"@, i) by {
                if spec_occurs_at("linux-aarch64"@, "x86_64"@, i) {
                    assert("linux-aarch64"@.subrange(i, i + 6)[0] == 'x');
                    assert("linux-aarch64"@.subrange(i, i + 6)[1] == '8');
                    assert("linux-aarch64"@[i] == 'x');
                    assert("linux-aarch64"@[i + 1] == '8');
                }
            }
        }
        assert(!(exists|i: int| spec_occurs_at("darwin-aarch64"@, "x86_64"@, i))) by {
            assert forall|i: int| !spec_occurs_at("darwin-aarch64"@, "x86_64"@, i) by {
                if spec_occurs_at("darwin-aarch64"@, "x86_64"@, i) {
                    assert("darwin-aarch64"@.subrange(i, i + 6)[0] == 'x');
                    assert("darwin-aarch64"@[i] == 'x');
                }
            }
        }
    }
    urls.push_entry(platforms[0].0.to_owned(), u0);
    let u1 = download_url(a.repository.as_str(), a.version.as_str(),
        a.binary_name.as_str(), platforms[1].1, platform_arch(platforms[1].0));
    urls.push_entry(platforms[1].0.to_owned(), u1);
    let u2 = download_url(a.repository.as_str(), a.version.as_str(),
        a.binary_name.as_str(), platforms[2].1, platform_arch(platforms[2].0));
    urls.push_entry(platforms[2].0.to_owned(), u2);
    let u3 = download_url(a.repository.as_str(), a.version.as_str(),
        a.binary_name.as_str(), platforms[3].1, platform_arch(platforms[3].0));
    urls.push_entry(platforms[3].0.to_owned(), u3);
    urls
}

/// The registry entries included in the bundle, in order.
pub open spec fn spec_included(s: Seq<AgentEntry>) -> Seq<AgentEntry>
    decreases s.len(),
{
    if s.len() == 0 {
        Seq::empty()
    } else {
        spec_included(s.drop_last()) + (match s.last().bundle {
            Some(b) => if b.included { seq![s.last()] } else { Seq::empty() },
            None => Seq::empty(),
        })
    }
}

/// Build the bundle endpoint payload: every included agent with its
/// four platform URLs and empty checksums, in registry order.
pub fn generate_bundle_json(bundle: &BundleMeta, agents: &Vec<AgentEntry>, generated_at: &str)
    -> (r: ApiBundleJson)
    ensures
        r.schema_version == 1,
        r.bundle.version == bundle.version,
        r.bundle.generated_at@ == generated_at@,
        r.agents@.len() == spec_included(agents@).len(),
        forall|i: int| 0 <= i < r.agents@.len() ==> {
            let a = #[trigger] spec_included(agents@)[i].agent;
            &&& r.agents@[i].0 == a.name
            &&& r.agents@[i].1.version == a.version
            &&& r.agents@[i].1.repository == a.repository
            &&& r.agents@[i].1.binary_name == a.binary_name
            &&& spec_agent_urls_ok(r.agents@[i].1.download_urls@, a)
            &&& r.agents@[i].1.checksums@.len() == 0
        },
{
    let n = agents.len();
    let mut out: Vec<(String, ApiBundleAgent)> = Vec::new();
    let mut i: usize = 0;
    while i < n
        invariant
            i <= n,
            n == agents@.len(),
            out@.len() == spec_included(agents@.subrange(0, i as int)).len(),
            forall|k: int| 0 <= k < out@.len() ==> {
                let a = #[trigger] spec_included(agents@.subrange(0, i as int))[k].agent;
                &&& out@[k].0 == a.name
                &&& out@[k].1.version == a.version
                &&& out@[k].1.repository == a.repository
                &&& out@[k].1.binary_name == a.binary_name
                &&& spec_agent_urls_ok(out@[k].1.download_urls@, a)
                &&& out@[k].1.checksums@.len() == 0
            },
        decreases n - i,
    {
        proof {
            assert(agents@.subrange(0, (i + 1) as int).drop_last()
                =~= agents@.subrange(0, i as int));
            assert(agents@.subrange(0, (i + 1) as int).last() == agents@[i as int]);
        }
        let is_bundled = match &agents[i].bundle {
            Some(b) => b.included,
            None => false,
        };
        if is_bundled {
            let def = &agents[i].agent;
            let urls = build_agent_urls(def);
            out.push((def.name.clone(), ApiBundleAgent {
                version: def.version.clone(),
                repository: def.repository.clone(),
                binary_name: def.binary_name.clone(),
                download_urls: urls,
                checksums: StrMap::new(),
            }));
        }
        i = i + 1;
    }
    proof {
        assert(agents@.subrange(0, n as int) =~= agents@);
    }
    ApiBundleJson {
        schema_version: 1,
        bundle: ApiBundleInfo {
            version: bundle.version.clone(),
            generated_at: generated_at.to_owned(),
        },
        agents: out,
    }
}

/// The homepage of one agent on the public registry.
pub open spec fn spec_homepage(name: Seq<char>) -> Seq<char> {
    "https://registry.zentinelproxy.io/"@ + name + "/"@
}

/// Build the agent list payload, one summary per agent in order.
pub fn generate_agents_json(agents: &Vec<AgentEntry>) -> (r: ApiAgentsJson)
    ensures
        r.schema_version == 1,
        r.agents@.len() == agents@.len(),
        forall|i: int| 0 <= i < agents@.len() ==> {
            let e = #[trigger] agents@[i];
            &&& r.agents@[i].name == e.agent.name
            &&& r.agents@[i].version == e.agent.version
            &&& r.agents@[i].description == e.metadata.description
            &&& r.agents@[i].author == e.metadata.author
            &&& r.agents@[i].license == e.metadata.license
            &&& r.agents@[i].status == e.metadata.status
            &&& r.agents@[i].category == e.metadata.category
            &&& r.agents@[i].tags@ == e.metadata.tags@
            &&& r.agents@[i].protocol_version == e.metadata.protocol_version
            &&& r.agents@[i].homepage@ == spec_homepage(e.agent.name@)
            &&& r.agents@[i].repository == e.agent.repository
        },
{
    let n = agents.len();
    let mut out: Vec<ApiAgentSummary> = Vec::new();
    let mut i: usize = 0;
    while i < n
        invariant
            i <= n,
            n == agents@.len(),
            out@.len() == i,
            forall|k: int| 0 <= k < i ==> {
                let e = #[trigger] agents@[k];
                &&& out@[k].name == e.agent.name
                &&& out@[k].version == e.agent.version
                &&& out@[k].description == e.metadata.description
                &&& out@[k].author == e.metadata.author
                &&& out@[k].license == e.metadata.license
                &&& out@[k].status == e.metadata.status
                &&& out@[k].category == e.metadata.category
                &&& out@[k].tags@ == e.metadata.tags@
                &&& out@[k].protocol_version == e.metadata.protocol_version
                &&& out@[k].homepage@ == spec_homepage(e.agent.name@)
                &&& out@[k].repository == e.agent.repository
            },
        decreases n - i,
    {
        let e = &agents[i];
        let mut homepage = String::new();
        homepage.append("https://registry.zentinelproxy.io/");
        homepage.append(e.agent.name.as_str());
        homepage.append("/");
        out.push(ApiAgentSummary {
            name: e.agent.name.clone(),
            version: e.agent.version.clone(),
            description: e.metadata.description.clone(),
            author: e.metadata.author.clone(),
            license: e.metadata.license.clone(),
            status: e.metadata.status.clone(),
            category: e.metadata.category.clone(),
            tags: crate::headers::clone_string_vec(&e.metadata.tags),
            protocol_version: e.metadata.protocol_version.clone(),
            homepage,
            repository: e.agent.repository.clone(),
        });
        i = i + 1;
    }
    ApiAgentsJson { schema_version: 1, agents: out }
}

/// Build the detail payload of one agent.
pub fn generate_agent_detail_json(entry: &AgentEntry) -> (r: ApiAgentDetailJson)
    ensures
        r.schema_version == 1,
        r.agent.name == entry.agent.name,
        r.agent.version == entry.agent.version,
        r.agent.description == entry.metadata.description,
        r.agent.author == entry.metadata.author,
        r.agent.license == entry.metadata.license,
        r.agent.status == entry.metadata.status,
        r.agent.category == entry.metadata.category,
        r.agent.tags@ == entry.metadata.tags@,
        r.agent.protocol_version == entry.metadata.protocol_version,
        r.agent.min_zentinel_version == entry.metadata.min_zentinel_version,
        r.agent.homepage@ == spec_homepage(entry.agent.name@),
        r.agent.repository == entry.agent.repository,
        r.agent.binary_name == entry.agent.binary_name,
        spec_agent_urls_ok(r.agent.download_urls@, entry.agent),
        r.agent.checksums@.len() == 0,
{
    let urls = build_agent_urls(&entry.agent);
    let mut homepage = String::new();
    homepage.append("https://registry.zentinelproxy.io/");
    homepage.append(entry.agent.name.as_str());
    homepage.append("/");
    ApiAgentDetailJson {
        schema_version: 1,
        agent: ApiAgentDetail {
            name: entry.agent.name.clone(),
            version: entry.agent.version.clone(),
            description: entry.metadata.description.clone(),
            author: entry.metadata.author.clone(),
            license: entry.metadata.license.clone(),
            status: entry.metadata.status.clone(),
            category: entry.metadata.category.clone(),
            tags: crate::headers::clone_string_vec(&entry.metadata.tags),
            protocol_version: entry.metadata.protocol_version.clone(),
            min_zentinel_version: entry.metadata.min_zentinel_version.clone(),
            homepage,
            repository: entry.agent.repository.clone(),
            binary_name: entry.agent.binary_name.clone(),
            download_urls: urls,
            checksums: StrMap::new(),
        },
    }
}

/// Build the health payload.
pub fn generate_health_json(bundle: &BundleMeta, agent_count: usize, generated_at: &str)
    -> (r: ApiHealthJson)
    ensures
        r.status@ == "ok"@,
        r.bundle_version == bundle.version,
        r.agent_count == agent_count,
        r.api_version@ == "v1"@,
        r.generated_at@ == generated_at@,
{
    ApiHealthJson {
        status: String::from_str("ok"),
        bundle_version: bundle.version.clone(),
        agent_count,
        api_version: String::from_str("v1"),
        generated_at: generated_at.to_owned(),
    }
}

} // verus!
