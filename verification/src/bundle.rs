//! Bundle lock model: which agent versions belong together, where
//! their binaries live, and how download URLs are formed.  Fetching
//! and file I/O live outside the library.

use vstd::prelude::*;
use vstd::string::StringExecFns;
use crate::strutil::{str_eq, str_has_prefix, spec_has_prefix};
use vstd::string::StrSliceExecFns;

verus! {

/// Index of the first entry named `key`, or `-1`.
pub open spec fn spec_map_idx(s: Seq<(Seq<char>, String)>, key: Seq<char>) -> int
    decreases s.len(),
{
    if s.len() == 0 {
        -1
    } else if s[0].0 == key {
        0
    } else {
        let r = spec_map_idx(s.subrange(1, s.len() as int), key);
        if r < 0 { -1 } else { r + 1 }
    }
}

/// The entry the search finds is the first with that key.
pub proof fn lemma_map_idx(s: Seq<(Seq<char>, String)>, key: Seq<char>)
    ensures
        spec_map_idx(s, key) >= 0 ==> 0 <= spec_map_idx(s, key) < s.len()
            && s[spec_map_idx(s, key)].0 == key
            && (forall|k: int| 0 <= k < spec_map_idx(s, key) ==> s[k].0 != key),
        spec_map_idx(s, key) < 0 ==> (forall|k: int| 0 <= k < s.len() ==> s[k].0 != key),
    decreases s.len(),
{
    if s.len() > 0 && s[0].0 != key {
        let t = s.subrange(1, s.len() as int);
        lemma_map_idx(t, key);
        assert(forall|k: int| 0 <= k < t.len() ==> t[k] == s[k + 1]);
        let r = spec_map_idx(t, key);
        if r >= 0 {
            assert forall|k: int| 0 <= k < r + 1 implies s[k].0 != key by {
                if k > 0 {
                    assert(s[k] == t[k - 1]);
                }
            }
        } else {
            assert forall|k: int| 0 <= k < s.len() implies s[k].0 != key by {
                if k > 0 {
                    assert(s[k] == t[k - 1]);
                }
            }
        }
    }
}

/// The value of the first entry named `key`, when present.
pub open spec fn spec_map_get(s: Seq<(Seq<char>, String)>, key: Seq<char>) -> Option<String> {
    if spec_map_idx(s, key) >= 0 {
        Some(s[spec_map_idx(s, key)].1)
    } else {
        None
    }
}

/// String-to-string map with insertion order kept.
#[derive(Debug, Clone)]
pub struct StrMap {
    entries: Vec<(String, String)>,
}

impl View for StrMap {
    type V = Seq<(Seq<char>, String)>;

    closed spec fn view(&self) -> Seq<(Seq<char>, String)> {
        self.entries@.map_values(|p: (String, String)| (p.0@, p.1))
    }
}

impl StrMap {
    /// Empty map.
    pub fn new() -> (m: StrMap)
        ensures
            m@ =~= Seq::<(Seq<char>, String)>::empty(),
    {
        StrMap { entries: Vec::new() }
    }

    /// Number of entries.
    pub fn len(&self) -> (n: usize)
        ensures
            n == self@.len(),
    {
        self.entries.len()
    }

    /// True when no entry exists.
    pub fn is_empty(&self) -> (r: bool)
        ensures
            r == (self@.len() == 0),
    {
        self.entries.len() == 0
    }

    /// Append an entry; the caller keeps keys distinct.
    pub fn push_entry(&mut self, key: String, value: String)
        ensures
            final(self)@ == old(self)@.push((key@, value)),
    {
        self.entries.push((key, value));
        proof {
            assert(final(self)@ =~= old(self)@.push((key@, value)));
        }
    }

    /// Index of the first entry named `key`.
    fn find(&self, key: &str) -> (r: Option<usize>)
        ensures
            match r {
                Some(i) => spec_map_idx(self@, key@) == i && i < self@.len(),
                None => spec_map_idx(self@, key@) < 0,
            },
    {
        let n = self.entries.len();
        let mut i: usize = 0;
        while i < n
            invariant
                i <= n,
                n == self.entries@.len(),
                forall|k: int| 0 <= k < i ==> self@[k].0 != key@,
            decreases n - i,
        {
            if str_eq(self.entries[i].0.as_str(), key) {
                proof {
                    lemma_map_idx(self@, key@);
                    let r = spec_map_idx(self@, key@);
                    if r < 0 {
                        assert(self@[i as int].0 != key@);
                    } else if r < i {
                        assert(self@[r].0 != key@);
                    } else if r > i {
                        assert(self@[i as int].0 != key@);
                    }
                }
                return Some(i);
            }
            i = i + 1;
        }
        proof {
            lemma_map_idx(self@, key@);
            if spec_map_idx(self@, key@) >= 0 {
                assert(self@[spec_map_idx(self@, key@)].0 != key@);
            }
        }
        None
    }

    /// The value stored under `key`, when present.
    pub fn get<'a>(&'a self, key: &str) -> (r: Option<&'a String>)
        ensures
            match r {
                Some(v) => spec_map_get(self@, key@) == Some(*v),
                None => spec_map_get(self@, key@) is None,
            },
    {
        match self.find(key) {
            Some(i) => Some(&self.entries[i].1),
            None => None,
        }
    }

    /// True when an entry named `key` exists.
    pub fn contains(&self, key: &str) -> (r: bool)
        ensures
            r == (spec_map_idx(self@, key@) >= 0),
    {
        self.find(key).is_some()
    }

    /// All entries, in order.
    pub fn pairs<'a>(&'a self) -> (r: &'a Vec<(String, String)>)
        ensures
            r@.map_values(|p: (String, String)| (p.0@, p.1)) == self@,
    {
        &self.entries
    }

    /// The keys, in order.
    pub fn keys(&self) -> (r: Vec<String>)
        ensures
            r@.map_values(|k: String| k@) =~= self@.map_values(|p: (Seq<char>, String)| p.0),
    {
        let n = self.entries.len();
        let mut out: Vec<String> = Vec::new();
        let mut i: usize = 0;
        while i < n
            invariant
                i <= n,
                n == self.entries@.len(),
                out@.len() == i,
                forall|k: int| 0 <= k < i ==> #[trigger] out@[k]@ == self@[k].0,
            decreases n - i,
        {
            out.push(self.entries[i].0.clone());
            i = i + 1;
        }
        out
    }
}

/// Bundle metadata.
#[derive(Debug, Clone)]
pub struct BundleInfo {
    /// Bundle version
    pub version: String,
}

/// Bundle lock: agent versions, repositories, binary names, optional
/// checksums and precomputed download URLs keyed by "agent-platform".
#[derive(Debug, Clone)]
pub struct BundleLock {
    /// Bundle metadata
    pub bundle: BundleInfo,
    /// Agent name to version
    pub agents: StrMap,
    /// Agent name to "owner/repo"
    pub repositories: StrMap,
    /// Agent name to binary-name override
    pub binary_names: StrMap,
    /// Agent name to checksum
    pub checksums: StrMap,
    /// "agent-platform" to full URL, from the bundle API
    pub precomputed_urls: StrMap,
}

/// Per-agent data from the bundle API.
#[derive(Debug, Clone)]
pub struct ApiBundleAgent {
    /// Agent version
    pub version: String,
    /// GitHub repository
    pub repository: String,
    /// Binary name
    pub binary_name: String,
    /// Platform to full URL
    pub download_urls: StrMap,
    /// Platform to checksum
    pub checksums: StrMap,
}

/// Bundle-level metadata from the API.
#[derive(Debug, Clone)]
pub struct ApiBundleMeta {
    /// Bundle version
    pub version: String,
    /// Generation timestamp
    pub generated_at: String,
}

/// Response of the bundle API endpoint.
#[derive(Debug, Clone)]
pub struct ApiBundleResponse {
    /// Schema version of the response
    pub schema_version: u32,
    /// Bundle metadata
    pub bundle: ApiBundleMeta,
    /// Agents by name
    pub agents: Vec<(String, ApiBundleAgent)>,
}

/// One bundled agent, resolved.
#[derive(Debug, Clone)]
pub struct AgentInfo {
    /// Agent name
    pub name: String,
    /// Version string
    pub version: String,
    /// GitHub repository
    pub repository: String,
    /// Binary name
    pub binary_name: String,
    /// Precomputed download URLs keyed by platform
    pub precomputed_urls: StrMap,
}

/// The architecture name used in release assets.
pub open spec fn spec_release_arch(arch: Seq<char>) -> Seq<char> {
    if arch == "amd64"@ {
        "x86_64"@
    } else if arch == "arm64"@ {
        "aarch64"@
    } else {
        arch
    }
}

/// The constructed release URL for an agent binary.
pub open spec fn spec_constructed_url(
    repository: Seq<char>,
    version: Seq<char>,
    binary_name: Seq<char>,
    os: Seq<char>,
    release_arch: Seq<char>,
) -> Seq<char> {
    "https://github.com/"@ + repository + "/releases/download/v"@ + version
        + "/"@ + binary_name + "-"@ + version + "-"@ + os + "-"@ + release_arch
        + ".tar.gz"@
}

impl AgentInfo {
    /// The download URL for this agent on one platform: the API's
    /// precomputed URL when it knows the platform, else the release
    /// URL constructed from repository, version and binary name.
    /// `amd64` and `arm64` map to the release names `x86_64` and
    /// `aarch64`.
    pub fn download_url(&self, os: &str, arch: &str) -> (r: String)
        ensures
            match spec_map_get(self.precomputed_urls@,
                os@ + "-"@ + spec_release_arch(arch@)) {
                Some(u) => r == u,
                None => r@ == spec_constructed_url(self.repository@, self.version@,
                    self.binary_name@, os@, spec_release_arch(arch@)),
            },
    {
        let release_arch: &str = if str_eq(arch, "amd64") {
            "x86_64"
        } else if str_eq(arch, "arm64") {
            "aarch64"
        } else {
            arch
        };
        let mut platform_key = String::new();
        platform_key.append(os);
        platform_key.append("-");
        platform_key.append(release_arch);
        match self.precomputed_urls.get(platform_key.as_str()) {
            Some(u) => u.clone(),
            None => {
                let mut url = String::new();
                url.append("https://github.com/");
                url.append(self.repository.as_str());
                url.append("/releases/download/v");
                url.append(self.version.as_str());
                url.append("/");
                url.append(self.binary_name.as_str());
                url.append("-");
                url.append(self.version.as_str());
                url.append("-");
                url.append(os);
                url.append("-");
                url.append(release_arch);
                url.append(".tar.gz");
                url
            },
        }
    }

    /// The checksum URL: the download URL with `.sha256` appended.
    pub fn checksum_url(&self, os: &str, arch: &str) -> (r: String)
        ensures
            match spec_map_get(self.precomputed_urls@,
                os@ + "-"@ + spec_release_arch(arch@)) {
                Some(u) => r@ == u@ + ".sha256"@,
                None => r@ == spec_constructed_url(self.repository@, self.version@,
                    self.binary_name@, os@, spec_release_arch(arch@)) + ".sha256"@,
            },
    {
        let mut url = self.download_url(os, arch);
        url.append(".sha256");
        url
    }
}

/// The default binary name for an agent: `zentinel-{name}-agent`.
pub open spec fn spec_default_binary_name(name: Seq<char>) -> Seq<char> {
    "zentinel-"@ + name + "-agent"@
}

/// How one resolved `AgentInfo` relates to the lock's maps.
pub open spec fn spec_agent_resolved(lock: BundleLock, info: AgentInfo) -> bool {
    &&& spec_map_get(lock.agents@, info.name@) == Some(info.version)
    &&& spec_map_get(lock.repositories@, info.name@) == Some(info.repository)
    &&& match spec_map_get(lock.binary_names@, info.name@) {
        Some(b) => info.binary_name == b,
        None => info.binary_name@ == spec_default_binary_name(info.name@),
    }
    &&& info.precomputed_urls@ == spec_urls_for(lock.precomputed_urls@, info.name@)
}

/// The platform-to-URL entries belonging to one agent: entries whose
/// key starts with the agent's name and a dash, with that prefix cut.
pub open spec fn spec_urls_for(s: Seq<(Seq<char>, String)>, name: Seq<char>)
    -> Seq<(Seq<char>, String)>
    decreases s.len(),
{
    if s.len() == 0 {
        Seq::empty()
    } else {
        spec_urls_for(s.drop_last(), name) + (if spec_has_prefix(s.last().0, name + "-"@) {
            seq![(s.last().0.subrange(name.len() as int + 1, s.last().0.len() as int), s.last().1)]
        } else {
            Seq::empty()
        })
    }
}

impl BundleLock {
    /// The platform URLs for one agent, with the "agent-" prefix cut.
    pub fn precomputed_urls_for(&self, agent_name: &str) -> (r: StrMap)
        ensures
            r@ == spec_urls_for(self.precomputed_urls@, agent_name@),
    {
        let mut prefix = String::new();
        prefix.append(agent_name);
        prefix.append("-");
        let pairs = self.precomputed_urls.pairs();
        let n = pairs.len();
        let mut out = StrMap::new();
        let mut i: usize = 0;
        while i < n
            invariant
                i <= n,
                n == pairs@.len(),
                prefix@ == agent_name@ + "-"@,
                pairs@.map_values(|p: (String, String)| (p.0@, p.1))
                    == self.precomputed_urls@,
                out@ == spec_urls_for(self.precomputed_urls@.subrange(0, i as int),
                    agent_name@),
            decreases n - i,
        {
            proof {
                assert(self.precomputed_urls@.subrange(0, (i + 1) as int).drop_last()
                    =~= self.precomputed_urls@.subrange(0, i as int));
                assert(self.precomputed_urls@.subrange(0, (i + 1) as int).last()
                    == self.precomputed_urls@[i as int]);
            }
            let key = &pairs[i].0;
            if str_has_prefix(key.as_str(), prefix.as_str()) {
                proof {
                    reveal_strlit("-");
                    assert(prefix@.len() == agent_name@.len() + 1);
                }
                let klen = key.as_str().unicode_len();
                let plen = prefix.as_str().unicode_len();
                let platform = key.as_str().substring_char(plen, klen);
                out.push_entry(platform.to_owned(), pairs[i].1.clone());
                proof {
                    assert(platform@ =~= self.precomputed_urls@[i as int].0
                        .subrange(agent_name@.len() as int + 1,
                            self.precomputed_urls@[i as int].0.len() as int));
                }
            }
            i = i + 1;
        }
        proof {
            assert(self.precomputed_urls@.subrange(0, n as int) =~= self.precomputed_urls@);
        }
        out
    }

    /// Resolve one agent by name: its version, repository, binary
    /// name (the override or the default), and its platform URLs.
    /// `None` when the agent or its repository is not in the lock.
    pub fn agent(&self, name: &str) -> (r: Option<AgentInfo>)
        ensures
            match r {
                Some(info) => info.name@ == name@ && spec_agent_resolved(*self, info),
                None => spec_map_get(self.agents@, name@) is None
                    || spec_map_get(self.repositories@, name@) is None,
            },
    {
        let version = match self.agents.get(name) {
            Some(v) => v.clone(),
            None => {
                return None;
            },
        };
        let repository = match self.repositories.get(name) {
            Some(v) => v.clone(),
            None => {
                return None;
            },
        };
        let binary_name = match self.binary_names.get(name) {
            Some(b) => b.clone(),
            None => {
                let mut b = String::new();
                b.append("zentinel-");
                b.append(name);
                b.append("-agent");
                b
            },
        };
        let precomputed_urls = self.precomputed_urls_for(name);
        Some(AgentInfo {
            name: name.to_owned(),
            version,
            repository,
            binary_name,
            precomputed_urls,
        })
    }

    /// Resolve every agent that has a repository, in lock order: the
    /// result holds exactly the listed names whose repository is
    /// known, each resolved against the lock's maps.
    pub fn agents(&self) -> (r: Vec<AgentInfo>)
        ensures
            r@.map_values(|a: AgentInfo| a.name@) == spec_resolved_names(
                self.agents@.map_values(|p: (Seq<char>, String)| p.0), self.repositories@),
            forall|i: int| 0 <= i < r@.len() ==> spec_agent_resolved(*self, #[trigger] r@[i]),
    {
        let names = self.agents.keys();
        let n = names.len();
        let ghost all = self.agents@.map_values(|p: (Seq<char>, String)| p.0);
        let mut out: Vec<AgentInfo> = Vec::new();
        let mut i: usize = 0;
        while i < n
            invariant
                i <= n,
                n == names@.len(),
                n == all.len(),
                all == self.agents@.map_values(|p: (Seq<char>, String)| p.0),
                forall|k: int| 0 <= k < n ==> #[trigger] names@[k]@ == all[k],
                out@.map_values(|a: AgentInfo| a.name@)
                    == spec_resolved_names(all.subrange(0, i as int), self.repositories@),
                forall|k: int| 0 <= k < out@.len()
                    ==> spec_agent_resolved(*self, #[trigger] out@[k]),
            decreases n - i,
        {
            proof {
                assert(all.subrange(0, (i + 1) as int).drop_last()
                    =~= all.subrange(0, i as int));
                assert(all.subrange(0, (i + 1) as int).last() == all[i as int]);
                lemma_map_idx(self.agents@, all[i as int]);
                if spec_map_idx(self.agents@, all[i as int]) < 0 {
                    assert(self.agents@[i as int].0 != all[i as int]);
                }
            }
            let ghost prev = out@;
            match self.agent(names[i].as_str()) {
                Some(info) => {
                    out.push(info);
                    proof {
                        assert(out@.map_values(|a: AgentInfo| a.name@)
                            =~= prev.map_values(|a: AgentInfo| a.name@)
                                .push(all[i as int]));
                    }
                },
                None => {},
            }
            i = i + 1;
        }
        proof {
            assert(all.subrange(0, n as int) =~= all);
        }
        out
    }

    /// The agent names, in lock order.
    pub fn agent_names(&self) -> (r: Vec<String>)
        ensures
            r@.map_values(|k: String| k@)
                =~= self.agents@.map_values(|p: (Seq<char>, String)| p.0),
    {
        self.agents.keys()
    }

    /// The lock built into the proxy: the curated agent set, every
    /// agent with its repository, and no checksums or precomputed
    /// URLs.
    pub fn embedded() -> (r: Result<BundleLock, String>)
        ensures
            r matches Ok(lock) && lock.agents@.len() >= 20
                && lock.agents@.len() == lock.repositories@.len()
                && (forall|i: int| 0 <= i < lock.agents@.len()
                    ==> #[trigger] lock.repositories@[i].0 == lock.agents@[i].0)
                && lock.checksums@.len() == 0
                && lock.precomputed_urls@.len() == 0
                && lock.bundle.version@.len() > 0,
    {
        let entries: Vec<(&'static str, &'static str, &'static str)> = vec![
            ("waf", "0.2.0", "zentinelproxy/zentinel-agent-waf"),
            ("ratelimit", "0.2.0", "zentinelproxy/zentinel-agent-ratelimit"),
            ("denylist", "0.2.0", "zentinelproxy/zentinel-agent-denylist"),
            ("zentinelsec", "0.2.0", "zentinelproxy/zentinel-agent-zentinelsec"),
            ("ip-reputation", "0.2.0", "zentinelproxy/zentinel-agent-ip-reputation"),
            ("lua", "0.2.0", "zentinelproxy/zentinel-agent-lua"),
            ("js", "0.2.0", "zentinelproxy/zentinel-agent-js"),
            ("wasm", "0.2.0", "zentinelproxy/zentinel-agent-wasm"),
            ("echo", "0.2.0", "zentinelproxy/zentinel-agent-echo"),
            ("auth", "0.2.0", "zentinelproxy/zentinel-agent-auth"),
            ("jwt", "0.2.0", "zentinelproxy/zentinel-agent-jwt"),
            ("oauth2", "0.2.0", "zentinelproxy/zentinel-agent-oauth2"),
            ("geoip", "0.2.0", "zentinelproxy/zentinel-agent-geoip"),
            ("bot-detect", "0.2.0", "zentinelproxy/zentinel-agent-bot-detect"),
            ("headers", "0.2.0", "zentinelproxy/zentinel-agent-headers"),
            ("rewrite", "0.2.0", "zentinelproxy/zentinel-agent-rewrite"),
            ("redirect", "0.2.0", "zentinelproxy/zentinel-agent-redirect"),
            ("cache-control", "0.2.0", "zentinelproxy/zentinel-agent-cache-control"),
            ("tarpit", "0.2.0", "zentinelproxy/zentinel-agent-tarpit"),
            ("audit-log", "0.2.0", "zentinelproxy/zentinel-agent-audit-log"),
            ("csrf", "0.2.0", "zentinelproxy/zentinel-agent-csrf"),
            ("mirror", "0.2.0", "zentinelproxy/zentinel-agent-mirror"),
        ];
        let n = entries.len();
        let mut agents = StrMap::new();
        let mut repositories = StrMap::new();
        let mut i: usize = 0;
        while i < n
            invariant
                i <= n,
                n == entries@.len(),
                n == 22,
                agents@.len() == i,
                repositories@.len() == i,
                forall|k: int| 0 <= k < i
                    ==> #[trigger] repositories@[k].0 == agents@[k].0,
            decreases n - i,
        {
            let (name, version, repo) = entries[i];
            agents.push_entry(name.to_owned(), version.to_owned());
            repositories.push_entry(name.to_owned(), repo.to_owned());
            i = i + 1;
        }
        let version = String::from_str("26.01_1");
        proof {
            reveal_strlit("26.01_1");
        }
        Ok(BundleLock {
            bundle: BundleInfo { version },
            agents,
            repositories,
            binary_names: StrMap::new(),
            checksums: StrMap::new(),
            precomputed_urls: StrMap::new(),
        })
    }

    /// Build the lock from a bundle API response.  Checksums stay
    /// empty; each agent's platform URLs are flattened under
    /// "agent-platform" keys.
    pub fn from(api: ApiBundleResponse) -> (r: BundleLock)
        ensures
            r.bundle.version == api.bundle.version,
            r.agents@.len() == api.agents@.len(),
            forall|i: int| 0 <= i < api.agents@.len()
                ==> #[trigger] r.agents@[i] == (api.agents@[i].0@, api.agents@[i].1.version),
            r.repositories@.len() == api.agents@.len(),
            forall|i: int| 0 <= i < api.agents@.len()
                ==> #[trigger] r.repositories@[i]
                    == (api.agents@[i].0@, api.agents@[i].1.repository),
            r.binary_names@.len() == api.agents@.len(),
            forall|i: int| 0 <= i < api.agents@.len()
                ==> #[trigger] r.binary_names@[i]
                    == (api.agents@[i].0@, api.agents@[i].1.binary_name),
            r.checksums@.len() == 0,
            r.precomputed_urls@ == spec_api_urls(api.agents@),
    {
        let ghost s = api.agents@;
        let mut agents = StrMap::new();
        let mut repositories = StrMap::new();
        let mut binary_names = StrMap::new();
        let mut precomputed_urls = StrMap::new();
        let ApiBundleResponse { schema_version: _, bundle, agents: mut api_agents } = api;
        let ghost mut i: int = 0;
        while api_agents.len() > 0
            invariant
                0 <= i,
                i + api_agents@.len() == s.len(),
                api_agents@ == s.subrange(i, s.len() as int),
                agents@.len() == i,
                forall|k: int| 0 <= k < i
                    ==> #[trigger] agents@[k] == (s[k].0@, s[k].1.version),
                repositories@.len() == i,
                forall|k: int| 0 <= k < i
                    ==> #[trigger] repositories@[k] == (s[k].0@, s[k].1.repository),
                binary_names@.len() == i,
                forall|k: int| 0 <= k < i
                    ==> #[trigger] binary_names@[k] == (s[k].0@, s[k].1.binary_name),
                precomputed_urls@ == spec_api_urls(s.subrange(0, i)),
            decreases api_agents@.len(),
        {
            proof {
                assert(api_agents@[0] == s[i]);
                assert(s.subrange(0, i + 1).drop_last() =~= s.subrange(0, i));
                assert(s.subrange(0, i + 1).last() == s[i]);
            }
            let (name, agent) = api_agents.remove(0);
            proof {
                assert(api_agents@ =~= s.subrange(i + 1, s.len() as int));
            }
            let ApiBundleAgent { version, repository, binary_name, download_urls, checksums: _ }
                = agent;
            agents.push_entry(name.clone(), version);
            repositories.push_entry(name.clone(), repository);
            binary_names.push_entry(name.clone(), binary_name);
            let urls = download_urls.pairs();
            let un = urls.len();
            let ghost gurls = download_urls@;
            let mut j: usize = 0;
            while j < un
                invariant
                    j <= un,
                    un == urls@.len(),
                    gurls == download_urls@,
                    urls@.map_values(|p: (String, String)| (p.0@, p.1)) == gurls,
                    name@ == s[i].0@,
                    gurls == s[i].1.download_urls@,
                    0 <= i < s.len(),
                    precomputed_urls@ == spec_api_urls(s.subrange(0, i))
                        + spec_flat_urls(s[i].0@, gurls.subrange(0, j as int)),
                decreases un - j,
            {
                proof {
                    assert(gurls.subrange(0, (j + 1) as int).drop_last()
                        =~= gurls.subrange(0, j as int));
                    assert(gurls.subrange(0, (j + 1) as int).last() == gurls[j as int]);
                }
                let mut key = name.clone();
                key.append("-");
                key.append(urls[j].0.as_str());
                precomputed_urls.push_entry(key, urls[j].1.clone());
                j = j + 1;
            }
            proof {
                assert(gurls.subrange(0, un as int) =~= gurls);
                assert(spec_api_urls(s.subrange(0, i + 1))
                    =~= spec_api_urls(s.subrange(0, i)) + spec_flat_urls(s[i].0@, gurls));
                i = i + 1;
            }
        }
        proof {
            assert(s.subrange(0, i) =~= s);
        }
        BundleLock {
            bundle: BundleInfo { version: bundle.version },
            agents,
            repositories,
            binary_names,
            checksums: StrMap::new(),
            precomputed_urls,
        }
    }
}

/// Newest bundle API schema this library understands.
pub const MAX_SCHEMA_VERSION: u32 = 1;

/// Whether a bundle API response's schema version can be read:
/// unknown newer schemas are rejected before conversion.
pub fn schema_version_supported(version: u32) -> (r: bool)
    ensures
        r == (version <= MAX_SCHEMA_VERSION),
{
    version <= MAX_SCHEMA_VERSION
}

/// The names whose repository the lock knows, in order.
pub open spec fn spec_resolved_names(names: Seq<Seq<char>>, repos: Seq<(Seq<char>, String)>)
    -> Seq<Seq<char>>
    decreases names.len(),
{
    if names.len() == 0 {
        Seq::empty()
    } else {
        spec_resolved_names(names.drop_last(), repos)
            + (if spec_map_get(repos, names.last()) is Some {
                seq![names.last()]
            } else {
                Seq::empty()
            })
    }
}

/// One agent's platform URLs flattened under "agent-platform" keys.
pub open spec fn spec_flat_urls(name: Seq<char>, urls: Seq<(Seq<char>, String)>)
    -> Seq<(Seq<char>, String)>
    decreases urls.len(),
{
    if urls.len() == 0 {
        Seq::empty()
    } else {
        spec_flat_urls(name, urls.drop_last())
            + seq![(name + "-"@ + urls.last().0, urls.last().1)]
    }
}

/// The flattened URL entries of every agent, in order.
pub open spec fn spec_api_urls(s: Seq<(String, ApiBundleAgent)>) -> Seq<(Seq<char>, String)>
    decreases s.len(),
{
    if s.len() == 0 {
        Seq::empty()
    } else {
        spec_api_urls(s.drop_last()) + spec_flat_urls(s.last().0@, s.last().1.download_urls@)
    }
}

} // verus!
