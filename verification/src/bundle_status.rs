//! Bundle status: installed agent versions compared against the lock.
//! Reading installed versions from disk stays outside the library;
//! the comparison takes them as plain values.

use vstd::prelude::*;
use crate::bundle::{AgentInfo, BundleLock, StrMap, spec_map_get, spec_agent_resolved,
    spec_resolved_names, spec_default_binary_name};
use crate::strutil::{str_eq, str_le, spec_str_le, lemma_str_le_total, lemma_str_le_trans};

verus! {

broadcast use vstd::seq_lib::group_to_multiset_ensures;

/// Installation status of one agent.
#[derive(Debug, Clone, Copy, PartialEq, Eq, Structural)]
pub enum Status {
    /// Installed at the expected version
    UpToDate,
    /// Installed at a different version
    Outdated,
    /// Not installed
    NotInstalled,
    /// Built into the proxy
    BuiltIn,
}

impl Status {
    /// The status as text.
    pub fn label(&self) -> (r: &'static str)
        ensures
            r@ == self.spec_label(),
    {
        match self {
            Status::UpToDate => "up to date",
            Status::Outdated => "outdated",
            Status::NotInstalled => "not installed",
            Status::BuiltIn => "built-in",
        }
    }

    /// The status text as a character sequence.
    pub open spec fn spec_label(&self) -> Seq<char> {
        match self {
            Status::UpToDate => "up to date"@,
            Status::Outdated => "outdated"@,
            Status::NotInstalled => "not installed"@,
            Status::BuiltIn => "built-in"@,
        }
    }
}

/// Status of one agent.
#[derive(Debug, Clone)]
pub struct AgentStatus {
    /// Agent name
    pub name: String,
    /// Expected version from the lock
    pub expected_version: String,
    /// Installed version, if any
    pub installed_version: Option<String>,
    /// Comparison outcome
    pub status: Status,
}

/// Summary counts over all agents.
#[derive(Debug, Clone, Copy, PartialEq, Eq, Structural)]
pub struct StatusSummary {
    pub total: usize,
    pub up_to_date: usize,
    pub outdated: usize,
    pub not_installed: usize,
    pub built_in: usize,
}

/// Status of the whole bundle.
#[derive(Debug)]
pub struct BundleStatus {
    /// Bundle version from the lock
    pub bundle_version: String,
    /// Status of each agent
    pub agents: Vec<AgentStatus>,
}

/// The pending entries of a status list: name and status of every
/// not-installed or outdated agent, in order.
pub open spec fn spec_pending(s: Seq<AgentStatus>) -> Seq<(Seq<char>, Status)>
    decreases s.len(),
{
    if s.len() == 0 {
        Seq::empty()
    } else {
        spec_pending(s.drop_last()) + (if s.last().status == Status::NotInstalled
            || s.last().status == Status::Outdated {
            seq![(s.last().name@, s.last().status)]
        } else {
            Seq::empty()
        })
    }
}

/// How many entries of a status list carry the given status.
pub open spec fn spec_count(s: Seq<AgentStatus>, status: Status) -> int
    decreases s.len(),
{
    if s.len() == 0 {
        0
    } else {
        spec_count(s.drop_last(), status) + (if s.last().status == status { 1int } else { 0 })
    }
}

/// The binary name the lock gives an agent: the configured override,
/// or the default built from the agent's name.
pub open spec fn spec_lock_binary_name(lock: BundleLock, name: Seq<char>) -> Seq<char> {
    match spec_map_get(lock.binary_names@, name) {
        Some(b) => b@,
        None => spec_default_binary_name(name),
    }
}

/// The status an installed version earns against the expected one.
pub open spec fn spec_status_of(installed: Option<String>, expected: Seq<char>) -> Status {
    match installed {
        Some(v) => if v@ == expected { Status::UpToDate } else { Status::Outdated },
        None => Status::NotInstalled,
    }
}

/// Compare one agent's installed version against the lock.
pub fn check_agent_status(agent: &AgentInfo, installed_version: Option<String>)
    -> (r: AgentStatus)
    ensures
        r.name == agent.name,
        r.expected_version == agent.version,
        r.installed_version == installed_version,
        r.status == spec_status_of(installed_version, agent.version@),
{
    let status = match &installed_version {
        Some(v) => if str_eq(v.as_str(), agent.version.as_str()) {
            Status::UpToDate
        } else {
            Status::Outdated
        },
        None => Status::NotInstalled,
    };
    AgentStatus {
        name: agent.name.clone(),
        expected_version: agent.version.clone(),
        installed_version,
        status,
    }
}

/// Sort statuses ascending by agent name, for consistent output:
/// the entries stay exactly the same, names and all.
fn sort_statuses_by_name(v: &mut Vec<AgentStatus>)
    ensures
        final(v)@.len() == old(v)@.len(),
        forall|i: int, j: int| 0 <= i < j < final(v)@.len()
            ==> spec_str_le(#[trigger] final(v)@[i].name@, #[trigger] final(v)@[j].name@),
        final(v)@.to_multiset() == old(v)@.to_multiset(),
        final(v)@.map_values(|a: AgentStatus| a.name@).to_multiset()
            == old(v)@.map_values(|a: AgentStatus| a.name@).to_multiset(),
{
    let ghost orig = old(v)@;
    let mut out: Vec<AgentStatus> = Vec::new();
    while v.len() > 0
        invariant
            orig == old(v)@,
            out@.len() + v@.len() == orig.len(),
            out@.to_multiset().add(v@.to_multiset()) == orig.to_multiset(),
            out@.map_values(|a: AgentStatus| a.name@).to_multiset()
                .add(v@.map_values(|a: AgentStatus| a.name@).to_multiset())
                == orig.map_values(|a: AgentStatus| a.name@).to_multiset(),
            forall|i: int, j: int| 0 <= i < j < out@.len()
                ==> spec_str_le(#[trigger] out@[i].name@, #[trigger] out@[j].name@),
            forall|i: int, k: int| 0 <= i < out@.len() && 0 <= k < v@.len()
                ==> spec_str_le(#[trigger] out@[i].name@, #[trigger] v@[k].name@),
        decreases v@.len(),
    {
        // Select the entry with the smallest name.
        proof {
            lemma_str_le_total(v@[0].name@, v@[0].name@);
        }
        let mut m: usize = 0;
        let mut k: usize = 1;
        while k < v.len()
            invariant
                v@.len() > 0,
                m < k,
                k <= v@.len(),
                forall|t: int| 0 <= t < k
                    ==> spec_str_le(v@[m as int].name@, #[trigger] v@[t].name@),
            decreases v@.len() - k,
        {
            if !str_le(v[m].name.as_str(), v[k].name.as_str()) {
                proof {
                    lemma_str_le_total(v@[m as int].name@, v@[k as int].name@);
                    assert forall|t: int| 0 <= t < k + 1
                        implies spec_str_le(v@[k as int].name@, #[trigger] v@[t].name@) by {
                        if t < k {
                            lemma_str_le_trans(v@[k as int].name@, v@[m as int].name@,
                                v@[t].name@);
                        } else {
                            lemma_str_le_total(v@[k as int].name@, v@[k as int].name@);
                        }
                    }
                }
                m = k;
            }
            k = k + 1;
        }
        proof {
            lemma_str_le_total(v@[m as int].name@, v@[m as int].name@);
        }
        let ghost pre = v@;
        let ghost prev_out = out@;
        let x = v.remove(m);
        out.push(x);
        proof {
            assert(out@ == prev_out.push(pre[m as int]));
            assert(v@ == pre.remove(m as int));
            assert(pre.contains(pre[m as int]));
            assert(pre.to_multiset().count(pre[m as int]) > 0);
            assert(out@.to_multiset() =~= prev_out.to_multiset().insert(pre[m as int]));
            assert(v@.to_multiset() =~= pre.to_multiset().remove(pre[m as int]));
            assert(out@.to_multiset().add(v@.to_multiset()) =~= orig.to_multiset());
            let ghost pre_names = pre.map_values(|a: AgentStatus| a.name@);
            let ghost prev_names = prev_out.map_values(|a: AgentStatus| a.name@);
            assert(v@.map_values(|a: AgentStatus| a.name@)
                =~= pre_names.remove(m as int));
            assert(out@.map_values(|a: AgentStatus| a.name@)
                =~= prev_names.push(pre[m as int].name@));
            assert(pre_names[m as int] == pre[m as int].name@);
            assert(pre_names.contains(pre_names[m as int]));
            assert(pre_names.to_multiset().count(pre_names[m as int]) > 0);
            assert(out@.map_values(|a: AgentStatus| a.name@).to_multiset()
                =~= prev_names.to_multiset().insert(pre[m as int].name@));
            assert(v@.map_values(|a: AgentStatus| a.name@).to_multiset()
                =~= pre_names.to_multiset().remove(pre[m as int].name@));
            assert(out@.map_values(|a: AgentStatus| a.name@).to_multiset()
                .add(v@.map_values(|a: AgentStatus| a.name@).to_multiset())
                =~= orig.map_values(|a: AgentStatus| a.name@).to_multiset());
            assert forall|i: int, kk: int| 0 <= i < out@.len() && 0 <= kk < v@.len()
                implies spec_str_le(#[trigger] out@[i].name@, #[trigger] v@[kk].name@) by {
                assert(v@[kk] == if kk < m { pre[kk] } else { pre[kk + 1] });
                if i < prev_out.len() {
                    assert(out@[i] == prev_out[i]);
                } else {
                    assert(out@[i] == pre[m as int]);
                }
            }
            assert forall|i: int, j: int| 0 <= i < j < out@.len()
                implies spec_str_le(#[trigger] out@[i].name@, #[trigger] out@[j].name@) by {
                if j == out@.len() - 1 {
                    assert(out@[i] == prev_out[i]);
                    assert(out@[j] == pre[m as int]);
                }
            }
        }
    }
    proof {
        assert(v@.to_multiset().len() == 0);
        vstd::multiset::lemma_multiset_empty_len(v@.to_multiset());
        assert(out@.to_multiset() =~= orig.to_multiset());
        assert(v@.map_values(|a: AgentStatus| a.name@).len() == 0);
        assert(v@.map_values(|a: AgentStatus| a.name@).to_multiset().len() == 0);
        vstd::multiset::lemma_multiset_empty_len(
            v@.map_values(|a: AgentStatus| a.name@).to_multiset());
        assert(out@.map_values(|a: AgentStatus| a.name@).to_multiset()
            =~= orig.map_values(|a: AgentStatus| a.name@).to_multiset());
    }
    *v = out;
}

impl BundleStatus {
    /// Check every resolved agent of the lock against the installed
    /// versions, keyed by binary name: one status per resolved agent,
    /// sorted ascending by name, each judged by `spec_status_of` and
    /// carrying the version the lock expects.
    pub fn check(lock: &BundleLock, installed: &StrMap) -> (r: BundleStatus)
        ensures
            r.bundle_version == lock.bundle.version,
            r.agents@.map_values(|a: AgentStatus| a.name@).to_multiset() == spec_resolved_names(
                lock.agents@.map_values(|p: (Seq<char>, String)| p.0), lock.repositories@)
                .to_multiset(),
            forall|i: int, j: int| 0 <= i < j < r.agents@.len()
                ==> spec_str_le(#[trigger] r.agents@[i].name@, #[trigger] r.agents@[j].name@),
            forall|i: int| 0 <= i < r.agents@.len() ==> {
                let a = #[trigger] r.agents@[i];
                &&& a.status == spec_status_of(a.installed_version, a.expected_version@)
                &&& spec_map_get(lock.agents@, a.name@) == Some(a.expected_version)
                &&& a.installed_version == spec_map_get(installed@,
                    spec_lock_binary_name(*lock, a.name@))
            },
    {
        let infos = lock.agents();
        let n = infos.len();
        let ghost resolved = spec_resolved_names(
            lock.agents@.map_values(|p: (Seq<char>, String)| p.0), lock.repositories@);
        let mut agents: Vec<AgentStatus> = Vec::new();
        let mut i: usize = 0;
        while i < n
            invariant
                i <= n,
                n == infos@.len(),
                resolved == spec_resolved_names(
                    lock.agents@.map_values(|p: (Seq<char>, String)| p.0), lock.repositories@),
                infos@.map_values(|a: AgentInfo| a.name@) == resolved,
                agents@.len() == i,
                forall|k: int| 0 <= k < i
                    ==> #[trigger] agents@[k].name@ == infos@[k].name@,
                forall|k: int| 0 <= k < n
                    ==> spec_agent_resolved(*lock, #[trigger] infos@[k]),
                forall|k: int| 0 <= k < agents@.len() ==> {
                    let a = #[trigger] agents@[k];
                    &&& a.status == spec_status_of(a.installed_version, a.expected_version@)
                    &&& spec_map_get(lock.agents@, a.name@) == Some(a.expected_version)
                    &&& a.installed_version == spec_map_get(installed@,
                        spec_lock_binary_name(*lock, a.name@))
                },
            decreases n - i,
        {
            proof {
                assert(spec_agent_resolved(*lock, infos@[i as int]));
                assert(spec_lock_binary_name(*lock, infos@[i as int].name@)
                    == infos@[i as int].binary_name@);
            }
            let installed_version = match installed.get(infos[i].binary_name.as_str()) {
                Some(v) => Some(v.clone()),
                None => None,
            };
            agents.push(check_agent_status(&infos[i], installed_version));
            i = i + 1;
        }
        let ghost unsorted = agents@;
        proof {
            assert(unsorted.map_values(|a: AgentStatus| a.name@)
                =~= infos@.map_values(|a: AgentInfo| a.name@));
        }
        sort_statuses_by_name(&mut agents);
        proof {
            assert forall|k: int| 0 <= k < agents@.len() implies {
                let a = #[trigger] agents@[k];
                &&& a.status == spec_status_of(a.installed_version, a.expected_version@)
                &&& spec_map_get(lock.agents@, a.name@) == Some(a.expected_version)
                &&& a.installed_version == spec_map_get(installed@,
                    spec_lock_binary_name(*lock, a.name@))
            } by {
                let a = agents@[k];
                assert(agents@.contains(a));
                assert(agents@.to_multiset().count(a) > 0);
                assert(unsorted.to_multiset().count(a) > 0);
                assert(unsorted.contains(a));
                let t = choose|t: int| 0 <= t < unsorted.len() && unsorted[t] == a;
                assert(unsorted[t] == a);
            }
        }
        BundleStatus { bundle_version: lock.bundle.version.clone(), agents }
    }

    /// True when every agent is up to date or built in.
    pub fn is_complete(&self) -> (r: bool)
        ensures
            r == forall|i: int| 0 <= i < self.agents@.len()
                ==> (#[trigger] self.agents@[i].status == Status::UpToDate
                    || self.agents@[i].status == Status::BuiltIn),
    {
        let n = self.agents.len();
        let mut i: usize = 0;
        while i < n
            invariant
                i <= n,
                n == self.agents@.len(),
                forall|k: int| 0 <= k < i
                    ==> (#[trigger] self.agents@[k].status == Status::UpToDate
                        || self.agents@[k].status == Status::BuiltIn),
            decreases n - i,
        {
            let st = self.agents[i].status;
            if !(st == Status::UpToDate || st == Status::BuiltIn) {
                return false;
            }
            i = i + 1;
        }
        true
    }

    /// The agents that still need installing or updating: exactly the
    /// not-installed and outdated entries, in order.
    pub fn pending_agents(&self) -> (r: Vec<AgentStatus>)
        ensures
            r@.map_values(|a: AgentStatus| (a.name@, a.status))
                == spec_pending(self.agents@),
    {
        let n = self.agents.len();
        let mut out: Vec<AgentStatus> = Vec::new();
        let mut i: usize = 0;
        while i < n
            invariant
                i <= n,
                n == self.agents@.len(),
                out@.map_values(|a: AgentStatus| (a.name@, a.status))
                    == spec_pending(self.agents@.subrange(0, i as int)),
            decreases n - i,
        {
            proof {
                assert(self.agents@.subrange(0, (i + 1) as int).drop_last()
                    =~= self.agents@.subrange(0, i as int));
                assert(self.agents@.subrange(0, (i + 1) as int).last()
                    == self.agents@[i as int]);
            }
            let ghost prev = out@;
            let a = &self.agents[i];
            if a.status == Status::NotInstalled || a.status == Status::Outdated {
                out.push(AgentStatus {
                    name: a.name.clone(),
                    expected_version: a.expected_version.clone(),
                    installed_version: crate::protocol::dup_opt_string(&a.installed_version),
                    status: a.status,
                });
                proof {
                    assert(out@.map_values(|x: AgentStatus| (x.name@, x.status))
                        =~= prev.map_values(|x: AgentStatus| (x.name@, x.status))
                            .push((self.agents@[i as int].name@,
                                self.agents@[i as int].status)));
                }
            }
            i = i + 1;
        }
        proof {
            assert(self.agents@.subrange(0, n as int) =~= self.agents@);
        }
        out
    }

    /// Count each status kind.
    pub fn summary(&self) -> (r: StatusSummary)
        ensures
            r.total == self.agents@.len(),
            r.up_to_date == spec_count(self.agents@, Status::UpToDate),
            r.outdated == spec_count(self.agents@, Status::Outdated),
            r.not_installed == spec_count(self.agents@, Status::NotInstalled),
            r.built_in == spec_count(self.agents@, Status::BuiltIn),
            r.up_to_date + r.outdated + r.not_installed + r.built_in == r.total,
    {
        let n = self.agents.len();
        let mut up_to_date: usize = 0;
        let mut outdated: usize = 0;
        let mut not_installed: usize = 0;
        let mut built_in: usize = 0;
        let mut i: usize = 0;
        while i < n
            invariant
                i <= n,
                n == self.agents@.len(),
                up_to_date == spec_count(self.agents@.subrange(0, i as int), Status::UpToDate),
                outdated == spec_count(self.agents@.subrange(0, i as int), Status::Outdated),
                not_installed == spec_count(self.agents@.subrange(0, i as int),
                    Status::NotInstalled),
                built_in == spec_count(self.agents@.subrange(0, i as int), Status::BuiltIn),
                up_to_date + outdated + not_installed + built_in == i,
            decreases n - i,
        {
            proof {
                assert(self.agents@.subrange(0, (i + 1) as int).drop_last()
                    =~= self.agents@.subrange(0, i as int));
                assert(self.agents@.subrange(0, (i + 1) as int).last()
                    == self.agents@[i as int]);
            }
            match self.agents[i].status {
                Status::UpToDate => {
                    up_to_date = up_to_date + 1;
                },
                Status::Outdated => {
                    outdated = outdated + 1;
                },
                Status::NotInstalled => {
                    not_installed = not_installed + 1;
                },
                Status::BuiltIn => {
                    built_in = built_in + 1;
                },
            }
            i = i + 1;
        }
        proof {
            assert(self.agents@.subrange(0, n as int) =~= self.agents@);
        }
        StatusSummary { total: n, up_to_date, outdated, not_installed, built_in }
    }
}

} // verus!
