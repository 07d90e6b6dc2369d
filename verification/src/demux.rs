//! Response demultiplexing: one waiter per correlation ID, and the
//! correlation tag that lets a multiplexed connection route each
//! response back to the call that sent the event.

use vstd::prelude::*;
use crate::protocol::AgentResponse;
use crate::strutil::str_eq;
use vstd::string::StringExecFns;

verus! {

/// Index of the waiter registered for `cid`, or `-1`.
pub open spec fn spec_waiter_idx(s: Seq<(String, Option<AgentResponse>)>, cid: Seq<char>) -> int
    decreases s.len(),
{
    if s.len() == 0 {
        -1
    } else if s[0].0@ == cid {
        0
    } else {
        let r = spec_waiter_idx(s.subrange(1, s.len() as int), cid);
        if r < 0 { -1 } else { r + 1 }
    }
}

/// The waiter the search finds is the first registered for that ID.
pub proof fn lemma_waiter_idx(s: Seq<(String, Option<AgentResponse>)>, cid: Seq<char>)
    ensures
        spec_waiter_idx(s, cid) >= 0 ==> 0 <= spec_waiter_idx(s, cid) < s.len()
            && s[spec_waiter_idx(s, cid)].0@ == cid
            && (forall|k: int| 0 <= k < spec_waiter_idx(s, cid) ==> s[k].0@ != cid),
        spec_waiter_idx(s, cid) < 0 ==> (forall|k: int| 0 <= k < s.len() ==> s[k].0@ != cid),
    decreases s.len(),
{
    if s.len() > 0 && s[0].0@ != cid {
        let t = s.subrange(1, s.len() as int);
        lemma_waiter_idx(t, cid);
        assert(forall|k: int| 0 <= k < t.len() ==> t[k] == s[k + 1]);
        let r = spec_waiter_idx(t, cid);
        if r >= 0 {
            assert forall|k: int| 0 <= k < r + 1 implies s[k].0@ != cid by {
                if k > 0 {
                    assert(s[k] == t[k - 1]);
                }
            }
        } else {
            assert forall|k: int| 0 <= k < s.len() implies s[k].0@ != cid by {
                if k > 0 {
                    assert(s[k] == t[k - 1]);
                }
            }
        }
    }
}

/// What delivering a response does to the waiter entries: the first
/// waiter registered for the ID gets the response; everything else is
/// untouched.
pub open spec fn spec_deliver(
    s: Seq<(String, Option<AgentResponse>)>,
    cid: Seq<char>,
    resp: AgentResponse,
) -> Seq<(String, Option<AgentResponse>)> {
    let i = spec_waiter_idx(s, cid);
    if i >= 0 {
        s.update(i, (s[i].0, Some(resp)))
    } else {
        s
    }
}

/// No misrouting: a delivered response lands in the slot registered
/// for its correlation ID, and every other waiter's slot is exactly
/// what it was.
pub proof fn lemma_response_reaches_registered_waiter(
    s: Seq<(String, Option<AgentResponse>)>,
    cid: Seq<char>,
    resp: AgentResponse,
)
    requires
        spec_waiter_idx(s, cid) >= 0,
    ensures
        spec_deliver(s, cid, resp)[spec_waiter_idx(s, cid)].0@ == cid,
        spec_deliver(s, cid, resp)[spec_waiter_idx(s, cid)].1 == Some(resp),
        forall|k: int| 0 <= k < s.len() && k != spec_waiter_idx(s, cid)
            ==> spec_deliver(s, cid, resp)[k] == s[k],
{
    lemma_waiter_idx(s, cid);
}

/// Table of response waiters, one per outstanding correlation ID.
#[derive(Debug)]
pub struct WaiterTable {
    entries: Vec<(String, Option<AgentResponse>)>,
}

impl View for WaiterTable {
    type V = Seq<(String, Option<AgentResponse>)>;

    closed spec fn view(&self) -> Seq<(String, Option<AgentResponse>)> {
        self.entries@
    }
}

impl WaiterTable {
    /// Registered correlation IDs are pairwise distinct.
    pub open spec fn wf(&self) -> bool {
        forall|i: int, j: int| 0 <= i < j < self@.len() ==> self@[i].0@ != self@[j].0@
    }

    /// Empty table.
    pub fn new() -> (t: WaiterTable)
        ensures
            t@ =~= Seq::<(String, Option<AgentResponse>)>::empty(),
            t.wf(),
    {
        WaiterTable { entries: Vec::new() }
    }

    /// Number of outstanding waiters.
    pub fn len(&self) -> (n: usize)
        ensures
            n == self@.len(),
    {
        self.entries.len()
    }

    /// Index of the waiter registered for `cid`.
    fn find(&self, cid: &str) -> (r: Option<usize>)
        ensures
            match r {
                Some(i) => spec_waiter_idx(self@, cid@) == i && i < self@.len(),
                None => spec_waiter_idx(self@, cid@) < 0,
            },
    {
        let n = self.entries.len();
        let mut i: usize = 0;
        while i < n
            invariant
                i <= n,
                n == self@.len(),
                self@ == self.entries@,
                forall|k: int| 0 <= k < i ==> self@[k].0@ != cid@,
            decreases n - i,
        {
            if str_eq(self.entries[i].0.as_str(), cid) {
                proof {
                    lemma_waiter_idx(self@, cid@);
                    let r = spec_waiter_idx(self@, cid@);
                    if r < 0 {
                        assert(self@[i as int].0@ != cid@);
                    } else if r < i {
                        assert(self@[r].0@ != cid@);
                    } else if r > i {
                        assert(self@[i as int].0@ != cid@);
                    }
                }
                return Some(i);
            }
            i = i + 1;
        }
        proof {
            lemma_waiter_idx(self@, cid@);
            if spec_waiter_idx(self@, cid@) >= 0 {
                assert(self@[spec_waiter_idx(self@, cid@)].0@ != cid@);
            }
        }
        None
    }

    /// Register a waiter for a correlation ID; refuse a duplicate.
    pub fn register(&mut self, cid: String) -> (r: bool)
        requires
            old(self).wf(),
        ensures
            final(self).wf(),
            r == (spec_waiter_idx(old(self)@, cid@) < 0),
            r ==> final(self)@.len() == old(self)@.len() + 1
                && final(self)@.subrange(0, old(self)@.len() as int) == old(self)@
                && final(self)@.last().0 == cid
                && final(self)@.last().1 is None,
            !r ==> final(self)@ == old(self)@,
    {
        match self.find(cid.as_str()) {
            Some(_) => false,
            None => {
                proof {
                    lemma_waiter_idx(self@, cid@);
                }
                self.entries.push((cid, None));
                proof {
                    assert(self@.subrange(0, old(self)@.len() as int) =~= old(self)@);
                }
                true
            },
        }
    }

    /// Deliver a response to the waiter registered for its
    /// correlation ID; a response for an unknown ID changes nothing.
    pub fn deliver(&mut self, cid: &str, resp: AgentResponse) -> (r: bool)
        ensures
            final(self)@ == spec_deliver(old(self)@, cid@, resp),
            r == (spec_waiter_idx(old(self)@, cid@) >= 0),
            old(self).wf() ==> final(self).wf(),
    {
        proof {
            lemma_waiter_idx(self@, cid@);
        }
        match self.find(cid) {
            Some(i) => {
                let (k, _old_slot) = self.entries.remove(i);
                self.entries.insert(i, (k, Some(resp)));
                proof {
                    assert(final(self)@ =~= spec_deliver(old(self)@, cid@, resp));
                }
                true
            },
            None => false,
        }
    }

    /// Take the waiter for a correlation ID out of the table, with
    /// whatever was delivered to it.
    pub fn take(&mut self, cid: &str) -> (r: Option<Option<AgentResponse>>)
        ensures
            match r {
                Some(slot) => spec_waiter_idx(old(self)@, cid@) >= 0
                    && slot == old(self)@[spec_waiter_idx(old(self)@, cid@)].1
                    && final(self)@ == old(self)@.remove(spec_waiter_idx(old(self)@, cid@)),
                None => spec_waiter_idx(old(self)@, cid@) < 0
                    && final(self)@ == old(self)@,
            },
            old(self).wf() ==> final(self).wf(),
    {
        match self.find(cid) {
            Some(i) => {
                let (_k, slot) = self.entries.remove(i);
                Some(slot)
            },
            None => None,
        }
    }

    /// Drain every outstanding waiter, as on connection loss: the
    /// caller completes each with a connection-closed error.
    pub fn drain(&mut self) -> (r: Vec<(String, Option<AgentResponse>)>)
        ensures
            r@ == old(self)@,
            final(self)@.len() == 0,
            final(self).wf(),
    {
        let ghost s = old(self)@;
        let mut out: Vec<(String, Option<AgentResponse>)> = Vec::new();
        while self.entries.len() > 0
            invariant
                s == old(self)@,
                out@.len() + self.entries@.len() == s.len(),
                out@ == s.subrange(0, out@.len() as int),
                self.entries@ == s.subrange(out@.len() as int, s.len() as int),
            decreases self.entries@.len(),
        {
            proof {
                assert(self.entries@[0] == s[out@.len() as int]);
            }
            let e = self.entries.remove(0);
            out.push(e);
            proof {
                assert(out@ =~= s.subrange(0, out@.len() as int));
                assert(self.entries@ =~= s.subrange(out@.len() as int, s.len() as int));
            }
        }
        proof {
            assert(out@ =~= s);
        }
        out
    }
}

/// The last correlation tag in a response's custom audit metadata.
pub open spec fn spec_correlation_of(custom: Seq<(String, String)>) -> Option<String>
    decreases custom.len(),
{
    if custom.len() == 0 {
        None
    } else if custom.last().0@ == "correlation_id"@ {
        Some(custom.last().1)
    } else {
        spec_correlation_of(custom.drop_last())
    }
}

/// Tag a response with its correlation ID so the client can route it:
/// the ID goes into the custom audit metadata, and nothing else of
/// the response changes.
pub fn inject_correlation_id(resp: &mut AgentResponse, cid: String)
    ensures
        final(resp).audit.custom@.len() == old(resp).audit.custom@.len() + 1,
        final(resp).audit.custom@.subrange(0, old(resp).audit.custom@.len() as int)
            == old(resp).audit.custom@,
        final(resp).audit.custom@.last().0@ == "correlation_id"@,
        final(resp).audit.custom@.last().1 == cid,
        final(resp).version == old(resp).version,
        final(resp).decision == old(resp).decision,
        final(resp).request_headers == old(resp).request_headers,
        final(resp).response_headers == old(resp).response_headers,
        final(resp).routing_metadata == old(resp).routing_metadata,
        final(resp).audit.tags == old(resp).audit.tags,
        final(resp).audit.rule_ids == old(resp).audit.rule_ids,
        final(resp).audit.confidence == old(resp).audit.confidence,
        final(resp).audit.reason_codes == old(resp).audit.reason_codes,
        final(resp).needs_more == old(resp).needs_more,
        final(resp).request_body_mutation == old(resp).request_body_mutation,
        final(resp).response_body_mutation == old(resp).response_body_mutation,
        final(resp).websocket_decision == old(resp).websocket_decision,
{
    let key = String::from_str("correlation_id");
    resp.audit.custom.push((key, cid));
    proof {
        assert(final(resp).audit.custom@.subrange(0, old(resp).audit.custom@.len() as int)
            =~= old(resp).audit.custom@);
    }
}

/// Read the correlation tag back out of a response's custom audit
/// metadata; the last tag wins, as a later insertion overwrites an
/// earlier one.
pub fn extract_correlation_tag(custom: &Vec<(String, String)>) -> (r: Option<String>)
    ensures
        match r {
            Some(cid) => spec_correlation_of(custom@) == Some(cid),
            None => spec_correlation_of(custom@) is None,
        },
{
    let mut i: usize = custom.len();
    proof {
        assert(custom@.subrange(0, custom@.len() as int) =~= custom@);
    }
    while i > 0
        invariant
            i <= custom@.len(),
            spec_correlation_of(custom@) == spec_correlation_of(custom@.subrange(0, i as int)),
        decreases i,
    {
        proof {
            let cur = custom@.subrange(0, i as int);
            assert(cur.last() == custom@[i - 1]);
            assert(cur.drop_last() =~= custom@.subrange(0, (i - 1) as int));
        }
        if str_eq(custom[i - 1].0.as_str(), "correlation_id") {
            proof {
                reveal_strlit("correlation_id");
            }
            return Some(custom[i - 1].1.clone());
        }
        i = i - 1;
    }
    None
}

/// Round trip: the tag that the server injects is exactly what the
/// client reads back, so the response reaches the waiter registered
/// under the request's correlation ID.
pub proof fn lemma_correlation_round_trip(custom: Seq<(String, String)>, key: String, cid: String)
    requires
        key@ == "correlation_id"@,
    ensures
        spec_correlation_of(custom.push((key, cid))) == Some(cid),
{
    assert(custom.push((key, cid)).last() == (key, cid));
}

} // verus!
