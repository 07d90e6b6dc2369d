//! Dispatch core of the agent manager: outcome merging for parallel
//! fan-out, sequential chains and WebSocket chains, event builders,
//! body mutation application, and capability selection.
//!
//! The surrounding concurrency — semaphores, timeouts, the actual
//! calls — hands each agent's outcome to these functions in filter
//! order; the policy itself is decided here.

use vstd::prelude::*;
use crate::protocol::{AgentResponse, AuditMetadata, Decision, HeaderOp, BodyMutation,
    WebSocketDecision, EventType, RequestMetadata, RequestHeadersEvent, RequestBodyChunkEvent,
    ResponseBodyChunkEvent, ResponseHeadersEvent};
use crate::error::AgentProtocolError;
use crate::headers::{HeaderMap, spec_get, spec_remove};
use crate::codec::{base64_encode, base64_decode, spec_base64};
use vstd::string::StringExecFns;
use vstd::string::StrSliceExecFns;

verus! {

/// Per-filter failure policy.
#[derive(Debug, Clone, Copy, PartialEq, Eq, Structural)]
pub enum FailureMode {
    /// Tolerate agent failure: continue without this agent
    Open,
    /// Block the request on agent failure
    Closed,
}

/// Outcome of one agent call, as the transport reported it.
#[derive(Debug)]
pub enum CallOutcome {
    /// The agent answered
    Answered(AgentResponse),
    /// The call failed: transport or agent error
    Failed,
    /// The call exceeded its deadline
    TimedOut,
    /// The circuit breaker was open, so no call was made
    CircuitOpen,
}

/// Combined decision handed back to the proxy for one event.
#[derive(Debug)]
pub struct AgentDecision {
    /// Strongest decision seen
    pub decision: Decision,
    /// Header operations for the request side, in contributor order
    pub request_headers: Vec<HeaderOp>,
    /// Header operations for the response side, in contributor order
    pub response_headers: Vec<HeaderOp>,
    /// Routing metadata from all contributors, in order
    pub routing_metadata: Vec<(String, String)>,
    /// Audit metadata from all contributors, accumulated
    pub audit: AuditMetadata,
    /// True when some agent wants more body chunks
    pub needs_more: bool,
    /// Request body mutation, the latest one returned
    pub request_body_mutation: Option<BodyMutation>,
    /// Response body mutation, the latest one returned
    pub response_body_mutation: Option<BodyMutation>,
}

/// An answered outcome whose decision is not `Allow`.
pub open spec fn spec_is_blocking(o: CallOutcome) -> bool {
    match o {
        CallOutcome::Answered(r) => !(r.decision is Allow),
        _ => false,
    }
}

/// An outcome that is an error rather than an answer.
pub open spec fn spec_is_error(o: CallOutcome) -> bool {
    !(o is Answered)
}

/// An error outcome under a fail-closed filter.
pub open spec fn spec_is_fail_closed(p: (CallOutcome, FailureMode)) -> bool {
    spec_is_error(p.0) && p.1 is Closed
}

/// Index of the first blocking outcome, or `-1`.
pub open spec fn spec_first_block(s: Seq<(CallOutcome, FailureMode)>) -> int
    decreases s.len(),
{
    if s.len() == 0 {
        -1
    } else if spec_is_blocking(s[0].0) {
        0
    } else {
        let r = spec_first_block(s.subrange(1, s.len() as int));
        if r < 0 { -1 } else { r + 1 }
    }
}

/// Index of the first fail-closed error, or `-1`.
pub open spec fn spec_first_fail_closed(s: Seq<(CallOutcome, FailureMode)>) -> int
    decreases s.len(),
{
    if s.len() == 0 {
        -1
    } else if spec_is_fail_closed(s[0]) {
        0
    } else {
        let r = spec_first_fail_closed(s.subrange(1, s.len() as int));
        if r < 0 { -1 } else { r + 1 }
    }
}

/// The first blocking index is the first index that is blocking.
pub proof fn lemma_first_block(s: Seq<(CallOutcome, FailureMode)>)
    ensures
        spec_first_block(s) >= 0 ==> 0 <= spec_first_block(s) < s.len()
            && spec_is_blocking(s[spec_first_block(s)].0)
            && (forall|k: int| 0 <= k < spec_first_block(s) ==> !spec_is_blocking(s[k].0)),
        spec_first_block(s) < 0 ==> (forall|k: int| 0 <= k < s.len() ==> !spec_is_blocking(s[k].0)),
    decreases s.len(),
{
    if s.len() > 0 && !spec_is_blocking(s[0].0) {
        let t = s.subrange(1, s.len() as int);
        lemma_first_block(t);
        assert(forall|k: int| 0 <= k < t.len() ==> t[k] == s[k + 1]);
        let r = spec_first_block(t);
        if r >= 0 {
            assert forall|k: int| 0 <= k < r + 1 implies !spec_is_blocking(s[k].0) by {
                if k > 0 {
                    assert(s[k] == t[k - 1]);
                }
            }
        } else {
            assert forall|k: int| 0 <= k < s.len() implies !spec_is_blocking(s[k].0) by {
                if k > 0 {
                    assert(s[k] == t[k - 1]);
                }
            }
        }
    }
}

/// A first blocking outcome at `i` pins the index.
pub proof fn lemma_first_block_unique(s: Seq<(CallOutcome, FailureMode)>, i: int)
    requires
        0 <= i < s.len(),
        spec_is_blocking(s[i].0),
        forall|k: int| 0 <= k < i ==> !spec_is_blocking(s[k].0),
    ensures
        spec_first_block(s) == i,
{
    lemma_first_block(s);
    let r = spec_first_block(s);
    if r < 0 {
        assert(!spec_is_blocking(s[i].0));
    } else if r < i {
        assert(!spec_is_blocking(s[r].0));
    } else if r > i {
        assert(!spec_is_blocking(s[i].0));
    }
}

/// The first fail-closed index is the first index that is fail-closed.
pub proof fn lemma_first_fail_closed(s: Seq<(CallOutcome, FailureMode)>)
    ensures
        spec_first_fail_closed(s) >= 0 ==> 0 <= spec_first_fail_closed(s) < s.len()
            && spec_is_fail_closed(s[spec_first_fail_closed(s)])
            && (forall|k: int| 0 <= k < spec_first_fail_closed(s) ==> !spec_is_fail_closed(s[k])),
        spec_first_fail_closed(s) < 0 ==> (forall|k: int| 0 <= k < s.len()
            ==> !spec_is_fail_closed(s[k])),
    decreases s.len(),
{
    if s.len() > 0 && !spec_is_fail_closed(s[0]) {
        let t = s.subrange(1, s.len() as int);
        lemma_first_fail_closed(t);
        assert(forall|k: int| 0 <= k < t.len() ==> t[k] == s[k + 1]);
        let r = spec_first_fail_closed(t);
        if r >= 0 {
            assert forall|k: int| 0 <= k < r + 1 implies !spec_is_fail_closed(s[k]) by {
                if k > 0 {
                    assert(s[k] == t[k - 1]);
                }
            }
        } else {
            assert forall|k: int| 0 <= k < s.len() implies !spec_is_fail_closed(s[k]) by {
                if k > 0 {
                    assert(s[k] == t[k - 1]);
                }
            }
        }
    }
}

/// A first fail-closed error at `i` pins the index.
pub proof fn lemma_first_fail_closed_unique(s: Seq<(CallOutcome, FailureMode)>, i: int)
    requires
        0 <= i < s.len(),
        spec_is_fail_closed(s[i]),
        forall|k: int| 0 <= k < i ==> !spec_is_fail_closed(s[k]),
    ensures
        spec_first_fail_closed(s) == i,
{
    lemma_first_fail_closed(s);
    let r = spec_first_fail_closed(s);
    if r < 0 {
        assert(!spec_is_fail_closed(s[i]));
    } else if r < i {
        assert(!spec_is_fail_closed(s[r]));
    } else if r > i {
        assert(!spec_is_fail_closed(s[i]));
    }
}

/// Request-side header operations of all answered outcomes, in order.
pub open spec fn spec_allow_req_ops(s: Seq<(CallOutcome, FailureMode)>) -> Seq<HeaderOp>
    decreases s.len(),
{
    if s.len() == 0 {
        Seq::empty()
    } else {
        spec_allow_req_ops(s.drop_last()) + (match s.last().0 {
            CallOutcome::Answered(r) => r.request_headers@,
            _ => Seq::empty(),
        })
    }
}

/// Response-side header operations of all answered outcomes, in order.
pub open spec fn spec_allow_resp_ops(s: Seq<(CallOutcome, FailureMode)>) -> Seq<HeaderOp>
    decreases s.len(),
{
    if s.len() == 0 {
        Seq::empty()
    } else {
        spec_allow_resp_ops(s.drop_last()) + (match s.last().0 {
            CallOutcome::Answered(r) => r.response_headers@,
            _ => Seq::empty(),
        })
    }
}

/// Routing metadata of all answered outcomes, in order.
pub open spec fn spec_allow_routing(s: Seq<(CallOutcome, FailureMode)>) -> Seq<(String, String)>
    decreases s.len(),
{
    if s.len() == 0 {
        Seq::empty()
    } else {
        spec_allow_routing(s.drop_last()) + (match s.last().0 {
            CallOutcome::Answered(r) => r.routing_metadata@,
            _ => Seq::empty(),
        })
    }
}

/// Audit tags of all answered outcomes, in order.
pub open spec fn spec_allow_tags(s: Seq<(CallOutcome, FailureMode)>) -> Seq<String>
    decreases s.len(),
{
    if s.len() == 0 {
        Seq::empty()
    } else {
        spec_allow_tags(s.drop_last()) + (match s.last().0 {
            CallOutcome::Answered(r) => r.audit.tags@,
            _ => Seq::empty(),
        })
    }
}

/// Audit rule IDs of all answered outcomes, in order.
pub open spec fn spec_allow_rule_ids(s: Seq<(CallOutcome, FailureMode)>) -> Seq<String>
    decreases s.len(),
{
    if s.len() == 0 {
        Seq::empty()
    } else {
        spec_allow_rule_ids(s.drop_last()) + (match s.last().0 {
            CallOutcome::Answered(r) => r.audit.rule_ids@,
            _ => Seq::empty(),
        })
    }
}

/// Audit reason codes of all answered outcomes, in order.
pub open spec fn spec_allow_reason_codes(s: Seq<(CallOutcome, FailureMode)>) -> Seq<String>
    decreases s.len(),
{
    if s.len() == 0 {
        Seq::empty()
    } else {
        spec_allow_reason_codes(s.drop_last()) + (match s.last().0 {
            CallOutcome::Answered(r) => r.audit.reason_codes@,
            _ => Seq::empty(),
        })
    }
}

/// Custom audit entries of all answered outcomes, in order.
pub open spec fn spec_allow_custom(s: Seq<(CallOutcome, FailureMode)>) -> Seq<(String, String)>
    decreases s.len(),
{
    if s.len() == 0 {
        Seq::empty()
    } else {
        spec_allow_custom(s.drop_last()) + (match s.last().0 {
            CallOutcome::Answered(r) => r.audit.custom@,
            _ => Seq::empty(),
        })
    }
}

/// Two confidence scores combined: the larger one present.
pub open spec fn spec_merge_confidence(a: Option<u32>, b: Option<u32>) -> Option<u32> {
    match b {
        None => a,
        Some(x) => match a {
            None => Some(x),
            Some(y) => Some(if x > y { x } else { y }),
        },
    }
}

/// The highest confidence any answered outcome reported, if any.
pub open spec fn spec_allow_confidence(s: Seq<(CallOutcome, FailureMode)>) -> Option<u32>
    decreases s.len(),
{
    if s.len() == 0 {
        None
    } else {
        spec_merge_confidence(spec_allow_confidence(s.drop_last()), match s.last().0 {
            CallOutcome::Answered(r) => r.audit.confidence,
            _ => None,
        })
    }
}

/// True when any answered outcome asks for more body chunks.
pub open spec fn spec_any_needs_more(s: Seq<(CallOutcome, FailureMode)>) -> bool
    decreases s.len(),
{
    if s.len() == 0 {
        false
    } else {
        spec_any_needs_more(s.drop_last()) || (match s.last().0 {
            CallOutcome::Answered(r) => r.needs_more,
            _ => false,
        })
    }
}

/// The latest request body mutation among answered outcomes.
pub open spec fn spec_last_req_mut(s: Seq<(CallOutcome, FailureMode)>) -> Option<BodyMutation>
    decreases s.len(),
{
    if s.len() == 0 {
        None
    } else {
        match s.last().0 {
            CallOutcome::Answered(r) => if r.request_body_mutation is Some {
                r.request_body_mutation
            } else {
                spec_last_req_mut(s.drop_last())
            },
            _ => spec_last_req_mut(s.drop_last()),
        }
    }
}

/// The latest response body mutation among answered outcomes.
pub open spec fn spec_last_resp_mut(s: Seq<(CallOutcome, FailureMode)>) -> Option<BodyMutation>
    decreases s.len(),
{
    if s.len() == 0 {
        None
    } else {
        match s.last().0 {
            CallOutcome::Answered(r) => if r.response_body_mutation is Some {
                r.response_body_mutation
            } else {
                spec_last_resp_mut(s.drop_last())
            },
            _ => spec_last_resp_mut(s.drop_last()),
        }
    }
}

/// Strength of a decision: allows merge to pick the strongest.
/// `Allow` is weakest, `Redirect` and `Challenge` stand between,
/// `Block` is strongest.
pub open spec fn spec_strength(d: Decision) -> int {
    match d {
        Decision::Allow => 0,
        Decision::Redirect { .. } => 1,
        Decision::Challenge { .. } => 1,
        Decision::Block { .. } => 2,
    }
}

/// The synthesized block for a fail-closed error during parallel
/// fan-out: 504 "Gateway timeout" for a timeout, else 503
/// "Service unavailable".
pub open spec fn spec_synth_parallel(o: CallOutcome, d: Decision) -> bool {
    match d {
        Decision::Block { status, body, headers } => {
            &&& headers is None
            &&& match body {
                Some(m) => if o is TimedOut {
                    status == 504 && m@ == "Gateway timeout"@
                } else {
                    status == 503 && m@ == "Service unavailable"@
                },
                None => false,
            }
        },
        _ => false,
    }
}

/// Audit metadata with nothing in it.
pub open spec fn spec_empty_audit(a: AuditMetadata) -> bool {
    &&& a.tags@.len() == 0
    &&& a.rule_ids@.len() == 0
    &&& a.confidence is None
    &&& a.reason_codes@.len() == 0
    &&& a.custom@.len() == 0
}

impl AgentDecision {
    /// Decision that allows with nothing else set.
    pub fn default_allow() -> (r: AgentDecision)
        ensures
            r.decision == Decision::Allow,
            r.request_headers@.len() == 0,
            r.response_headers@.len() == 0,
            r.routing_metadata@.len() == 0,
            spec_empty_audit(r.audit),
            !r.needs_more,
            r.request_body_mutation is None,
            r.response_body_mutation is None,
    {
        AgentDecision {
            decision: Decision::Allow,
            request_headers: Vec::new(),
            response_headers: Vec::new(),
            routing_metadata: Vec::new(),
            audit: AuditMetadata::default(),
            needs_more: false,
            request_body_mutation: None,
            response_body_mutation: None,
        }
    }

    /// Decision that blocks with a status and message.
    pub fn block(status: u16, message: &str) -> (r: AgentDecision)
        ensures
            r.decision matches Decision::Block { status: st, body, headers }
                && st == status
                && (body matches Some(m) && m@ == message@)
                && headers is None,
            r.request_headers@.len() == 0,
            r.response_headers@.len() == 0,
            r.routing_metadata@.len() == 0,
            spec_empty_audit(r.audit),
            !r.needs_more,
            r.request_body_mutation is None,
            r.response_body_mutation is None,
    {
        let mut r = AgentDecision::default_allow();
        r.decision = Decision::Block {
            status,
            body: Some(String::from_str(message)),
            headers: None,
        };
        r
    }

    /// True when this decision allows the event.
    pub fn is_allow(&self) -> (r: bool)
        ensures
            r == (self.decision is Allow),
    {
        matches!(self.decision, Decision::Allow)
    }

    /// The decision one agent's response contributes.
    pub fn from_response(resp: AgentResponse) -> (r: AgentDecision)
        ensures
            r.decision == resp.decision,
            r.request_headers == resp.request_headers,
            r.response_headers == resp.response_headers,
            r.routing_metadata == resp.routing_metadata,
            r.audit == resp.audit,
            r.needs_more == resp.needs_more,
            r.request_body_mutation == resp.request_body_mutation,
            r.response_body_mutation == resp.response_body_mutation,
    {
        AgentDecision {
            decision: resp.decision,
            request_headers: resp.request_headers,
            response_headers: resp.response_headers,
            routing_metadata: resp.routing_metadata,
            audit: resp.audit,
            needs_more: resp.needs_more,
            request_body_mutation: resp.request_body_mutation,
            response_body_mutation: resp.response_body_mutation,
        }
    }

    /// Strength of this decision.
    pub fn strength(&self) -> (r: u8)
        ensures
            r == spec_strength(self.decision),
    {
        match &self.decision {
            Decision::Allow => 0,
            Decision::Redirect { .. } => 1,
            Decision::Challenge { .. } => 1,
            Decision::Block { .. } => 2,
        }
    }

    /// Merge another decision into this one: the stronger decision
    /// wins, header operations, routing metadata and audit metadata
    /// are appended in order (the audit confidence keeps the larger
    /// score), `needs_more` accumulates, and a later body mutation
    /// replaces an earlier one.
    pub fn merge(&mut self, other: AgentDecision)
        ensures
            final(self).decision == (if spec_strength(other.decision)
                > spec_strength(old(self).decision) { other.decision }
                else { old(self).decision }),
            final(self).request_headers@ == old(self).request_headers@
                + other.request_headers@,
            final(self).response_headers@ == old(self).response_headers@
                + other.response_headers@,
            final(self).routing_metadata@ == old(self).routing_metadata@
                + other.routing_metadata@,
            final(self).audit.tags@ == old(self).audit.tags@ + other.audit.tags@,
            final(self).audit.rule_ids@ == old(self).audit.rule_ids@ + other.audit.rule_ids@,
            final(self).audit.reason_codes@ == old(self).audit.reason_codes@
                + other.audit.reason_codes@,
            final(self).audit.custom@ == old(self).audit.custom@ + other.audit.custom@,
            final(self).audit.confidence == spec_merge_confidence(
                old(self).audit.confidence, other.audit.confidence),
            final(self).needs_more == (old(self).needs_more || other.needs_more),
            final(self).request_body_mutation == (if other.request_body_mutation is Some {
                other.request_body_mutation } else { old(self).request_body_mutation }),
            final(self).response_body_mutation == (if other.response_body_mutation is Some {
                other.response_body_mutation } else { old(self).response_body_mutation }),
    {
        let other_strength = other.strength();
        let AgentDecision {
            decision,
            request_headers: mut req_ops,
            response_headers: mut resp_ops,
            routing_metadata: mut routing,
            audit,
            needs_more,
            request_body_mutation,
            response_body_mutation,
        } = other;
        let AuditMetadata {
            tags: mut o_tags,
            rule_ids: mut o_rule_ids,
            confidence: o_confidence,
            reason_codes: mut o_reason_codes,
            custom: mut o_custom,
        } = audit;
        if other_strength > self.strength() {
            self.decision = decision;
        }
        self.request_headers.append(&mut req_ops);
        self.response_headers.append(&mut resp_ops);
        self.routing_metadata.append(&mut routing);
        self.audit.tags.append(&mut o_tags);
        self.audit.rule_ids.append(&mut o_rule_ids);
        self.audit.reason_codes.append(&mut o_reason_codes);
        self.audit.custom.append(&mut o_custom);
        match o_confidence {
            Some(x) => match self.audit.confidence {
                Some(y) => {
                    if x > y {
                        self.audit.confidence = Some(x);
                    }
                },
                None => {
                    self.audit.confidence = Some(x);
                },
            },
            None => {},
        }
        self.needs_more = self.needs_more || needs_more;
        if request_body_mutation.is_some() {
            self.request_body_mutation = request_body_mutation;
        }
        if response_body_mutation.is_some() {
            self.response_body_mutation = response_body_mutation;
        }
    }
}

/// Merge the outcomes of one parallel fan-out, in filter order.
///
/// The first blocking decision is returned alone, whatever the other
/// outcomes were.  Otherwise a fail-closed error synthesizes a block:
/// 504 for a timeout, 503 for any other failure, judged on the first
/// such error.  Otherwise all answered responses merge: their header
/// operations, routing metadata and audit metadata appear in the
/// result in filter order, each contributor's own order preserved,
/// with the largest reported confidence kept.
pub fn merge_parallel_outcomes(outcomes: &mut Vec<(CallOutcome, FailureMode)>)
    -> (r: AgentDecision)
    ensures
        spec_first_block(old(outcomes)@) >= 0 ==> (old(outcomes)@[spec_first_block(old(outcomes)@)].0
            matches CallOutcome::Answered(resp)
            && r.decision == resp.decision
            && r.request_headers == resp.request_headers
            && r.response_headers == resp.response_headers
            && r.routing_metadata == resp.routing_metadata
            && r.audit == resp.audit
            && r.needs_more == resp.needs_more
            && r.request_body_mutation == resp.request_body_mutation
            && r.response_body_mutation == resp.response_body_mutation),
        spec_first_block(old(outcomes)@) < 0 && spec_first_fail_closed(old(outcomes)@) >= 0
            ==> (spec_synth_parallel(old(outcomes)@[spec_first_fail_closed(old(outcomes)@)].0, r.decision)
                && r.request_headers@.len() == 0
                && r.response_headers@.len() == 0
                && r.routing_metadata@.len() == 0
                && spec_empty_audit(r.audit)
                && !r.needs_more),
        spec_first_block(old(outcomes)@) < 0 && spec_first_fail_closed(old(outcomes)@) < 0
            ==> (r.decision == Decision::Allow
                && r.request_headers@ == spec_allow_req_ops(old(outcomes)@)
                && r.response_headers@ == spec_allow_resp_ops(old(outcomes)@)
                && r.routing_metadata@ == spec_allow_routing(old(outcomes)@)
                && r.audit.tags@ == spec_allow_tags(old(outcomes)@)
                && r.audit.rule_ids@ == spec_allow_rule_ids(old(outcomes)@)
                && r.audit.reason_codes@ == spec_allow_reason_codes(old(outcomes)@)
                && r.audit.custom@ == spec_allow_custom(old(outcomes)@)
                && r.audit.confidence == spec_allow_confidence(old(outcomes)@)
                && r.needs_more == spec_any_needs_more(old(outcomes)@)
                && r.request_body_mutation == spec_last_req_mut(old(outcomes)@)
                && r.response_body_mutation == spec_last_resp_mut(old(outcomes)@)),
{
    let ghost s = old(outcomes)@;
    let mut combined = AgentDecision::default_allow();
    let mut blocking_error: Option<AgentDecision> = None;
    let ghost mut i: int = 0;
    while outcomes.len() > 0
        invariant
            s == old(outcomes)@,
            0 <= i,
            i + outcomes@.len() == s.len(),
            outcomes@ == s.subrange(i, s.len() as int),
            forall|k: int| 0 <= k < i ==> !spec_is_blocking(s[k].0),
            combined.decision == Decision::Allow,
            combined.request_headers@ == spec_allow_req_ops(s.subrange(0, i)),
            combined.response_headers@ == spec_allow_resp_ops(s.subrange(0, i)),
            combined.routing_metadata@ == spec_allow_routing(s.subrange(0, i)),
            combined.audit.tags@ == spec_allow_tags(s.subrange(0, i)),
            combined.audit.rule_ids@ == spec_allow_rule_ids(s.subrange(0, i)),
            combined.audit.reason_codes@ == spec_allow_reason_codes(s.subrange(0, i)),
            combined.audit.custom@ == spec_allow_custom(s.subrange(0, i)),
            combined.audit.confidence == spec_allow_confidence(s.subrange(0, i)),
            combined.needs_more == spec_any_needs_more(s.subrange(0, i)),
            combined.request_body_mutation == spec_last_req_mut(s.subrange(0, i)),
            combined.response_body_mutation == spec_last_resp_mut(s.subrange(0, i)),
            match blocking_error {
                Some(d) => spec_first_fail_closed(s.subrange(0, i)) >= 0
                    && spec_synth_parallel(
                        s[spec_first_fail_closed(s.subrange(0, i))].0, d.decision)
                    && spec_first_fail_closed(s.subrange(0, i))
                        == spec_first_fail_closed(s)
                    && d.request_headers@.len() == 0
                    && d.response_headers@.len() == 0
                    && d.routing_metadata@.len() == 0
                    && spec_empty_audit(d.audit)
                    && !d.needs_more,
                None => spec_first_fail_closed(s.subrange(0, i)) < 0,
            },
        decreases outcomes@.len(),
    {
        let ghost prefix = s.subrange(0, i);
        let ghost p1 = s.subrange(0, i + 1);
        proof {
            assert(outcomes@[0] == s[i]);
            assert(p1.drop_last() =~= prefix);
            assert(p1.last() == s[i]);
            assert(forall|k: int| 0 <= k < i ==> prefix[k] == s[k] && p1[k] == s[k]);
            assert(p1[i] == s[i]);
        }
        let (o, mode) = outcomes.remove(0);
        proof {
            assert(outcomes@ =~= s.subrange(i + 1, s.len() as int));
        }
        match o {
            CallOutcome::Answered(resp) => {
                if !matches!(resp.decision, Decision::Allow) {
                    proof {
                        lemma_first_block_unique(s, i);
                    }
                    return AgentDecision::from_response(resp);
                }
                combined.merge(AgentDecision::from_response(resp));
            },
            CallOutcome::Failed | CallOutcome::TimedOut | CallOutcome::CircuitOpen => {
                if matches!(mode, FailureMode::Closed) && blocking_error.is_none() {
                    proof {
                        lemma_first_fail_closed(prefix);
                        assert forall|k: int| 0 <= k < i
                            implies !spec_is_fail_closed(p1[k]) by {
                            assert(p1[k] == s[k] && prefix[k] == s[k]);
                        }
                        lemma_first_fail_closed_unique(p1, i);
                        assert forall|k: int| 0 <= k < i
                            implies !spec_is_fail_closed(s[k]) by {
                            assert(prefix[k] == s[k]);
                        }
                        lemma_first_fail_closed_unique(s, i);
                    }
                    let synth = if matches!(o, CallOutcome::TimedOut) {
                        AgentDecision::block(504, "Gateway timeout")
                    } else {
                        AgentDecision::block(503, "Service unavailable")
                    };
                    blocking_error = Some(synth);
                }
            },
        }
        proof {
            lemma_first_fail_closed(prefix);
            if spec_first_fail_closed(prefix) >= 0 {
                let f = spec_first_fail_closed(prefix);
                assert(p1[f] == s[f] && prefix[f] == s[f]);
                assert forall|k: int| 0 <= k < f implies !spec_is_fail_closed(p1[k]) by {
                    assert(p1[k] == s[k] && prefix[k] == s[k]);
                }
                lemma_first_fail_closed_unique(p1, f);
            } else if !spec_is_fail_closed(s[i]) {
                lemma_first_fail_closed(p1);
                if spec_first_fail_closed(p1) >= 0 {
                    let f1 = spec_first_fail_closed(p1);
                    assert(spec_is_fail_closed(p1[f1]));
                    if f1 < i {
                        assert(prefix[f1] == s[f1] && p1[f1] == s[f1]);
                        assert(!spec_is_fail_closed(prefix[f1]));
                    }
                    assert(false);
                }
            }
            i = i + 1;
        }
    }
    proof {
        assert(s.subrange(0, i) =~= s);
        lemma_first_block(s);
    }
    match blocking_error {
        Some(d) => d,
        None => combined,
    }
}

/// An index at which a sequential chain stops: a blocking answer, or
/// an error under a fail-closed filter.
pub open spec fn spec_is_seq_stop(p: (CallOutcome, FailureMode)) -> bool {
    spec_is_blocking(p.0) || spec_is_fail_closed(p)
}

/// Index of the first sequential stop, or `-1`.
pub open spec fn spec_first_seq_stop(s: Seq<(CallOutcome, FailureMode)>) -> int
    decreases s.len(),
{
    if s.len() == 0 {
        -1
    } else if spec_is_seq_stop(s[0]) {
        0
    } else {
        let r = spec_first_seq_stop(s.subrange(1, s.len() as int));
        if r < 0 { -1 } else { r + 1 }
    }
}

/// The first sequential stop is the first index that stops the chain.
pub proof fn lemma_first_seq_stop(s: Seq<(CallOutcome, FailureMode)>)
    ensures
        spec_first_seq_stop(s) >= 0 ==> 0 <= spec_first_seq_stop(s) < s.len()
            && spec_is_seq_stop(s[spec_first_seq_stop(s)])
            && (forall|k: int| 0 <= k < spec_first_seq_stop(s) ==> !spec_is_seq_stop(s[k])),
        spec_first_seq_stop(s) < 0 ==> (forall|k: int| 0 <= k < s.len()
            ==> !spec_is_seq_stop(s[k])),
    decreases s.len(),
{
    if s.len() > 0 && !spec_is_seq_stop(s[0]) {
        let t = s.subrange(1, s.len() as int);
        lemma_first_seq_stop(t);
        assert(forall|k: int| 0 <= k < t.len() ==> t[k] == s[k + 1]);
        let r = spec_first_seq_stop(t);
        if r >= 0 {
            assert forall|k: int| 0 <= k < r + 1 implies !spec_is_seq_stop(s[k]) by {
                if k > 0 {
                    assert(s[k] == t[k - 1]);
                }
            }
        } else {
            assert forall|k: int| 0 <= k < s.len() implies !spec_is_seq_stop(s[k]) by {
                if k > 0 {
                    assert(s[k] == t[k - 1]);
                }
            }
        }
    }
}

/// A first sequential stop at `i` pins the index.
pub proof fn lemma_first_seq_stop_unique(s: Seq<(CallOutcome, FailureMode)>, i: int)
    requires
        0 <= i < s.len(),
        spec_is_seq_stop(s[i]),
        forall|k: int| 0 <= k < i ==> !spec_is_seq_stop(s[k]),
    ensures
        spec_first_seq_stop(s) == i,
{
    lemma_first_seq_stop(s);
    let r = spec_first_seq_stop(s);
    if r < 0 {
        assert(!spec_is_seq_stop(s[i]));
    } else if r < i {
        assert(!spec_is_seq_stop(s[r]));
    } else if r > i {
        assert(!spec_is_seq_stop(s[i]));
    }
}

/// The synthesized block for a fail-closed error in a sequential
/// chain: 503 "Agent unavailable" for a failure, 504 "Gateway timeout"
/// for a timeout, 503 "Service unavailable" for an open breaker.
pub open spec fn spec_synth_sequential(o: CallOutcome, d: Decision) -> bool {
    match d {
        Decision::Block { status, body, headers } => {
            &&& headers is None
            &&& match body {
                Some(m) => match o {
                    CallOutcome::Failed => status == 503 && m@ == "Agent unavailable"@,
                    CallOutcome::TimedOut => status == 504 && m@ == "Gateway timeout"@,
                    _ => status == 503 && m@ == "Service unavailable"@,
                },
                None => false,
            }
        },
        _ => false,
    }
}

/// Fold the outcomes of one sequential chain, in filter order.
///
/// Body-chunk and similar events go to agents one after the other;
/// the first blocking answer stops the chain and is returned merged
/// with what the earlier agents contributed, and the first error under
/// a fail-closed filter stops it with a synthesized block.  Fail-open
/// errors contribute nothing and the chain goes on.
pub fn process_outcomes_sequential(outcomes: &mut Vec<(CallOutcome, FailureMode)>)
    -> (r: AgentDecision)
    ensures
        spec_first_seq_stop(old(outcomes)@) >= 0
            && spec_is_blocking(old(outcomes)@[spec_first_seq_stop(old(outcomes)@)].0)
            ==> (old(outcomes)@[spec_first_seq_stop(old(outcomes)@)].0
                matches CallOutcome::Answered(resp)
                && r.decision == resp.decision
                && r.request_headers@ == spec_allow_req_ops(
                    old(outcomes)@.subrange(0, spec_first_seq_stop(old(outcomes)@) + 1))
                && r.response_headers@ == spec_allow_resp_ops(
                    old(outcomes)@.subrange(0, spec_first_seq_stop(old(outcomes)@) + 1))
                && r.routing_metadata@ == spec_allow_routing(
                    old(outcomes)@.subrange(0, spec_first_seq_stop(old(outcomes)@) + 1))
                && r.audit.tags@ == spec_allow_tags(
                    old(outcomes)@.subrange(0, spec_first_seq_stop(old(outcomes)@) + 1))
                && r.audit.rule_ids@ == spec_allow_rule_ids(
                    old(outcomes)@.subrange(0, spec_first_seq_stop(old(outcomes)@) + 1))
                && r.audit.reason_codes@ == spec_allow_reason_codes(
                    old(outcomes)@.subrange(0, spec_first_seq_stop(old(outcomes)@) + 1))
                && r.audit.custom@ == spec_allow_custom(
                    old(outcomes)@.subrange(0, spec_first_seq_stop(old(outcomes)@) + 1))
                && r.audit.confidence == spec_allow_confidence(
                    old(outcomes)@.subrange(0, spec_first_seq_stop(old(outcomes)@) + 1))
                && r.needs_more == spec_any_needs_more(
                    old(outcomes)@.subrange(0, spec_first_seq_stop(old(outcomes)@) + 1))
                && r.request_body_mutation == spec_last_req_mut(
                    old(outcomes)@.subrange(0, spec_first_seq_stop(old(outcomes)@) + 1))
                && r.response_body_mutation == spec_last_resp_mut(
                    old(outcomes)@.subrange(0, spec_first_seq_stop(old(outcomes)@) + 1))),
        spec_first_seq_stop(old(outcomes)@) >= 0
            && !spec_is_blocking(old(outcomes)@[spec_first_seq_stop(old(outcomes)@)].0)
            ==> (spec_synth_sequential(
                    old(outcomes)@[spec_first_seq_stop(old(outcomes)@)].0, r.decision)
                && r.request_headers@.len() == 0
                && r.response_headers@.len() == 0
                && r.routing_metadata@.len() == 0
                && spec_empty_audit(r.audit)
                && !r.needs_more),
        spec_first_seq_stop(old(outcomes)@) < 0
            ==> (r.decision == Decision::Allow
                && r.request_headers@ == spec_allow_req_ops(old(outcomes)@)
                && r.response_headers@ == spec_allow_resp_ops(old(outcomes)@)
                && r.routing_metadata@ == spec_allow_routing(old(outcomes)@)
                && r.audit.tags@ == spec_allow_tags(old(outcomes)@)
                && r.audit.rule_ids@ == spec_allow_rule_ids(old(outcomes)@)
                && r.audit.reason_codes@ == spec_allow_reason_codes(old(outcomes)@)
                && r.audit.custom@ == spec_allow_custom(old(outcomes)@)
                && r.audit.confidence == spec_allow_confidence(old(outcomes)@)
                && r.needs_more == spec_any_needs_more(old(outcomes)@)
                && r.request_body_mutation == spec_last_req_mut(old(outcomes)@)
                && r.response_body_mutation == spec_last_resp_mut(old(outcomes)@)),
{
    let ghost s = old(outcomes)@;
    let mut combined = AgentDecision::default_allow();
    let ghost mut i: int = 0;
    while outcomes.len() > 0
        invariant
            s == old(outcomes)@,
            0 <= i,
            i + outcomes@.len() == s.len(),
            outcomes@ == s.subrange(i, s.len() as int),
            forall|k: int| 0 <= k < i ==> !spec_is_seq_stop(s[k]),
            combined.decision == Decision::Allow,
            combined.request_headers@ == spec_allow_req_ops(s.subrange(0, i)),
            combined.response_headers@ == spec_allow_resp_ops(s.subrange(0, i)),
            combined.routing_metadata@ == spec_allow_routing(s.subrange(0, i)),
            combined.audit.tags@ == spec_allow_tags(s.subrange(0, i)),
            combined.audit.rule_ids@ == spec_allow_rule_ids(s.subrange(0, i)),
            combined.audit.reason_codes@ == spec_allow_reason_codes(s.subrange(0, i)),
            combined.audit.custom@ == spec_allow_custom(s.subrange(0, i)),
            combined.audit.confidence == spec_allow_confidence(s.subrange(0, i)),
            combined.needs_more == spec_any_needs_more(s.subrange(0, i)),
            combined.request_body_mutation == spec_last_req_mut(s.subrange(0, i)),
            combined.response_body_mutation == spec_last_resp_mut(s.subrange(0, i)),
        decreases outcomes@.len(),
    {
        let ghost prefix = s.subrange(0, i);
        let ghost p1 = s.subrange(0, i + 1);
        proof {
            assert(outcomes@[0] == s[i]);
            assert(p1.drop_last() =~= prefix);
            assert(p1.last() == s[i]);
        }
        let (o, mode) = outcomes.remove(0);
        match o {
            CallOutcome::Answered(resp) => {
                combined.merge(AgentDecision::from_response(resp));
                if !combined.is_allow() {
                    proof {
                        lemma_first_seq_stop_unique(s, i);
                    }
                    return combined;
                }
            },
            CallOutcome::Failed | CallOutcome::TimedOut | CallOutcome::CircuitOpen => {
                if matches!(mode, FailureMode::Closed) {
                    proof {
                        lemma_first_seq_stop_unique(s, i);
                    }
                    let r = match o {
                        CallOutcome::Failed => AgentDecision::block(503, "Agent unavailable"),
                        CallOutcome::TimedOut => AgentDecision::block(504, "Gateway timeout"),
                        _ => AgentDecision::block(503, "Service unavailable"),
                    };
                    return r;
                }
            },
        }
        proof {
            i = i + 1;
        }
    }
    proof {
        assert(s.subrange(0, i) =~= s);
        lemma_first_seq_stop(s);
        if spec_first_seq_stop(s) >= 0 {
            assert(!spec_is_seq_stop(s[spec_first_seq_stop(s)]));
        }
    }
    combined
}

/// An answered outcome whose WebSocket decision is present and not
/// `Allow`.
pub open spec fn spec_is_ws_blocking(o: CallOutcome) -> bool {
    match o {
        CallOutcome::Answered(r) => match r.websocket_decision {
            Some(d) => !(d is Allow),
            None => false,
        },
        _ => false,
    }
}

/// An index at which a WebSocket chain stops.
pub open spec fn spec_is_ws_stop(p: (CallOutcome, FailureMode)) -> bool {
    spec_is_ws_blocking(p.0) || spec_is_fail_closed(p)
}

/// Index of the first WebSocket stop, or `-1`.
pub open spec fn spec_first_ws_stop(s: Seq<(CallOutcome, FailureMode)>) -> int
    decreases s.len(),
{
    if s.len() == 0 {
        -1
    } else if spec_is_ws_stop(s[0]) {
        0
    } else {
        let r = spec_first_ws_stop(s.subrange(1, s.len() as int));
        if r < 0 { -1 } else { r + 1 }
    }
}

/// The first WebSocket stop is the first index that stops the chain.
pub proof fn lemma_first_ws_stop(s: Seq<(CallOutcome, FailureMode)>)
    ensures
        spec_first_ws_stop(s) >= 0 ==> 0 <= spec_first_ws_stop(s) < s.len()
            && spec_is_ws_stop(s[spec_first_ws_stop(s)])
            && (forall|k: int| 0 <= k < spec_first_ws_stop(s) ==> !spec_is_ws_stop(s[k])),
        spec_first_ws_stop(s) < 0 ==> (forall|k: int| 0 <= k < s.len()
            ==> !spec_is_ws_stop(s[k])),
    decreases s.len(),
{
    if s.len() > 0 && !spec_is_ws_stop(s[0]) {
        let t = s.subrange(1, s.len() as int);
        lemma_first_ws_stop(t);
        assert(forall|k: int| 0 <= k < t.len() ==> t[k] == s[k + 1]);
        let r = spec_first_ws_stop(t);
        if r >= 0 {
            assert forall|k: int| 0 <= k < r + 1 implies !spec_is_ws_stop(s[k]) by {
                if k > 0 {
                    assert(s[k] == t[k - 1]);
                }
            }
        } else {
            assert forall|k: int| 0 <= k < s.len() implies !spec_is_ws_stop(s[k]) by {
                if k > 0 {
                    assert(s[k] == t[k - 1]);
                }
            }
        }
    }
}

/// A first WebSocket stop at `i` pins the index.
pub proof fn lemma_first_ws_stop_unique(s: Seq<(CallOutcome, FailureMode)>, i: int)
    requires
        0 <= i < s.len(),
        spec_is_ws_stop(s[i]),
        forall|k: int| 0 <= k < i ==> !spec_is_ws_stop(s[k]),
    ensures
        spec_first_ws_stop(s) == i,
{
    lemma_first_ws_stop(s);
    let r = spec_first_ws_stop(s);
    if r < 0 {
        assert(!spec_is_ws_stop(s[i]));
    } else if r < i {
        assert(!spec_is_ws_stop(s[r]));
    } else if r > i {
        assert(!spec_is_ws_stop(s[i]));
    }
}

/// The synthesized close for a fail-closed error in a WebSocket chain:
/// always code 1011, with a reason naming the error kind.
pub open spec fn spec_synth_ws(o: CallOutcome, d: Option<WebSocketDecision>) -> bool {
    match d {
        Some(WebSocketDecision::Close { code, reason }) => {
            &&& code == 1011
            &&& match o {
                CallOutcome::Failed => reason@ == "Agent error"@,
                CallOutcome::TimedOut => reason@ == "Gateway timeout"@,
                _ => reason@ == "Service unavailable"@,
            }
        },
        _ => false,
    }
}

/// Fold the outcomes of one WebSocket frame chain, in filter order.
///
/// The chain is always sequential: the first `Drop` or `Close`
/// decision ends it and that agent's whole response is returned; an
/// error under a fail-closed filter closes the connection with code
/// 1011; when every agent allows the frame, an allow response comes
/// back.
pub fn process_websocket_outcomes(outcomes: &mut Vec<(CallOutcome, FailureMode)>)
    -> (r: AgentResponse)
    ensures
        spec_first_ws_stop(old(outcomes)@) >= 0
            && spec_is_ws_blocking(old(outcomes)@[spec_first_ws_stop(old(outcomes)@)].0)
            ==> (old(outcomes)@[spec_first_ws_stop(old(outcomes)@)].0
                matches CallOutcome::Answered(resp) && r == resp),
        spec_first_ws_stop(old(outcomes)@) >= 0
            && !spec_is_ws_blocking(old(outcomes)@[spec_first_ws_stop(old(outcomes)@)].0)
            ==> (crate::protocol::fresh_response(r)
                && r.decision == Decision::Allow
                && !r.needs_more
                && spec_synth_ws(old(outcomes)@[spec_first_ws_stop(old(outcomes)@)].0,
                    r.websocket_decision)),
        spec_first_ws_stop(old(outcomes)@) < 0
            ==> (crate::protocol::fresh_response(r)
                && r.decision == Decision::Allow
                && !r.needs_more
                && r.websocket_decision == Some(WebSocketDecision::Allow)),
{
    let ghost s = old(outcomes)@;
    let ghost mut i: int = 0;
    while outcomes.len() > 0
        invariant
            s == old(outcomes)@,
            0 <= i,
            i + outcomes@.len() == s.len(),
            outcomes@ == s.subrange(i, s.len() as int),
            forall|k: int| 0 <= k < i ==> !spec_is_ws_stop(s[k]),
        decreases outcomes@.len(),
    {
        proof {
            assert(outcomes@[0] == s[i]);
        }
        let (o, mode) = outcomes.remove(0);
        match o {
            CallOutcome::Answered(resp) => {
                let blocking = match &resp.websocket_decision {
                    Some(d) => !matches!(d, WebSocketDecision::Allow),
                    None => false,
                };
                if blocking {
                    proof {
                        lemma_first_ws_stop_unique(s, i);
                    }
                    return resp;
                }
            },
            CallOutcome::Failed | CallOutcome::TimedOut | CallOutcome::CircuitOpen => {
                if matches!(mode, FailureMode::Closed) {
                    proof {
                        lemma_first_ws_stop_unique(s, i);
                    }
                    let reason = match o {
                        CallOutcome::Failed => "Agent error",
                        CallOutcome::TimedOut => "Gateway timeout",
                        _ => "Service unavailable",
                    };
                    return AgentResponse::websocket_close(1011, String::from_str(reason));
                }
            },
        }
        proof {
            i = i + 1;
        }
    }
    proof {
        assert(s.subrange(0, i) =~= s);
        lemma_first_ws_stop(s);
        if spec_first_ws_stop(s) >= 0 {
            assert(!spec_is_ws_stop(s[spec_first_ws_stop(s)]));
        }
    }
    AgentResponse::websocket_allow()
}

/// True when an outcome ends a sequential chain, so that no later
/// agent need be called: a blocking answer, or an error under a
/// fail-closed filter.
pub fn stops_sequential_chain(outcome: &CallOutcome, mode: FailureMode) -> (r: bool)
    ensures
        r == spec_is_seq_stop((*outcome, mode)),
{
    match outcome {
        CallOutcome::Answered(resp) => !matches!(resp.decision, Decision::Allow),
        _ => matches!(mode, FailureMode::Closed),
    }
}

/// True when an outcome ends a WebSocket chain: a present non-allow
/// frame decision, or an error under a fail-closed filter.
pub fn stops_websocket_chain(outcome: &CallOutcome, mode: FailureMode) -> (r: bool)
    ensures
        r == spec_is_ws_stop((*outcome, mode)),
{
    match outcome {
        CallOutcome::Answered(resp) => match &resp.websocket_decision {
            Some(d) => !matches!(d, WebSocketDecision::Allow),
            None => false,
        },
        _ => matches!(mode, FailureMode::Closed),
    }
}

/// Largest body that is still sent to agents in buffered mode: 1 MiB.
pub const BODY_INSPECTION_LIMIT: usize = 1024 * 1024;

/// Build the request-headers event from the request's header map.
///
/// The `:method` and `:path` pseudo-headers are taken out of the map
/// and become the event's method and URI; a missing or empty value
/// defaults to `GET` and `/`.
pub fn build_request_headers_event(metadata: &RequestMetadata, headers: HeaderMap)
    -> (e: RequestHeadersEvent)
    ensures
        e.metadata == *metadata,
        e.headers@ == spec_remove(spec_remove(headers@, ":method"@), ":path"@),
        match spec_get(headers@, ":method"@) {
            Some(vs) => if vs.len() > 0 { e.method == vs[0] } else { e.method@ == "GET"@ },
            None => e.method@ == "GET"@,
        },
        match spec_get(headers@, ":path"@) {
            Some(vs) => if vs.len() > 0 { e.uri == vs[0] } else { e.uri@ == "/"@ },
            None => e.uri@ == "/"@,
        },
{
    let ghost h0 = headers@;
    let mut headers = headers;
    let method: String = match headers.remove(":method") {
        Some(mut vs) => {
            if vs.len() > 0 {
                vs.remove(0)
            } else {
                String::from_str("GET")
            }
        },
        None => String::from_str("GET"),
    };
    proof {
        reveal_strlit(":method");
        reveal_strlit(":path");
        assert(":method"@.len() == 7);
        assert(":path"@.len() == 5);
        assert(":method"@ != ":path"@);
        crate::headers::lemma_remove_preserves_other(h0, ":method"@, ":path"@);
    }
    let uri: String = match headers.remove(":path") {
        Some(mut vs) => {
            if vs.len() > 0 {
                vs.remove(0)
            } else {
                String::from_str("/")
            }
        },
        None => String::from_str("/"),
    };
    RequestHeadersEvent { metadata: metadata.duplicate(), method, uri, headers }
}

/// Build a buffered-mode request body event: the whole body as one
/// final chunk.  Bodies over the inspection limit are not inspected
/// and give `None`, which the caller turns into an allow.
pub fn build_buffered_body_event(
    correlation_id: &String,
    data: &[u8],
    is_last: bool,
    total_size: Option<usize>,
) -> (r: Option<RequestBodyChunkEvent>)
    ensures
        data@.len() > BODY_INSPECTION_LIMIT ==> r is None,
        data@.len() <= BODY_INSPECTION_LIMIT ==> (r matches Some(e)
            && e.correlation_id == *correlation_id
            && e.data@ == spec_base64(data@)
            && e.is_last == is_last
            && e.total_size == total_size
            && e.chunk_index == 0
            && e.bytes_received == data@.len()),
{
    if data.len() > BODY_INSPECTION_LIMIT {
        return None;
    }
    Some(RequestBodyChunkEvent {
        correlation_id: correlation_id.clone(),
        data: base64_encode(data),
        is_last,
        total_size,
        chunk_index: 0,
        bytes_received: data.len(),
    })
}

/// Build one streaming-mode request body chunk event.
pub fn build_streaming_request_chunk(
    correlation_id: &String,
    data: &[u8],
    is_last: bool,
    chunk_index: u32,
    bytes_received: usize,
    total_size: Option<usize>,
) -> (e: RequestBodyChunkEvent)
    ensures
        e.correlation_id == *correlation_id,
        e.data@ == spec_base64(data@),
        e.is_last == is_last,
        e.total_size == total_size,
        e.chunk_index == chunk_index,
        e.bytes_received == bytes_received,
{
    RequestBodyChunkEvent {
        correlation_id: correlation_id.clone(),
        data: base64_encode(data),
        is_last,
        total_size,
        chunk_index,
        bytes_received,
    }
}

/// Build one streaming-mode response body chunk event.
pub fn build_streaming_response_chunk(
    correlation_id: &String,
    data: &[u8],
    is_last: bool,
    chunk_index: u32,
    bytes_sent: usize,
    total_size: Option<usize>,
) -> (e: ResponseBodyChunkEvent)
    ensures
        e.correlation_id == *correlation_id,
        e.data@ == spec_base64(data@),
        e.is_last == is_last,
        e.total_size == total_size,
        e.chunk_index == chunk_index,
        e.bytes_sent == bytes_sent,
{
    ResponseBodyChunkEvent {
        correlation_id: correlation_id.clone(),
        data: base64_encode(data),
        is_last,
        total_size,
        chunk_index,
        bytes_sent,
    }
}

/// Build the response-headers event.
pub fn build_response_headers_event(
    correlation_id: &String,
    status: u16,
    headers: &HeaderMap,
) -> (e: ResponseHeadersEvent)
    ensures
        e.correlation_id == *correlation_id,
        e.status == status,
        e.headers@ == headers@,
{
    ResponseHeadersEvent {
        correlation_id: correlation_id.clone(),
        status,
        headers: headers.duplicate(),
    }
}

/// Apply one body mutation to the chunk it came with.
///
/// A mutation whose `chunk_index` does not match the triggering
/// chunk's index is a protocol error.  Otherwise: no data passes the
/// chunk through byte for byte, empty data drops it so that nothing is
/// forwarded, and non-empty data replaces it — base64 text with the
/// bytes it encodes, anything else with its raw UTF-8 bytes.
pub fn apply_body_mutation(m: &BodyMutation, chunk_index: u32, chunk: &[u8])
    -> (r: Result<Vec<u8>, AgentProtocolError>)
    ensures
        m.chunk_index != chunk_index ==> (r matches Err(e) && e is InvalidMessage),
        m.chunk_index == chunk_index ==> (r matches Ok(v) && match m.data {
            None => v@ == chunk@,
            Some(d) => if d@.len() == 0 {
                v@.len() == 0
            } else {
                &&& forall|b: Seq<u8>| d@ == #[trigger] spec_base64(b) ==> v@ == b
                &&& (forall|b: Seq<u8>| d@ != #[trigger] spec_base64(b))
                    ==> v@ == vstd::utf8::encode_utf8(d@)
            },
        }),
{
    if m.chunk_index != chunk_index {
        return Err(AgentProtocolError::InvalidMessage(
            String::from_str("body mutation chunk index does not match the chunk")));
    }
    match &m.data {
        None => Ok(vstd::slice::slice_to_vec(chunk)),
        Some(d) => {
            if d.as_str().unicode_len() == 0 {
                Ok(Vec::new())
            } else {
                match base64_decode(d.as_str()) {
                    Some(v) => Ok(v),
                    None => Ok(d.as_str().as_bytes_vec()),
                }
            }
        },
    }
}

/// Counters for one streamed body direction of one request: the next
/// chunk index and the bytes seen so far.
#[derive(Debug, Clone, Copy, PartialEq, Eq, Structural)]
pub struct StreamState {
    /// Index the next chunk will carry
    pub next_chunk_index: u32,
    /// Bytes seen before the next chunk
    pub bytes_so_far: usize,
}

impl StreamState {
    /// Fresh stream: the first chunk gets index 0.
    pub fn new() -> (s: StreamState)
        ensures
            s.next_chunk_index == 0,
            s.bytes_so_far == 0,
    {
        StreamState { next_chunk_index: 0, bytes_so_far: 0 }
    }

    /// Account one chunk: returns the index it carries and the
    /// cumulative byte count including it, and steps the state.
    pub fn advance(&mut self, chunk_len: usize) -> (r: (u32, usize))
        requires
            old(self).next_chunk_index < u32::MAX,
            old(self).bytes_so_far + chunk_len <= usize::MAX,
        ensures
            r.0 == old(self).next_chunk_index,
            r.1 == old(self).bytes_so_far + chunk_len,
            final(self).next_chunk_index == old(self).next_chunk_index + 1,
            final(self).bytes_so_far == old(self).bytes_so_far + chunk_len,
    {
        let idx = self.next_chunk_index;
        let cumulative = self.bytes_so_far + chunk_len;
        self.next_chunk_index = self.next_chunk_index + 1;
        self.bytes_so_far = cumulative;
        (idx, cumulative)
    }
}

/// Capability descriptor an agent declares at handshake time.
#[derive(Debug, Clone)]
pub struct AgentCapabilities {
    /// Agent identifier
    pub id: String,
    /// Human-readable name
    pub name: String,
    /// Agent version
    pub version: String,
    /// Event kinds the agent handles
    pub events: Vec<EventType>,
    /// The agent accepts streamed body chunks
    pub streaming_bodies: bool,
    /// The agent inspects WebSocket frames
    pub websocket_frames: bool,
    /// The agent answers guardrail inspections
    pub guardrail_inspection: bool,
}

impl AgentCapabilities {
    /// Descriptor with no events and no feature flags.
    pub fn new(id: String, name: String, version: String) -> (c: AgentCapabilities)
        ensures
            c.id == id,
            c.name == name,
            c.version == version,
            c.events@.len() == 0,
            !c.streaming_bodies,
            !c.websocket_frames,
            !c.guardrail_inspection,
    {
        AgentCapabilities {
            id,
            name,
            version,
            events: Vec::new(),
            streaming_bodies: false,
            websocket_frames: false,
            guardrail_inspection: false,
        }
    }

    /// Declare one more handled event kind.
    pub fn with_event(self, event: EventType) -> (c: AgentCapabilities)
        ensures
            c.events@ == self.events@.push(event),
            c.id == self.id,
            c.name == self.name,
            c.version == self.version,
            c.streaming_bodies == self.streaming_bodies,
            c.websocket_frames == self.websocket_frames,
            c.guardrail_inspection == self.guardrail_inspection,
    {
        let mut s = self;
        s.events.push(event);
        s
    }

    /// True when the agent declared this event kind.
    pub fn handles_event(&self, event: EventType) -> (r: bool)
        ensures
            r == self.events@.contains(event),
    {
        let n = self.events.len();
        let mut i: usize = 0;
        while i < n
            invariant
                i <= n,
                n == self.events@.len(),
                forall|k: int| 0 <= k < i ==> self.events@[k] != event,
            decreases n - i,
        {
            if self.events[i] == event {
                return true;
            }
            i = i + 1;
        }
        false
    }
}

/// IDs of the agents that handle an event kind, in declaration order.
pub open spec fn spec_agents_for(s: Seq<AgentCapabilities>, event: EventType) -> Seq<String>
    decreases s.len(),
{
    if s.len() == 0 {
        Seq::empty()
    } else {
        spec_agents_for(s.drop_last(), event) + (if s.last().events@.contains(event) {
            seq![s.last().id]
        } else {
            Seq::empty()
        })
    }
}

/// Collect the IDs of the agents that handle an event kind.
pub fn get_agents_for_event(agents: &Vec<AgentCapabilities>, event: EventType)
    -> (r: Vec<String>)
    ensures
        r@ == spec_agents_for(agents@, event),
{
    let n = agents.len();
    let mut out: Vec<String> = Vec::new();
    let mut i: usize = 0;
    while i < n
        invariant
            i <= n,
            n == agents@.len(),
            out@ == spec_agents_for(agents@.subrange(0, i as int), event),
        decreases n - i,
    {
        proof {
            assert(agents@.subrange(0, (i + 1) as int).drop_last()
                =~= agents@.subrange(0, i as int));
            assert(agents@.subrange(0, (i + 1) as int).last() == agents@[i as int]);
        }
        if agents[i].handles_event(event) {
            out.push(agents[i].id.clone());
        }
        i = i + 1;
    }
    proof {
        assert(agents@.subrange(0, n as int) =~= agents@);
    }
    out
}

/// True when some route agent is configured and handles the event.
pub fn any_agent_handles_event(
    route_agents: &Vec<String>,
    agents: &Vec<AgentCapabilities>,
    event: EventType,
) -> (r: bool)
    ensures
        r == exists|k: int, j: int| 0 <= k < route_agents@.len()
            && 0 <= j < agents@.len()
            && agents@[j].id@ == route_agents@[k]@
            && agents@[j].events@.contains(event),
{
    let n = route_agents.len();
    let m = agents.len();
    let mut k: usize = 0;
    while k < n
        invariant
            k <= n,
            n == route_agents@.len(),
            m == agents@.len(),
            forall|k2: int, j2: int| 0 <= k2 < k && 0 <= j2 < m
                ==> !(agents@[j2].id@ == route_agents@[k2]@
                    && agents@[j2].events@.contains(event)),
        decreases n - k,
    {
        let mut j: usize = 0;
        while j < m
            invariant
                k < n,
                j <= m,
                n == route_agents@.len(),
                m == agents@.len(),
                forall|k2: int, j2: int| 0 <= k2 < k && 0 <= j2 < m
                    ==> !(agents@[j2].id@ == route_agents@[k2]@
                        && agents@[j2].events@.contains(event)),
                forall|j2: int| 0 <= j2 < j ==> !(agents@[j2].id@ == route_agents@[k as int]@
                    && agents@[j2].events@.contains(event)),
            decreases m - j,
        {
            if crate::strutil::str_eq(agents[j].id.as_str(), route_agents[k].as_str())
                && agents[j].handles_event(event) {
                return true;
            }
            j = j + 1;
        }
        k = k + 1;
    }
    false
}

} // verus!
