use zentinel_agents::manager::{AgentCapabilities, AgentDecision, CallOutcome, FailureMode,
    StreamState, apply_body_mutation, build_request_headers_event, merge_parallel_outcomes,
    process_outcomes_sequential, process_websocket_outcomes, any_agent_handles_event,
    get_agents_for_event};
use zentinel_agents::breaker::{CircuitBreaker, CircuitBreakerConfig};
use zentinel_agents::headers::HeaderMap;
use zentinel_agents::protocol::{AgentResponse, AuditMetadata, BodyMutation, Decision, EventType,
    HeaderOp, RequestMetadata, WebSocketDecision};
use zentinel_agents::error::AgentProtocolError;

fn metadata(cid: &str) -> RequestMetadata {
    RequestMetadata {
        correlation_id: cid.to_string(),
        request_id: "req-1".to_string(),
        client_ip: "127.0.0.1".to_string(),
        client_port: 12345,
        server_name: None,
        protocol: "HTTP/1.1".to_string(),
        tls_version: None,
        tls_cipher: None,
        route_id: None,
        upstream_id: None,
        timestamp: "0".to_string(),
        traceparent: None,
    }
}

#[test]
fn single_agent_allow_with_header_op_and_breaker_success() {
    // One agent handling request headers replies allow with a header op
    // naming the correlation ID; the merged decision carries that op and
    // the breaker records the success.
    let caps = AgentCapabilities::new(
        "test-uds-v2".to_string(),
        "Test UDS V2 Agent".to_string(),
        "1.0.0".to_string(),
    ).with_event(EventType::RequestHeaders);
    assert!(caps.handles_event(EventType::RequestHeaders));
    assert!(!caps.handles_event(EventType::ResponseHeaders));

    let mut headers = HeaderMap::new();
    headers.set(":method".to_string(), "GET".to_string());
    headers.set(":path".to_string(), "/x".to_string());
    headers.set("host".to_string(), "example.com".to_string());
    let event = build_request_headers_event(&metadata("abc-1"), headers);
    assert_eq!(event.method, "GET");
    assert_eq!(event.uri, "/x");
    assert_eq!(event.metadata.correlation_id, "abc-1");

    let resp = AgentResponse::default_allow().add_request_header(HeaderOp::SetHeader {
        name: "x-test-agent".to_string(),
        value: "abc-1".to_string(),
    });
    let mut outcomes = vec![(CallOutcome::Answered(resp), FailureMode::Closed)];
    let decision = merge_parallel_outcomes(&mut outcomes);
    assert!(decision.is_allow());
    assert_eq!(decision.request_headers.len(), 1);
    assert!(matches!(&decision.request_headers[0],
        HeaderOp::SetHeader { name, value } if name == "x-test-agent" && value == "abc-1"));

    let mut breaker = CircuitBreaker::new(CircuitBreakerConfig::default());
    breaker.record_success();
    assert!(breaker.is_closed());
}

#[test]
fn parallel_fan_out_returns_the_blocker_and_discards_peers() {
    // Filters [("waf", Closed), ("ratelimit", Open)]: waf blocks with
    // 403 "blocked", ratelimit allows later; the block wins untouched.
    let waf = AgentResponse::block(403, Some("blocked".to_string()));
    let ratelimit = AgentResponse::default_allow().add_request_header(HeaderOp::AddHeader {
        name: "x-rl".to_string(),
        value: "ok".to_string(),
    });
    let mut outcomes = vec![
        (CallOutcome::Answered(waf), FailureMode::Closed),
        (CallOutcome::Answered(ratelimit), FailureMode::Open),
    ];
    let decision = merge_parallel_outcomes(&mut outcomes);
    match decision.decision {
        Decision::Block { status, body, .. } => {
            assert_eq!(status, 403);
            assert_eq!(body.as_deref(), Some("blocked"));
        }
        _ => panic!("the blocking decision must win"),
    }
    assert!(decision.request_headers.is_empty());
}

#[test]
fn timeout_under_fail_closed_synthesizes_a_504_block() {
    // A timed-out agent under a fail-closed filter blocks with
    // 504 "Gateway timeout", and the breaker counts the timeout.
    let mut outcomes = vec![(CallOutcome::TimedOut, FailureMode::Closed)];
    let decision = merge_parallel_outcomes(&mut outcomes);
    match decision.decision {
        Decision::Block { status, body, .. } => {
            assert_eq!(status, 504);
            assert_eq!(body.as_deref(), Some("Gateway timeout"));
        }
        _ => panic!("a fail-closed timeout must block"),
    }

    let mut breaker = CircuitBreaker::new(CircuitBreakerConfig::default());
    breaker.record_timeout(1000);
    assert!(breaker.is_closed());
}

#[test]
fn fail_open_errors_are_ignored_and_allows_merge_in_order() {
    let a = AgentResponse::default_allow()
        .add_request_header(HeaderOp::AddHeader {
            name: "x-a".to_string(),
            value: "1".to_string(),
        })
        .with_audit(AuditMetadata {
            tags: vec!["waf".to_string()],
            rule_ids: vec!["sqli-7".to_string()],
            confidence: Some(300_000),
            reason_codes: vec![],
            custom: vec![],
        });
    let b = AgentResponse::default_allow()
        .add_request_header(HeaderOp::AddHeader {
            name: "x-b".to_string(),
            value: "2".to_string(),
        })
        .with_audit(AuditMetadata {
            tags: vec!["ratelimit".to_string()],
            rule_ids: vec![],
            confidence: Some(900_000),
            reason_codes: vec!["burst".to_string()],
            custom: vec![],
        });
    let mut outcomes = vec![
        (CallOutcome::Answered(a), FailureMode::Open),
        (CallOutcome::Failed, FailureMode::Open),
        (CallOutcome::Answered(b), FailureMode::Open),
    ];
    let decision = merge_parallel_outcomes(&mut outcomes);
    assert!(decision.is_allow());
    // Header ops from all contributors, in filter order.
    assert_eq!(decision.request_headers.len(), 2);
    assert!(matches!(&decision.request_headers[0],
        HeaderOp::AddHeader { name, .. } if name == "x-a"));
    assert!(matches!(&decision.request_headers[1],
        HeaderOp::AddHeader { name, .. } if name == "x-b"));
    // Audit metadata from all contributors is merged, in order, and
    // the largest reported confidence is kept.
    assert_eq!(decision.audit.tags, vec!["waf".to_string(), "ratelimit".to_string()]);
    assert_eq!(decision.audit.rule_ids, vec!["sqli-7".to_string()]);
    assert_eq!(decision.audit.reason_codes, vec!["burst".to_string()]);
    assert_eq!(decision.audit.confidence, Some(900_000));
}

#[test]
fn sequential_chain_stops_at_the_first_blocker() {
    let a = AgentResponse::default_allow();
    let blocker = AgentResponse::block(451, None);
    let ignored = AgentResponse::default_allow();
    let mut outcomes = vec![
        (CallOutcome::Answered(a), FailureMode::Open),
        (CallOutcome::Answered(blocker), FailureMode::Open),
        (CallOutcome::Answered(ignored), FailureMode::Open),
    ];
    let decision = process_outcomes_sequential(&mut outcomes);
    assert!(matches!(decision.decision, Decision::Block { status: 451, .. }));
}

#[test]
fn streaming_mutation_replaces_exactly_the_targeted_chunk() {
    // Chunks 0, 1, 2 with a replacement on chunk 1: the forwarded body
    // is chunk0, then the replacement, then chunk2.
    let chunk0 = b"hello ".to_vec();
    let chunk1 = b"secret".to_vec();
    let chunk2 = b" world".to_vec();

    let mut state = StreamState::new();
    let (i0, _) = state.advance(chunk0.len());
    let (i1, _) = state.advance(chunk1.len());
    let (i2, cumulative) = state.advance(chunk2.len());
    assert_eq!((i0, i1, i2), (0, 1, 2));
    assert_eq!(cumulative, 18);

    let redacted = zentinel_agents::codec::base64_encode(b"REDACTED");
    let m0 = BodyMutation::pass_through(0);
    let m1 = BodyMutation::replace(1, redacted);
    let m2 = BodyMutation::pass_through(2);

    let mut forwarded: Vec<u8> = Vec::new();
    forwarded.extend(apply_body_mutation(&m0, 0, &chunk0).unwrap());
    forwarded.extend(apply_body_mutation(&m1, 1, &chunk1).unwrap());
    forwarded.extend(apply_body_mutation(&m2, 2, &chunk2).unwrap());
    assert_eq!(forwarded, b"hello REDACTED world".to_vec());
}

#[test]
fn mutations_pass_drop_and_replace() {
    let chunk = b"payload".to_vec();
    let passed = apply_body_mutation(&BodyMutation::pass_through(5), 5, &chunk).unwrap();
    assert_eq!(passed, chunk);
    let dropped = apply_body_mutation(&BodyMutation::drop_chunk(5), 5, &chunk).unwrap();
    assert!(dropped.is_empty());
    let replacement = zentinel_agents::codec::base64_encode(b"new");
    let replaced =
        apply_body_mutation(&BodyMutation::replace(5, replacement), 5, &chunk).unwrap();
    assert_eq!(replaced, b"new".to_vec());
}

#[test]
fn replacement_text_that_is_not_base64_is_taken_as_raw_bytes() {
    // "modified content" holds a space, so it is no base64 text: the
    // replacement falls back to its raw UTF-8 bytes, exactly.
    let chunk = b"original".to_vec();
    let m = BodyMutation::replace(2, "modified content".to_string());
    assert!(!m.is_pass_through());
    assert!(!m.is_drop());
    let replaced = apply_body_mutation(&m, 2, &chunk).unwrap();
    assert_eq!(replaced, b"modified content".to_vec());
}

#[test]
fn mutation_with_wrong_chunk_index_is_a_protocol_error() {
    let chunk = b"payload".to_vec();
    let r = apply_body_mutation(&BodyMutation::pass_through(2), 3, &chunk);
    assert!(matches!(r, Err(AgentProtocolError::InvalidMessage(..))));
}

#[test]
fn websocket_close_decision_ends_the_chain() {
    // On frame 3 the agent closes with 1008 "policy"; the chain returns
    // that very response.
    let allow = AgentResponse::websocket_allow();
    let close = AgentResponse::websocket_close(1008, "policy".to_string());
    let mut outcomes = vec![
        (CallOutcome::Answered(allow), FailureMode::Open),
        (CallOutcome::Answered(close), FailureMode::Closed),
    ];
    let resp = process_websocket_outcomes(&mut outcomes);
    assert_eq!(
        resp.websocket_decision,
        Some(WebSocketDecision::Close { code: 1008, reason: "policy".to_string() })
    );
}

#[test]
fn websocket_fail_closed_error_closes_with_1011() {
    let mut outcomes = vec![(CallOutcome::TimedOut, FailureMode::Closed)];
    let resp = process_websocket_outcomes(&mut outcomes);
    assert_eq!(
        resp.websocket_decision,
        Some(WebSocketDecision::Close { code: 1011, reason: "Gateway timeout".to_string() })
    );
}

#[test]
fn capability_selection_filters_by_event() {
    let a = AgentCapabilities::new("waf".to_string(), "WAF".to_string(), "1".to_string())
        .with_event(EventType::RequestHeaders);
    let b = AgentCapabilities::new("rl".to_string(), "RL".to_string(), "1".to_string())
        .with_event(EventType::RequestBodyChunk);
    let agents = vec![a, b];
    let ids = get_agents_for_event(&agents, EventType::RequestHeaders);
    assert_eq!(ids, vec!["waf".to_string()]);
    let route = vec!["rl".to_string()];
    assert!(any_agent_handles_event(&route, &agents, EventType::RequestBodyChunk));
    assert!(!any_agent_handles_event(&route, &agents, EventType::RequestHeaders));
}

#[test]
fn merge_keeps_the_stronger_decision() {
    let mut d = AgentDecision::default_allow();
    d.merge(AgentDecision::block(403, "no"));
    assert!(!d.is_allow());
}
