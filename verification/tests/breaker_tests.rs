use zentinel_agents::breaker::{BreakerState, CircuitBreaker, CircuitBreakerConfig};
use zentinel_agents::checksum::checksum_matches;
use zentinel_agents::grpc::{AgentEvent, GrpcAgentResponse, GrpcBodyMutation, GrpcDecision,
    build_grpc_request, convert_grpc_response};
use zentinel_agents::error::AgentProtocolError;
use zentinel_agents::protocol::Decision;

#[test]
fn breaker_opens_after_the_failure_threshold() {
    let config = CircuitBreakerConfig {
        failure_threshold: 3,
        open_duration_ms: 1000,
        half_open_trials: 2,
    };
    let mut b = CircuitBreaker::new(config);
    assert!(b.is_closed());
    b.record_failure(10);
    b.record_failure(20);
    assert!(b.is_closed());
    b.record_failure(30);
    assert!(!b.is_closed());
    assert_eq!(b.state, BreakerState::Open { since_ms: 30 });
}

#[test]
fn breaker_goes_half_open_after_the_open_duration_and_closes_on_trials() {
    let config = CircuitBreakerConfig {
        failure_threshold: 1,
        open_duration_ms: 1000,
        half_open_trials: 2,
    };
    let mut b = CircuitBreaker::new(config);
    b.record_failure(0);
    assert!(!b.allow_request(500));
    assert!(b.allow_request(1000));
    assert_eq!(b.state, BreakerState::HalfOpen { successes: 0 });
    b.record_success();
    b.record_success();
    assert!(b.is_closed());
}

#[test]
fn success_resets_the_failure_count() {
    let config = CircuitBreakerConfig::default();
    let mut b = CircuitBreaker::new(config);
    b.record_failure(1);
    b.record_success();
    assert_eq!(b.state, BreakerState::Closed { failures: 0 });
}

#[test]
fn checksum_matches_the_published_digest() {
    // SHA-256 of "abc", as every published test vector gives it.
    let text = "BA7816BF8F01CFEA414140DE5DAE2223B00361A396177A9CB410FF61F20015AD  abc.tar.gz\n";
    assert!(checksum_matches(text, b"abc"));
    assert!(!checksum_matches(text, b"abd"));
    assert!(!checksum_matches("", b"abc"));
}

#[test]
fn grpc_refuses_events_its_transport_cannot_carry() {
    match build_grpc_request(AgentEvent::Configure) {
        Err(AgentProtocolError::Serialization(..)) => {}
        _ => panic!("configure events must fail fast on the gRPC transport"),
    }
    match build_grpc_request(AgentEvent::GuardrailInspect) {
        Err(AgentProtocolError::Serialization(..)) => {}
        _ => panic!("guardrail events must fail fast on the gRPC transport"),
    }
}

#[test]
fn grpc_response_without_a_decision_defaults_to_allow() {
    let resp = GrpcAgentResponse {
        version: 2,
        decision: None,
        request_headers: vec![],
        response_headers: vec![],
        routing_metadata: vec![],
        audit: None,
        needs_more: false,
        request_body_mutation: Some(GrpcBodyMutation {
            data: Some(b"plain text".to_vec()),
            chunk_index: 1,
        }),
        response_body_mutation: None,
        websocket_decision: None,
    };
    let a = convert_grpc_response(resp).unwrap();
    assert_eq!(a.decision, Decision::Allow);
    let m = a.request_body_mutation.unwrap();
    assert_eq!(m.chunk_index, 1);
    // The mutation's bytes survive the conversion and its application
    // exactly: the text form is base64, and applying it decodes it.
    let applied = zentinel_agents::manager::apply_body_mutation(&m, 1, b"old").unwrap();
    assert_eq!(applied, b"plain text".to_vec());
}

#[test]
fn grpc_block_keeps_status_and_body() {
    let resp = GrpcAgentResponse {
        version: 2,
        decision: Some(GrpcDecision::Block {
            status: 403,
            body: Some("no".to_string()),
            headers: vec![],
        }),
        request_headers: vec![],
        response_headers: vec![],
        routing_metadata: vec![],
        audit: None,
        needs_more: false,
        request_body_mutation: None,
        response_body_mutation: None,
        websocket_decision: None,
    };
    let a = convert_grpc_response(resp).unwrap();
    match a.decision {
        Decision::Block { status, body, headers } => {
            assert_eq!(status, 403);
            assert_eq!(body.as_deref(), Some("no"));
            assert!(headers.is_none());
        }
        _ => panic!("the block must survive the conversion"),
    }
}
