use zentinel_agents::codec::{MessageType, UdsEncoding};
use zentinel_agents::demux::{WaiterTable, extract_correlation_tag, inject_correlation_id};
use zentinel_agents::guardrail::JsonVal;
use zentinel_agents::manager::AgentCapabilities;
use zentinel_agents::protocol::{AgentResponse, Decision, EventType, HeaderOp,
    RequestBodyChunkEvent, RequestCompleteEvent, RequestHeadersEvent, ResponseBodyChunkEvent,
    ResponseHeadersEvent, WebSocketFrameEvent};
use zentinel_agents::server::{AgentHandler, ServerSession, ServerStep, UdsAgentServerV2,
    complete_handshake, configure_response, extract_correlation_id, server_step};

struct TestHandler;

impl AgentHandler for TestHandler {
    fn capabilities(&self) -> AgentCapabilities {
        AgentCapabilities::new(
            "test-uds-v2".to_string(),
            "Test UDS V2 Agent".to_string(),
            "1.0.0".to_string(),
        ).with_event(EventType::RequestHeaders)
    }

    fn on_request_headers(&self, event: RequestHeadersEvent) -> AgentResponse {
        AgentResponse::default_allow().add_request_header(HeaderOp::SetHeader {
            name: "x-test-agent".to_string(),
            value: event.metadata.correlation_id.clone(),
        })
    }

    fn on_request_body_chunk(&self, _event: RequestBodyChunkEvent) -> AgentResponse {
        AgentResponse::default_allow()
    }

    fn on_response_headers(&self, _event: ResponseHeadersEvent) -> AgentResponse {
        AgentResponse::default_allow()
    }

    fn on_response_body_chunk(&self, _event: ResponseBodyChunkEvent) -> AgentResponse {
        AgentResponse::default_allow()
    }

    fn on_request_complete(&self, _event: RequestCompleteEvent) -> AgentResponse {
        AgentResponse::default_allow()
    }

    fn on_websocket_frame(&self, _event: WebSocketFrameEvent) -> AgentResponse {
        AgentResponse::websocket_allow()
    }

    fn on_configure(&self, _config: JsonVal) -> bool {
        true
    }
}

#[test]
fn test_create_server() {
    let server = UdsAgentServerV2::new(
        "test".to_string(),
        "/tmp/test-uds-v2.sock".to_string(),
        TestHandler,
    );
    assert_eq!(server.id, "test");
}

#[test]
fn handshake_must_come_first() {
    let (s, step) = server_step(ServerSession::AwaitingHandshake, MessageType::RequestHeaders);
    assert_eq!(s, ServerSession::Closed);
    assert_eq!(step, ServerStep::Rejected);

    let (s, step) = server_step(ServerSession::AwaitingHandshake, MessageType::HandshakeRequest);
    assert_eq!(s, ServerSession::AwaitingHandshake);
    assert_eq!(step, ServerStep::Handshake);
}

#[test]
fn established_session_dispatches_events_and_pongs_pings() {
    let established = ServerSession::Established { encoding: UdsEncoding::Json };
    let (s, step) = server_step(established, MessageType::Ping);
    assert_eq!(s, established);
    assert_eq!(step, ServerStep::Pong);

    let (_, step) = server_step(established, MessageType::RequestBodyChunk);
    assert_eq!(step, ServerStep::Dispatch { kind: EventType::RequestBodyChunk });

    let (_, step) = server_step(established, MessageType::Cancel);
    assert_eq!(step, ServerStep::CancelNoted);
}

#[test]
fn handshake_negotiates_json_and_establishes_on_success() {
    // A client preferring MessagePack over JSON still gets JSON from a
    // server without binary support.
    let prefs = vec![UdsEncoding::MessagePack, UdsEncoding::Json];
    let (session, encoding) = complete_handshake(&prefs, true);
    assert_eq!(encoding, UdsEncoding::Json);
    assert_eq!(session, ServerSession::Established { encoding: UdsEncoding::Json });

    let (session, _) = complete_handshake(&prefs, false);
    assert_eq!(session, ServerSession::Closed);
}

#[test]
fn rejected_configuration_blocks_with_500() {
    let ok = configure_response(true);
    assert_eq!(ok.decision, Decision::Allow);
    let rejected = configure_response(false);
    match rejected.decision {
        Decision::Block { status, body, .. } => {
            assert_eq!(status, 500);
            assert_eq!(body.as_deref(), Some("Configuration rejected"));
        }
        _ => panic!("a rejected configuration must block"),
    }
}

#[test]
fn correlation_id_round_trips_through_the_audit_tag() {
    // Handshake, event, response: the server tags the response with the
    // event's correlation ID and the client reads the same ID back.
    let mut resp = AgentResponse::default_allow();
    inject_correlation_id(&mut resp, "abc-1".to_string());
    assert_eq!(extract_correlation_tag(&resp.audit.custom), Some("abc-1".to_string()));
}

#[test]
fn responses_reach_the_waiter_registered_for_their_id() {
    let mut table = WaiterTable::new();
    assert!(table.register("cid-1".to_string()));
    assert!(table.register("cid-2".to_string()));
    assert!(!table.register("cid-1".to_string()));

    let resp = AgentResponse::block(403, None);
    assert!(table.deliver("cid-2", resp));
    assert!(!table.deliver("cid-3", AgentResponse::default_allow()));

    // The waiter for cid-1 saw nothing; the one for cid-2 got the block.
    assert!(matches!(table.take("cid-1"), Some(None)));
    match table.take("cid-2") {
        Some(Some(r)) => assert!(matches!(r.decision, Decision::Block { status: 403, .. })),
        _ => panic!("the response must sit with the waiter registered for cid-2"),
    }
    assert_eq!(table.len(), 0);
}

#[test]
fn draining_returns_every_outstanding_waiter() {
    let mut table = WaiterTable::new();
    table.register("a".to_string());
    table.register("b".to_string());
    let drained = table.drain();
    assert_eq!(drained.len(), 2);
    assert_eq!(table.len(), 0);
}

#[test]
fn correlation_is_found_in_payload_or_metadata() {
    let payload = br#"{"correlation_id":"top-1","data":""}"#;
    assert_eq!(extract_correlation_id(payload), "top-1");
    let nested = br#"{"metadata":{"correlation_id":"meta-1"},"method":"GET"}"#;
    assert_eq!(extract_correlation_id(nested), "meta-1");
    assert_eq!(extract_correlation_id(b"not json"), "");
}
