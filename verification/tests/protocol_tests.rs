use zentinel_agents::protocol::{AgentResponse, BodyMutation, Decision, WebSocketOpcode};

#[test]
fn test_body_mutation_types() {
    let pass_through = BodyMutation::pass_through(0);
    assert!(pass_through.is_pass_through());
    assert!(!pass_through.is_drop());
    assert_eq!(pass_through.chunk_index, 0);

    let drop = BodyMutation::drop_chunk(1);
    assert!(!drop.is_pass_through());
    assert!(drop.is_drop());
    assert_eq!(drop.chunk_index, 1);

    let replace = BodyMutation::replace(2, "modified content".to_string());
    assert!(!replace.is_pass_through());
    assert!(!replace.is_drop());
    assert_eq!(replace.chunk_index, 2);
    assert_eq!(replace.data, Some("modified content".to_string()));
}

#[test]
fn test_agent_response_streaming() {
    let response = AgentResponse::needs_more_data();
    assert!(response.needs_more);
    assert_eq!(response.decision, Decision::Allow);

    let mutation = BodyMutation::replace(0, "new content".to_string());
    let response = AgentResponse::default_allow().with_request_body_mutation(mutation.clone());
    assert!(!response.needs_more);
    assert!(response.request_body_mutation.is_some());
    assert_eq!(
        response.request_body_mutation.unwrap().data,
        Some("new content".to_string())
    );

    let response = AgentResponse::default_allow().set_needs_more(true);
    assert!(response.needs_more);
}

#[test]
fn every_opcode_survives_its_byte_round_trip() {
    let opcodes = [
        WebSocketOpcode::Continuation,
        WebSocketOpcode::Text,
        WebSocketOpcode::Binary,
        WebSocketOpcode::Close,
        WebSocketOpcode::Ping,
        WebSocketOpcode::Pong,
    ];
    for o in opcodes {
        assert_eq!(WebSocketOpcode::from_u8(o.as_u8()), Some(o));
    }
    assert_eq!(WebSocketOpcode::from_u8(0x3), None);
    assert_eq!(WebSocketOpcode::from_u8(0x7), None);
    assert_eq!(WebSocketOpcode::as_u8(&WebSocketOpcode::Pong), 0xA);
    assert_eq!(WebSocketOpcode::as_str(&WebSocketOpcode::Close), "close");
}

#[test]
fn block_response_carries_status_and_body() {
    let r = AgentResponse::block(403, Some("blocked".to_string()));
    match r.decision {
        Decision::Block { status, body, headers } => {
            assert_eq!(status, 403);
            assert_eq!(body.as_deref(), Some("blocked"));
            assert!(headers.is_none());
        }
        _ => panic!("expected a block decision"),
    }
    assert!(r.request_headers.is_empty());
}
