use zentinel_agents::codec::{MessageType, UdsEncoding, encode_frame, decode_frame,
    negotiate_encoding, negotiate_encoding_with, check_response_version};
use zentinel_agents::error::AgentProtocolError;
use zentinel_agents::protocol::{BinaryRequestBodyChunkEvent, RequestBodyChunkEvent};
use zentinel_agents::MAX_MESSAGE_SIZE;

#[test]
fn test_negotiate_encoding_json() {
    let encodings = vec![UdsEncoding::Json];
    assert_eq!(negotiate_encoding(&encodings), UdsEncoding::Json);
}

#[test]
fn test_negotiate_encoding_empty() {
    let encodings: Vec<UdsEncoding> = vec![];
    assert_eq!(negotiate_encoding(&encodings), UdsEncoding::Json);
}

#[test]
fn binary_capable_server_honors_preference_order() {
    let encodings = vec![UdsEncoding::MessagePack, UdsEncoding::Json];
    assert_eq!(negotiate_encoding_with(&encodings, true), UdsEncoding::MessagePack);
    assert_eq!(negotiate_encoding_with(&encodings, false), UdsEncoding::Json);
}

#[test]
fn frame_round_trips_exactly() {
    let payload: Vec<u8> = vec![1, 2, 3, 250, 255, 0, 42];
    let encoded = encode_frame(MessageType::AgentResponse, &payload).unwrap();
    assert_eq!(encoded.len(), 5 + payload.len());
    assert_eq!(encoded[0], 4);
    let (t, p) = decode_frame(&encoded).unwrap();
    assert_eq!(t, MessageType::AgentResponse);
    assert_eq!(p, payload);
}

#[test]
fn frame_of_exactly_the_limit_is_accepted_one_more_is_rejected() {
    let at_limit: Vec<u8> = vec![7u8; MAX_MESSAGE_SIZE];
    let encoded = encode_frame(MessageType::Ping, &at_limit).unwrap();
    assert_eq!(encoded.len(), 5 + MAX_MESSAGE_SIZE);
    let (t, p) = decode_frame(&encoded).unwrap();
    assert_eq!(t, MessageType::Ping);
    assert_eq!(p.len(), MAX_MESSAGE_SIZE);

    let over: Vec<u8> = vec![7u8; MAX_MESSAGE_SIZE + 1];
    match encode_frame(MessageType::Ping, &over) {
        Err(AgentProtocolError::MessageTooLarge { size, max }) => {
            assert_eq!(size, MAX_MESSAGE_SIZE + 1);
            assert_eq!(max, MAX_MESSAGE_SIZE);
        }
        _ => panic!("an oversized payload must be rejected as too large"),
    }
}

#[test]
fn short_or_mismatched_frames_are_invalid() {
    assert!(decode_frame(&vec![1, 0, 0]).is_err());
    // Type byte 99 is undefined.
    assert!(decode_frame(&vec![99, 0, 0, 0, 0]).is_err());
    // Declared length 2, but only 1 payload byte follows.
    assert!(decode_frame(&vec![5, 0, 0, 0, 2, 9]).is_err());
}

#[test]
fn body_chunk_base64_representation_round_trips() {
    let bytes: Vec<u8> = vec![0, 1, 2, 253, 254, 255, 77];
    let binary = BinaryRequestBodyChunkEvent::new("abc-1".to_string(), bytes.clone(), 3, true);
    let encoded = RequestBodyChunkEvent::from_binary(&binary);
    assert_ne!(encoded.data.as_bytes(), bytes.as_slice());
    let back = BinaryRequestBodyChunkEvent::from_encoded(&encoded);
    assert_eq!(back.data, bytes);
    assert_eq!(back.correlation_id, "abc-1");
    assert_eq!(back.chunk_index, 3);
    assert!(back.is_last);
}

#[test]
fn text_that_is_not_base64_falls_back_to_raw_bytes() {
    let encoded = RequestBodyChunkEvent {
        correlation_id: "abc-2".to_string(),
        data: "!!not base64!!".to_string(),
        is_last: false,
        total_size: None,
        chunk_index: 0,
        bytes_received: 14,
    };
    let back = BinaryRequestBodyChunkEvent::from_encoded(&encoded);
    assert_eq!(back.data, b"!!not base64!!".to_vec());
}

#[test]
fn response_version_must_equal_negotiated() {
    assert!(check_response_version(2, 2).is_ok());
    match check_response_version(3, 2) {
        Err(AgentProtocolError::VersionMismatch { expected, actual }) => {
            assert_eq!(expected, 2);
            assert_eq!(actual, 3);
        }
        _ => panic!("a version mismatch must be rejected"),
    }
}

#[test]
fn every_error_kind_has_its_name() {
    let cases: Vec<(AgentProtocolError, &str)> = vec![
        (AgentProtocolError::ConnectionFailed("x".to_string()), "connection_failed"),
        (AgentProtocolError::ConnectionClosed, "connection_closed"),
        (AgentProtocolError::Serialization("x".to_string()), "serialization"),
        (AgentProtocolError::InvalidMessage("x".to_string()), "invalid_message"),
        (AgentProtocolError::VersionMismatch { expected: 2, actual: 3 }, "version_mismatch"),
        (AgentProtocolError::MessageTooLarge { size: 11, max: 10 }, "message_too_large"),
        (AgentProtocolError::WrongConnectionType("x".to_string()), "wrong_connection_type"),
        (AgentProtocolError::Timeout(50), "timeout"),
        (AgentProtocolError::Agent {
            agent: "waf".to_string(),
            message: "x".to_string(),
            event: "request_headers".to_string(),
        }, "agent"),
        (AgentProtocolError::Internal {
            message: "x".to_string(),
            correlation_id: None,
        }, "internal"),
    ];
    for (err, name) in cases {
        assert_eq!(err.kind_name(), name);
    }
}
