//! The gRPC transport's message shapes and the conversions between
//! them and the library's own event and response types.  The shapes
//! mirror the protobuf messages field for field; the transport encodes
//! and decodes them outside the library.

use vstd::prelude::*;
use crate::protocol::{AgentResponse, AuditMetadata, BodyMutation, Decision, EventType,
    HeaderOp, RequestBodyChunkEvent, RequestCompleteEvent, RequestHeadersEvent,
    RequestMetadata, ResponseBodyChunkEvent, ResponseHeadersEvent, WebSocketDecision,
    WebSocketFrameEvent};
use crate::error::AgentProtocolError;
use crate::codec::{base64_decode, spec_base64};
use crate::PROTOCOL_VERSION;
use vstd::string::StringExecFns;
use vstd::string::StrSliceExecFns;

verus! {

/// Request metadata as the gRPC transport carries it.
#[derive(Debug)]
pub struct GrpcRequestMetadata {
    pub correlation_id: String,
    pub request_id: String,
    pub client_ip: String,
    pub client_port: u32,
    pub server_name: Option<String>,
    pub protocol: String,
    pub tls_version: Option<String>,
    pub tls_cipher: Option<String>,
    pub route_id: Option<String>,
    pub upstream_id: Option<String>,
    pub timestamp: String,
    pub traceparent: Option<String>,
}

/// One event as the gRPC transport carries it.
#[derive(Debug)]
pub enum GrpcEvent {
    /// Request headers, with header values flattened to pairs
    RequestHeaders {
        metadata: GrpcRequestMetadata,
        method: String,
        uri: String,
        headers: Vec<(String, Vec<String>)>,
    },
    /// Request body chunk, bytes taken from the base64 text's bytes
    RequestBodyChunk {
        correlation_id: String,
        data: Vec<u8>,
        is_last: bool,
        total_size: Option<u64>,
        chunk_index: u32,
        bytes_received: u64,
    },
    /// Response headers
    ResponseHeaders {
        correlation_id: String,
        status: u32,
        headers: Vec<(String, Vec<String>)>,
    },
    /// Response body chunk
    ResponseBodyChunk {
        correlation_id: String,
        data: Vec<u8>,
        is_last: bool,
        total_size: Option<u64>,
        chunk_index: u32,
        bytes_sent: u64,
    },
    /// Terminal statistics
    RequestComplete {
        correlation_id: String,
        status: u32,
        duration_ms: u64,
        request_body_size: u64,
        response_body_size: u64,
        upstream_attempts: u32,
        error: Option<String>,
    },
    /// WebSocket frame, payload decoded to raw bytes
    WebSocketFrame {
        correlation_id: String,
        opcode: String,
        data: Vec<u8>,
        client_to_server: bool,
        frame_index: u64,
        fin: bool,
        route_id: Option<String>,
        client_ip: String,
    },
}

/// One request as the gRPC transport carries it.
#[derive(Debug)]
pub struct GrpcAgentRequest {
    /// Protocol version
    pub version: u32,
    /// The event
    pub event: GrpcEvent,
}

/// Header operation as the gRPC transport carries it: the operation
/// may be absent, and an absent operation is dropped.
#[derive(Debug)]
pub struct GrpcHeaderOp {
    pub operation: Option<HeaderOp>,
}

/// Decision as the gRPC transport carries it.
#[derive(Debug)]
pub enum GrpcDecision {
    Allow,
    Block { status: u32, body: Option<String>, headers: Vec<(String, String)> },
    Redirect { url: String, status: u32 },
    Challenge { challenge_type: String, params: Vec<(String, String)> },
}

/// WebSocket decision as the gRPC transport carries it.
#[derive(Debug)]
pub enum GrpcWebSocketDecision {
    Allow,
    Drop,
    Close { code: u32, reason: String },
}

/// Audit metadata as the gRPC transport carries it.
#[derive(Debug)]
pub struct GrpcAuditMetadata {
    pub tags: Vec<String>,
    pub rule_ids: Vec<String>,
    pub confidence: Option<u32>,
    pub reason_codes: Vec<String>,
    pub custom: Vec<(String, String)>,
}

/// Body mutation as the gRPC transport carries it: raw bytes.
#[derive(Debug)]
pub struct GrpcBodyMutation {
    pub data: Option<Vec<u8>>,
    pub chunk_index: u32,
}

/// One response as the gRPC transport carries it.
#[derive(Debug)]
pub struct GrpcAgentResponse {
    pub version: u32,
    pub decision: Option<GrpcDecision>,
    pub request_headers: Vec<GrpcHeaderOp>,
    pub response_headers: Vec<GrpcHeaderOp>,
    pub routing_metadata: Vec<(String, String)>,
    pub audit: Option<GrpcAuditMetadata>,
    pub needs_more: bool,
    pub request_body_mutation: Option<GrpcBodyMutation>,
    pub response_body_mutation: Option<GrpcBodyMutation>,
    pub websocket_decision: Option<GrpcWebSocketDecision>,
}

/// The events the gRPC transport cannot carry.
pub open spec fn spec_grpc_unsupported(kind: EventType) -> bool {
    kind == EventType::Configure || kind == EventType::GuardrailInspect
}

/// Typed event with its kind, for building transport requests.
#[derive(Debug)]
pub enum AgentEvent {
    /// Configuration; not carried over gRPC
    Configure,
    /// Request headers
    RequestHeaders(RequestHeadersEvent),
    /// Request body chunk
    RequestBodyChunk(RequestBodyChunkEvent),
    /// Response headers
    ResponseHeaders(ResponseHeadersEvent),
    /// Response body chunk
    ResponseBodyChunk(ResponseBodyChunkEvent),
    /// Terminal statistics
    RequestComplete(RequestCompleteEvent),
    /// WebSocket frame
    WebSocketFrame(WebSocketFrameEvent),
    /// Guardrail inspection; not carried over gRPC
    GuardrailInspect,
}

impl AgentEvent {
    /// The kind of this event.
    pub open spec fn spec_kind(&self) -> EventType {
        match self {
            AgentEvent::Configure => EventType::Configure,
            AgentEvent::RequestHeaders(..) => EventType::RequestHeaders,
            AgentEvent::RequestBodyChunk(..) => EventType::RequestBodyChunk,
            AgentEvent::ResponseHeaders(..) => EventType::ResponseHeaders,
            AgentEvent::ResponseBodyChunk(..) => EventType::ResponseBodyChunk,
            AgentEvent::RequestComplete(..) => EventType::RequestComplete,
            AgentEvent::WebSocketFrame(..) => EventType::WebSocketFrame,
            AgentEvent::GuardrailInspect => EventType::GuardrailInspect,
        }
    }
}

/// Convert metadata for the gRPC transport.
pub fn convert_metadata_to_grpc(m: RequestMetadata) -> (r: GrpcRequestMetadata)
    ensures
        r.correlation_id == m.correlation_id,
        r.request_id == m.request_id,
        r.client_ip == m.client_ip,
        r.client_port == m.client_port as u32,
        r.server_name == m.server_name,
        r.protocol == m.protocol,
        r.tls_version == m.tls_version,
        r.tls_cipher == m.tls_cipher,
        r.route_id == m.route_id,
        r.upstream_id == m.upstream_id,
        r.timestamp == m.timestamp,
        r.traceparent == m.traceparent,
{
    GrpcRequestMetadata {
        correlation_id: m.correlation_id,
        request_id: m.request_id,
        client_ip: m.client_ip,
        client_port: m.client_port as u32,
        server_name: m.server_name,
        protocol: m.protocol,
        tls_version: m.tls_version,
        tls_cipher: m.tls_cipher,
        route_id: m.route_id,
        upstream_id: m.upstream_id,
        timestamp: m.timestamp,
        traceparent: m.traceparent,
    }
}

/// Build the gRPC request for one event.
///
/// `Configure` and `GuardrailInspect` are not carried by this
/// transport and fail fast with a serialization error.  Body chunk
/// data travels as the base64 text's own bytes, as the transport
/// frames it; a WebSocket frame's payload is decoded to raw bytes,
/// with an empty payload when the text is not base64.
pub fn build_grpc_request(event: AgentEvent)
    -> (r: Result<GrpcAgentRequest, AgentProtocolError>)
    ensures
        r is Err <==> spec_grpc_unsupported(event.spec_kind()),
        match event {
            AgentEvent::Configure => r matches Err(e) && e is Serialization,
            AgentEvent::GuardrailInspect => r matches Err(e) && e is Serialization,
            AgentEvent::RequestHeaders(e) => r matches Ok(q) && q.version == PROTOCOL_VERSION
                && (q.event matches GrpcEvent::RequestHeaders {
                        metadata, method, uri, headers }
                    && metadata.correlation_id == e.metadata.correlation_id
                    && metadata.client_port == e.metadata.client_port as u32
                    && method == e.method
                    && uri == e.uri
                    && headers@.map_values(|p: (String, Vec<String>)| (p.0@, p.1@))
                        == e.headers@),
            AgentEvent::RequestBodyChunk(e) => r matches Ok(q) && q.version == PROTOCOL_VERSION
                && (q.event matches GrpcEvent::RequestBodyChunk {
                        correlation_id, data, is_last, total_size, chunk_index, bytes_received }
                    && correlation_id == e.correlation_id
                    && data@ == vstd::utf8::encode_utf8(e.data@)
                    && is_last == e.is_last
                    && total_size == (match e.total_size {
                        Some(s) => Some(s as u64),
                        None => None::<u64>,
                    })
                    && chunk_index == e.chunk_index
                    && bytes_received == e.bytes_received as u64),
            AgentEvent::ResponseHeaders(e) => r matches Ok(q) && q.version == PROTOCOL_VERSION
                && (q.event matches GrpcEvent::ResponseHeaders {
                        correlation_id, status, headers }
                    && correlation_id == e.correlation_id
                    && status == e.status as u32
                    && headers@.map_values(|p: (String, Vec<String>)| (p.0@, p.1@))
                        == e.headers@),
            AgentEvent::ResponseBodyChunk(e) => r matches Ok(q) && q.version == PROTOCOL_VERSION
                && (q.event matches GrpcEvent::ResponseBodyChunk {
                        correlation_id, data, is_last, total_size, chunk_index, bytes_sent }
                    && correlation_id == e.correlation_id
                    && data@ == vstd::utf8::encode_utf8(e.data@)
                    && is_last == e.is_last
                    && total_size == (match e.total_size {
                        Some(s) => Some(s as u64),
                        None => None::<u64>,
                    })
                    && chunk_index == e.chunk_index
                    && bytes_sent == e.bytes_sent as u64),
            AgentEvent::RequestComplete(e) => r matches Ok(q) && q.version == PROTOCOL_VERSION
                && (q.event matches GrpcEvent::RequestComplete {
                        correlation_id, status, duration_ms, request_body_size,
                        response_body_size, upstream_attempts, error }
                    && correlation_id == e.correlation_id
                    && status == e.status as u32
                    && duration_ms == e.duration_ms
                    && request_body_size == e.request_body_size as u64
                    && response_body_size == e.response_body_size as u64
                    && upstream_attempts == e.upstream_attempts
                    && error == e.error),
            AgentEvent::WebSocketFrame(e) => r matches Ok(q) && q.version == PROTOCOL_VERSION
                && (q.event matches GrpcEvent::WebSocketFrame {
                        correlation_id, opcode, data, client_to_server, frame_index, fin,
                        route_id, client_ip }
                    && correlation_id == e.correlation_id
                    && opcode == e.opcode
                    && (forall|b: Seq<u8>| e.data@ == #[trigger] spec_base64(b) ==> data@ == b)
                    && client_to_server == e.client_to_server
                    && frame_index == e.frame_index
                    && fin == e.fin
                    && route_id == e.route_id
                    && client_ip == e.client_ip),
        },
{
    match event {
        AgentEvent::Configure => Err(AgentProtocolError::Serialization(
            String::from_str("Configure events are not supported via gRPC"))),
        AgentEvent::GuardrailInspect => Err(AgentProtocolError::Serialization(
            String::from_str("GuardrailInspect events are not yet supported via gRPC"))),
        AgentEvent::RequestHeaders(e) => {
            let RequestHeadersEvent { metadata, method, uri, headers } = e;
            let mut pairs: Vec<(String, Vec<String>)> = Vec::new();
            let hp = headers.pairs();
            let n = hp.len();
            let mut i: usize = 0;
            while i < n
                invariant
                    i <= n,
                    n == hp@.len(),
                    pairs@.len() == i,
                    pairs@.map_values(|p: (String, Vec<String>)| (p.0@, p.1@))
                        =~= hp@.map_values(|p: (String, Vec<String>)| (p.0@, p.1@))
                            .subrange(0, i as int),
                decreases n - i,
            {
                pairs.push((hp[i].0.clone(), crate::headers::clone_string_vec(&hp[i].1)));
                proof {
                    assert(pairs@.len() == i + 1);
                    assert(pairs@[i as int].0@ == hp@[i as int].0@);
                    assert(pairs@[i as int].1@ == hp@[i as int].1@);
                    assert(pairs@.map_values(|p: (String, Vec<String>)| (p.0@, p.1@))
                        =~= hp@.map_values(|p: (String, Vec<String>)| (p.0@, p.1@))
                            .subrange(0, (i + 1) as int));
                }
                i = i + 1;
            }
            proof {
                assert(hp@.map_values(|p: (String, Vec<String>)| (p.0@, p.1@))
                    .subrange(0, n as int)
                    =~= hp@.map_values(|p: (String, Vec<String>)| (p.0@, p.1@)));
            }
            Ok(GrpcAgentRequest {
                version: PROTOCOL_VERSION,
                event: GrpcEvent::RequestHeaders {
                    metadata: convert_metadata_to_grpc(metadata),
                    method,
                    uri,
                    headers: pairs,
                },
            })
        },
        AgentEvent::RequestBodyChunk(e) => Ok(GrpcAgentRequest {
            version: PROTOCOL_VERSION,
            event: GrpcEvent::RequestBodyChunk {
                data: e.data.as_str().as_bytes_vec(),
                correlation_id: e.correlation_id,
                is_last: e.is_last,
                total_size: match e.total_size {
                    Some(s) => Some(s as u64),
                    None => None,
                },
                chunk_index: e.chunk_index,
                bytes_received: e.bytes_received as u64,
            },
        }),
        AgentEvent::ResponseHeaders(e) => {
            let ResponseHeadersEvent { correlation_id, status, headers } = e;
            let mut pairs: Vec<(String, Vec<String>)> = Vec::new();
            let hp = headers.pairs();
            let n = hp.len();
            let mut i: usize = 0;
            while i < n
                invariant
                    i <= n,
                    n == hp@.len(),
                    pairs@.len() == i,
                    pairs@.map_values(|p: (String, Vec<String>)| (p.0@, p.1@))
                        =~= hp@.map_values(|p: (String, Vec<String>)| (p.0@, p.1@))
                            .subrange(0, i as int),
                decreases n - i,
            {
                pairs.push((hp[i].0.clone(), crate::headers::clone_string_vec(&hp[i].1)));
                proof {
                    assert(pairs@.len() == i + 1);
                    assert(pairs@[i as int].0@ == hp@[i as int].0@);
                    assert(pairs@[i as int].1@ == hp@[i as int].1@);
                    assert(pairs@.map_values(|p: (String, Vec<String>)| (p.0@, p.1@))
                        =~= hp@.map_values(|p: (String, Vec<String>)| (p.0@, p.1@))
                            .subrange(0, (i + 1) as int));
                }
                i = i + 1;
            }
            proof {
                assert(hp@.map_values(|p: (String, Vec<String>)| (p.0@, p.1@))
                    .subrange(0, n as int)
                    =~= hp@.map_values(|p: (String, Vec<String>)| (p.0@, p.1@)));
            }
            Ok(GrpcAgentRequest {
                version: PROTOCOL_VERSION,
                event: GrpcEvent::ResponseHeaders {
                    correlation_id,
                    status: status as u32,
                    headers: pairs,
                },
            })
        },
        AgentEvent::ResponseBodyChunk(e) => Ok(GrpcAgentRequest {
            version: PROTOCOL_VERSION,
            event: GrpcEvent::ResponseBodyChunk {
                data: e.data.as_str().as_bytes_vec(),
                correlation_id: e.correlation_id,
                is_last: e.is_last,
                total_size: match e.total_size {
                    Some(s) => Some(s as u64),
                    None => None,
                },
                chunk_index: e.chunk_index,
                bytes_sent: e.bytes_sent as u64,
            },
        }),
        AgentEvent::RequestComplete(e) => Ok(GrpcAgentRequest {
            version: PROTOCOL_VERSION,
            event: GrpcEvent::RequestComplete {
                correlation_id: e.correlation_id,
                status: e.status as u32,
                duration_ms: e.duration_ms,
                request_body_size: e.request_body_size as u64,
                response_body_size: e.response_body_size as u64,
                upstream_attempts: e.upstream_attempts,
                error: e.error,
            },
        }),
        AgentEvent::WebSocketFrame(e) => {
            let data = match base64_decode(e.data.as_str()) {
                Some(v) => v,
                None => Vec::new(),
            };
            Ok(GrpcAgentRequest {
                version: PROTOCOL_VERSION,
                event: GrpcEvent::WebSocketFrame {
                    correlation_id: e.correlation_id,
                    opcode: e.opcode,
                    data,
                    client_to_server: e.client_to_server,
                    frame_index: e.frame_index,
                    fin: e.fin,
                    route_id: e.route_id,
                    client_ip: e.client_ip,
                },
            })
        },
    }
}

/// The decision a gRPC response stands for: a missing decision is an
/// allow, a block's status is truncated to 16 bits, and a block with
/// no headers carries none.
pub open spec fn spec_decision_from_grpc(d: Option<GrpcDecision>, r: Decision) -> bool {
    match d {
        None => r == Decision::Allow,
        Some(GrpcDecision::Allow) => r == Decision::Allow,
        Some(GrpcDecision::Block { status, body, headers }) => {
            match r {
                Decision::Block { status: s2, body: b2, headers: h2 } => {
                    &&& s2 == status as u16
                    &&& b2 == body
                    &&& if headers.len() == 0 {
                        h2 is None
                    } else {
                        h2 matches Some(h) && h@ == headers@
                    }
                },
                _ => false,
            }
        },
        Some(GrpcDecision::Redirect { url, status }) => r == (Decision::Redirect {
            url, status: status as u16 }),
        Some(GrpcDecision::Challenge { challenge_type, params }) => {
            match r {
                Decision::Challenge { challenge_type: c2, params: p2 } =>
                    c2 == challenge_type && p2@ == params@,
                _ => false,
            }
        },
    }
}

/// The header operations kept from a gRPC list: those whose
/// operation is present, in order.
pub open spec fn spec_ops_from_grpc(s: Seq<GrpcHeaderOp>) -> Seq<HeaderOp>
    decreases s.len(),
{
    if s.len() == 0 {
        Seq::empty()
    } else {
        spec_ops_from_grpc(s.drop_last()) + (match s.last().operation {
            Some(op) => seq![op],
            None => Seq::empty(),
        })
    }
}

/// Keep the present header operations, in order.
pub fn convert_header_ops_from_grpc(ops: &mut Vec<GrpcHeaderOp>) -> (r: Vec<HeaderOp>)
    ensures
        r@ == spec_ops_from_grpc(old(ops)@),
{
    let ghost s = old(ops)@;
    let mut out: Vec<HeaderOp> = Vec::new();
    let ghost mut i: int = 0;
    while ops.len() > 0
        invariant
            s == old(ops)@,
            0 <= i,
            i + ops@.len() == s.len(),
            ops@ == s.subrange(i, s.len() as int),
            out@ == spec_ops_from_grpc(s.subrange(0, i)),
        decreases ops@.len(),
    {
        proof {
            assert(ops@[0] == s[i]);
            assert(s.subrange(0, i + 1).drop_last() =~= s.subrange(0, i));
            assert(s.subrange(0, i + 1).last() == s[i]);
        }
        let op = ops.remove(0);
        proof {
            assert(ops@ =~= s.subrange(i + 1, s.len() as int));
        }
        match op.operation {
            Some(o) => {
                out.push(o);
            },
            None => {},
        }
        proof {
            i = i + 1;
        }
    }
    proof {
        assert(s.subrange(0, i) =~= s);
    }
    out
}

/// Convert a gRPC response into the library's response type.
///
/// A response without a decision defaults to `Allow`; absent audit
/// metadata becomes empty audit metadata; body mutation bytes take
/// their base64 representation, the mutation's form on the JSON
/// transport, so that applying the mutation forwards exactly these
/// bytes; close codes and statuses are truncated to 16 bits as the
/// narrower fields require.
pub fn convert_grpc_response(resp: GrpcAgentResponse)
    -> (r: Result<AgentResponse, AgentProtocolError>)
    ensures
        r matches Ok(a) && {
            &&& a.version == resp.version
            &&& spec_decision_from_grpc(resp.decision, a.decision)
            &&& a.request_headers@ == spec_ops_from_grpc(resp.request_headers@)
            &&& a.response_headers@ == spec_ops_from_grpc(resp.response_headers@)
            &&& a.routing_metadata == resp.routing_metadata
            &&& match resp.audit {
                Some(ga) => a.audit.tags == ga.tags && a.audit.rule_ids == ga.rule_ids
                    && a.audit.confidence == ga.confidence
                    && a.audit.reason_codes == ga.reason_codes
                    && a.audit.custom == ga.custom,
                None => a.audit.tags@.len() == 0 && a.audit.rule_ids@.len() == 0
                    && a.audit.confidence is None && a.audit.reason_codes@.len() == 0
                    && a.audit.custom@.len() == 0,
            }
            &&& a.needs_more == resp.needs_more
            &&& match resp.request_body_mutation {
                Some(m) => a.request_body_mutation matches Some(m2)
                    && m2.chunk_index == m.chunk_index
                    && (match m.data {
                        Some(d) => m2.data matches Some(t) && t@ == spec_base64(d@),
                        None => m2.data is None,
                    }),
                None => a.request_body_mutation is None,
            }
            &&& match resp.response_body_mutation {
                Some(m) => a.response_body_mutation matches Some(m2)
                    && m2.chunk_index == m.chunk_index
                    && (match m.data {
                        Some(d) => m2.data matches Some(t) && t@ == spec_base64(d@),
                        None => m2.data is None,
                    }),
                None => a.response_body_mutation is None,
            }
            &&& match resp.websocket_decision {
                Some(GrpcWebSocketDecision::Allow) =>
                    a.websocket_decision == Some(WebSocketDecision::Allow),
                Some(GrpcWebSocketDecision::Drop) =>
                    a.websocket_decision == Some(WebSocketDecision::Drop),
                Some(GrpcWebSocketDecision::Close { code, reason }) =>
                    a.websocket_decision == Some(WebSocketDecision::Close {
                        code: code as u16, reason }),
                None => a.websocket_decision is None,
            }
        },
{
    let GrpcAgentResponse {
        version,
        decision,
        request_headers: mut request_headers,
        response_headers: mut response_headers,
        routing_metadata,
        audit,
        needs_more,
        request_body_mutation,
        response_body_mutation,
        websocket_decision,
    } = resp;
    let decision2: Decision = match decision {
        None => Decision::Allow,
        Some(GrpcDecision::Allow) => Decision::Allow,
        Some(GrpcDecision::Block { status, body, headers }) => Decision::Block {
            status: status as u16,
            body,
            headers: if headers.len() == 0 { None } else { Some(headers) },
        },
        Some(GrpcDecision::Redirect { url, status }) => Decision::Redirect {
            url,
            status: status as u16,
        },
        Some(GrpcDecision::Challenge { challenge_type, params }) => Decision::Challenge {
            challenge_type,
            params,
        },
    };
    let audit2: AuditMetadata = match audit {
        Some(ga) => AuditMetadata {
            tags: ga.tags,
            rule_ids: ga.rule_ids,
            confidence: ga.confidence,
            reason_codes: ga.reason_codes,
            custom: ga.custom,
        },
        None => AuditMetadata::default(),
    };
    let req_mut: Option<BodyMutation> = match request_body_mutation {
        Some(m) => Some(BodyMutation {
            data: match m.data {
                Some(d) => Some(crate::codec::base64_encode(d.as_slice())),
                None => None,
            },
            chunk_index: m.chunk_index,
        }),
        None => None,
    };
    let resp_mut: Option<BodyMutation> = match response_body_mutation {
        Some(m) => Some(BodyMutation {
            data: match m.data {
                Some(d) => Some(crate::codec::base64_encode(d.as_slice())),
                None => None,
            },
            chunk_index: m.chunk_index,
        }),
        None => None,
    };
    let ws: Option<WebSocketDecision> = match websocket_decision {
        Some(GrpcWebSocketDecision::Allow) => Some(WebSocketDecision::Allow),
        Some(GrpcWebSocketDecision::Drop) => Some(WebSocketDecision::Drop),
        Some(GrpcWebSocketDecision::Close { code, reason }) => Some(WebSocketDecision::Close {
            code: code as u16,
            reason,
        }),
        None => None,
    };
    Ok(AgentResponse {
        version,
        decision: decision2,
        request_headers: convert_header_ops_from_grpc(&mut request_headers),
        response_headers: convert_header_ops_from_grpc(&mut response_headers),
        routing_metadata,
        audit: audit2,
        needs_more,
        request_body_mutation: req_mut,
        response_body_mutation: resp_mut,
        websocket_decision: ws,
    })
}

} // verus!
