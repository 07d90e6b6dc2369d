//! Core protocol types: events, decisions, header operations, body
//! mutations, WebSocket frames and guardrail inspection payloads.

use vstd::prelude::*;
use crate::PROTOCOL_VERSION;

verus! {

/// Kind of lifecycle event sent to an agent.
#[derive(Debug, Clone, Copy, PartialEq, Eq, Structural)]
pub enum EventType {
    /// Agent configuration (sent once when an agent connects)
    Configure,
    /// Request headers received
    RequestHeaders,
    /// Request body chunk received
    RequestBodyChunk,
    /// Response headers received
    ResponseHeaders,
    /// Response body chunk received
    ResponseBodyChunk,
    /// Request/response complete (for logging)
    RequestComplete,
    /// WebSocket frame received (after upgrade)
    WebSocketFrame,
    /// Guardrail content inspection
    GuardrailInspect,
}

/// Decision returned by an agent for an event.
#[derive(Debug, Clone, PartialEq, Eq)]
pub enum Decision {
    /// Let the request or response continue
    Allow,
    /// Block with an HTTP status, optional body and optional headers
    Block { status: u16, body: Option<String>, headers: Option<Vec<(String, String)>> },
    /// Redirect the request
    Redirect { url: String, status: u16 },
    /// Challenge the client
    Challenge { challenge_type: String, params: Vec<(String, String)> },
}

impl Default for Decision {
    /// The default decision is `Allow`.
    fn default() -> (d: Decision)
        ensures
            d == Decision::Allow,
    {
        Decision::Allow
    }
}

/// Header modification operation.
#[derive(Debug, Clone, PartialEq, Eq)]
pub enum HeaderOp {
    /// Set a header, replacing all existing values
    SetHeader { name: String, value: String },
    /// Add a header value, appending to existing values
    AddHeader { name: String, value: String },
    /// Remove a header
    RemoveHeader { name: String },
}

/// Body mutation returned by an agent for one streamed chunk.
///
/// `data == None` passes the chunk through unchanged, `Some` of an empty
/// string drops the chunk, and `Some` of a non-empty string replaces it.
#[derive(Debug, Clone, PartialEq, Eq)]
pub struct BodyMutation {
    /// Replacement data (base64 over the JSON transport), or `None`
    pub data: Option<String>,
    /// Chunk index this mutation applies to; must match the event's index
    pub chunk_index: u32,
}

impl BodyMutation {
    /// Mutation that passes the chunk through unchanged.
    pub fn pass_through(chunk_index: u32) -> (m: BodyMutation)
        ensures
            m.data is None,
            m.chunk_index == chunk_index,
    {
        BodyMutation { data: None, chunk_index }
    }

    /// Mutation that drops the chunk entirely.
    pub fn drop_chunk(chunk_index: u32) -> (m: BodyMutation)
        ensures
            m.data matches Some(d) && d@.len() == 0,
            m.chunk_index == chunk_index,
    {
        BodyMutation { data: Some(String::new()), chunk_index }
    }

    /// Mutation that replaces the chunk with `data`.
    pub fn replace(chunk_index: u32, data: String) -> (m: BodyMutation)
        ensures
            m.data == Some(data),
            m.chunk_index == chunk_index,
    {
        BodyMutation { data: Some(data), chunk_index }
    }

    /// True when this mutation leaves the chunk unchanged.
    pub fn is_pass_through(&self) -> (r: bool)
        ensures
            r == (self.data is None),
    {
        self.data.is_none()
    }

    /// True when this mutation drops the chunk.
    pub fn is_drop(&self) -> (r: bool)
        ensures
            r == (self.data matches Some(d) && d@.len() == 0),
    {
        match &self.data {
            Some(d) => d.as_str().is_empty(),
            None => false,
        }
    }
}

/// Request metadata attached to a request-headers event.
#[derive(Debug, Clone)]
pub struct RequestMetadata {
    /// Correlation ID for request tracing
    pub correlation_id: String,
    /// Request ID (internal)
    pub request_id: String,
    /// Client IP address
    pub client_ip: String,
    /// Client port
    pub client_port: u16,
    /// Server name (SNI or Host header)
    pub server_name: Option<String>,
    /// Protocol (HTTP/1.1, HTTP/2, ...)
    pub protocol: String,
    /// TLS version if applicable
    pub tls_version: Option<String>,
    /// TLS cipher suite if applicable
    pub tls_cipher: Option<String>,
    /// Route ID that matched
    pub route_id: Option<String>,
    /// Upstream ID
    pub upstream_id: Option<String>,
    /// Request start timestamp (RFC 3339)
    pub timestamp: String,
    /// W3C trace-context `traceparent` value, if any
    pub traceparent: Option<String>,
}

/// Request headers event.
#[derive(Debug, Clone)]
pub struct RequestHeadersEvent {
    /// Event metadata
    pub metadata: RequestMetadata,
    /// HTTP method
    pub method: String,
    /// Request URI
    pub uri: String,
    /// HTTP headers
    pub headers: crate::headers::HeaderMap,
}

/// Request body chunk event (base64 data for the JSON transport).
#[derive(Debug, Clone)]
pub struct RequestBodyChunkEvent {
    /// Correlation ID
    pub correlation_id: String,
    /// Body chunk data, base64-encoded
    pub data: String,
    /// True on the final chunk
    pub is_last: bool,
    /// Total body size if known
    pub total_size: Option<usize>,
    /// 0-based chunk index, used to match mutations to chunks
    pub chunk_index: u32,
    /// Bytes received so far (cumulative)
    pub bytes_received: usize,
}

/// Response headers event.
#[derive(Debug, Clone)]
pub struct ResponseHeadersEvent {
    /// Correlation ID
    pub correlation_id: String,
    /// HTTP status code
    pub status: u16,
    /// HTTP headers
    pub headers: crate::headers::HeaderMap,
}

/// Response body chunk event (base64 data for the JSON transport).
#[derive(Debug, Clone)]
pub struct ResponseBodyChunkEvent {
    /// Correlation ID
    pub correlation_id: String,
    /// Body chunk data, base64-encoded
    pub data: String,
    /// True on the final chunk
    pub is_last: bool,
    /// Total body size if known
    pub total_size: Option<usize>,
    /// 0-based chunk index
    pub chunk_index: u32,
    /// Bytes sent so far (cumulative)
    pub bytes_sent: usize,
}

/// Request body chunk carrying raw bytes, for binary transports.
#[derive(Debug, Clone)]
pub struct BinaryRequestBodyChunkEvent {
    /// Correlation ID
    pub correlation_id: String,
    /// Body chunk data, raw bytes
    pub data: Vec<u8>,
    /// True on the final chunk
    pub is_last: bool,
    /// Total body size if known
    pub total_size: Option<usize>,
    /// 0-based chunk index
    pub chunk_index: u32,
    /// Bytes received so far (cumulative)
    pub bytes_received: usize,
}

/// Response body chunk carrying raw bytes, for binary transports.
#[derive(Debug, Clone)]
pub struct BinaryResponseBodyChunkEvent {
    /// Correlation ID
    pub correlation_id: String,
    /// Body chunk data, raw bytes
    pub data: Vec<u8>,
    /// True on the final chunk
    pub is_last: bool,
    /// Total body size if known
    pub total_size: Option<usize>,
    /// 0-based chunk index
    pub chunk_index: u32,
    /// Bytes sent so far (cumulative)
    pub bytes_sent: usize,
}

impl BinaryRequestBodyChunkEvent {
    /// Build a binary request chunk; `bytes_received` starts at the chunk length.
    pub fn new(correlation_id: String, data: Vec<u8>, chunk_index: u32, is_last: bool)
        -> (e: BinaryRequestBodyChunkEvent)
        ensures
            e.correlation_id == correlation_id,
            e.data == data,
            e.is_last == is_last,
            e.total_size is None,
            e.chunk_index == chunk_index,
            e.bytes_received == data@.len(),
    {
        let bytes_received = data.len();
        BinaryRequestBodyChunkEvent {
            correlation_id,
            data,
            is_last,
            total_size: None,
            chunk_index,
            bytes_received,
        }
    }

    /// Set the total body size.
    pub fn with_total_size(self, size: usize) -> (e: BinaryRequestBodyChunkEvent)
        ensures
            e == (BinaryRequestBodyChunkEvent { total_size: Some(size), ..self }),
    {
        BinaryRequestBodyChunkEvent { total_size: Some(size), ..self }
    }

    /// Set cumulative bytes received.
    pub fn with_bytes_received(self, bytes: usize) -> (e: BinaryRequestBodyChunkEvent)
        ensures
            e == (BinaryRequestBodyChunkEvent { bytes_received: bytes, ..self }),
    {
        BinaryRequestBodyChunkEvent { bytes_received: bytes, ..self }
    }
}

impl BinaryResponseBodyChunkEvent {
    /// Build a binary response chunk; `bytes_sent` starts at the chunk length.
    pub fn new(correlation_id: String, data: Vec<u8>, chunk_index: u32, is_last: bool)
        -> (e: BinaryResponseBodyChunkEvent)
        ensures
            e.correlation_id == correlation_id,
            e.data == data,
            e.is_last == is_last,
            e.total_size is None,
            e.chunk_index == chunk_index,
            e.bytes_sent == data@.len(),
    {
        let bytes_sent = data.len();
        BinaryResponseBodyChunkEvent {
            correlation_id,
            data,
            is_last,
            total_size: None,
            chunk_index,
            bytes_sent,
        }
    }

    /// Set the total body size.
    pub fn with_total_size(self, size: usize) -> (e: BinaryResponseBodyChunkEvent)
        ensures
            e == (BinaryResponseBodyChunkEvent { total_size: Some(size), ..self }),
    {
        BinaryResponseBodyChunkEvent { total_size: Some(size), ..self }
    }

    /// Set cumulative bytes sent.
    pub fn with_bytes_sent(self, bytes: usize) -> (e: BinaryResponseBodyChunkEvent)
        ensures
            e == (BinaryResponseBodyChunkEvent { bytes_sent: bytes, ..self }),
    {
        BinaryResponseBodyChunkEvent { bytes_sent: bytes, ..self }
    }
}

/// Terminal request statistics event.
#[derive(Debug, Clone)]
pub struct RequestCompleteEvent {
    /// Correlation ID
    pub correlation_id: String,
    /// Final HTTP status code
    pub status: u16,
    /// Request duration in milliseconds
    pub duration_ms: u64,
    /// Request body size
    pub request_body_size: usize,
    /// Response body size
    pub response_body_size: usize,
    /// Upstream attempts
    pub upstream_attempts: u32,
    /// Error if any
    pub error: Option<String>,
}

/// WebSocket frame event, one per inspected frame.
#[derive(Debug, Clone)]
pub struct WebSocketFrameEvent {
    /// Correlation ID of the upgraded request
    pub correlation_id: String,
    /// Frame opcode name: "text", "binary", "ping", "pong", "close", "continuation"
    pub opcode: String,
    /// Frame payload, base64-encoded over the JSON transport
    pub data: String,
    /// Direction: true = client to server
    pub client_to_server: bool,
    /// 0-based frame index for this connection, per direction
    pub frame_index: u64,
    /// FIN bit: true on the final frame of a message
    pub fin: bool,
    /// Route ID
    pub route_id: Option<String>,
    /// Client IP
    pub client_ip: String,
}

/// WebSocket opcode with its fixed RFC 6455 byte value.
#[derive(Debug, Clone, Copy, PartialEq, Eq, Structural)]
pub enum WebSocketOpcode {
    /// Continuation frame (0x0)
    Continuation,
    /// Text frame (0x1)
    Text,
    /// Binary frame (0x2)
    Binary,
    /// Connection close (0x8)
    Close,
    /// Ping (0x9)
    Ping,
    /// Pong (0xA)
    Pong,
}

impl WebSocketOpcode {
    /// The name of this opcode as a sequence of characters.
    pub open spec fn spec_name(self) -> Seq<char> {
        match self {
            WebSocketOpcode::Continuation => "continuation"@,
            WebSocketOpcode::Text => "text"@,
            WebSocketOpcode::Binary => "binary"@,
            WebSocketOpcode::Close => "close"@,
            WebSocketOpcode::Ping => "ping"@,
            WebSocketOpcode::Pong => "pong"@,
        }
    }

    /// The fixed byte value of this opcode.
    pub open spec fn spec_value(self) -> u8 {
        match self {
            WebSocketOpcode::Continuation => 0x0,
            WebSocketOpcode::Text => 0x1,
            WebSocketOpcode::Binary => 0x2,
            WebSocketOpcode::Close => 0x8,
            WebSocketOpcode::Ping => 0x9,
            WebSocketOpcode::Pong => 0xA,
        }
    }

    /// String name of the opcode.
    pub fn as_str(&self) -> (r: &'static str)
        ensures
            r@ == self.spec_name(),
    {
        match self {
            WebSocketOpcode::Continuation => "continuation",
            WebSocketOpcode::Text => "text",
            WebSocketOpcode::Binary => "binary",
            WebSocketOpcode::Close => "close",
            WebSocketOpcode::Ping => "ping",
            WebSocketOpcode::Pong => "pong",
        }
    }

    /// The opcode a byte value stands for, if any.
    pub open spec fn spec_from_u8(value: u8) -> Option<WebSocketOpcode> {
        if value == 0x0 { Some(WebSocketOpcode::Continuation) }
        else if value == 0x1 { Some(WebSocketOpcode::Text) }
        else if value == 0x2 { Some(WebSocketOpcode::Binary) }
        else if value == 0x8 { Some(WebSocketOpcode::Close) }
        else if value == 0x9 { Some(WebSocketOpcode::Ping) }
        else if value == 0xA { Some(WebSocketOpcode::Pong) }
        else { None }
    }

    /// Parse an opcode from its byte value; `None` for undefined values.
    pub fn from_u8(value: u8) -> (r: Option<WebSocketOpcode>)
        ensures
            r == WebSocketOpcode::spec_from_u8(value),
    {
        match value {
            0x0 => Some(WebSocketOpcode::Continuation),
            0x1 => Some(WebSocketOpcode::Text),
            0x2 => Some(WebSocketOpcode::Binary),
            0x8 => Some(WebSocketOpcode::Close),
            0x9 => Some(WebSocketOpcode::Ping),
            0xA => Some(WebSocketOpcode::Pong),
            _ => None,
        }
    }

    /// Byte value of the opcode.
    pub fn as_u8(&self) -> (r: u8)
        ensures
            r == self.spec_value(),
    {
        match self {
            WebSocketOpcode::Continuation => 0x0,
            WebSocketOpcode::Text => 0x1,
            WebSocketOpcode::Binary => 0x2,
            WebSocketOpcode::Close => 0x8,
            WebSocketOpcode::Ping => 0x9,
            WebSocketOpcode::Pong => 0xA,
        }
    }
}

/// Round trip: every defined opcode parses back from its own byte
/// value, so `from_u8` of `as_u8` gives the opcode itself.
pub proof fn lemma_opcode_round_trip(o: WebSocketOpcode)
    ensures
        WebSocketOpcode::spec_from_u8(o.spec_value()) == Some(o),
{
}

/// Decision for a single WebSocket frame.
#[derive(Debug, Clone, PartialEq, Eq)]
pub enum WebSocketDecision {
    /// Forward the frame
    Allow,
    /// Silently discard the frame, do not forward it
    Drop,
    /// Close the WebSocket connection
    Close { code: u16, reason: String },
}

impl Default for WebSocketDecision {
    /// The default WebSocket decision is `Allow`.
    fn default() -> (d: WebSocketDecision)
        ensures
            d == WebSocketDecision::Allow,
    {
        WebSocketDecision::Allow
    }
}

/// Audit metadata attached to an agent response.
///
/// `confidence` is a score in millionths: `0 ..= 1_000_000` stands for
/// the closed interval from zero to one.
#[derive(Debug, Clone)]
pub struct AuditMetadata {
    /// Tags for logging and metrics
    pub tags: Vec<String>,
    /// Rule IDs that matched
    pub rule_ids: Vec<String>,
    /// Confidence score in millionths, if given
    pub confidence: Option<u32>,
    /// Reason codes
    pub reason_codes: Vec<String>,
    /// Free-form string metadata
    pub custom: Vec<(String, String)>,
}

impl Default for AuditMetadata {
    /// Empty audit metadata.
    fn default() -> (a: AuditMetadata)
        ensures
            a.tags@.len() == 0,
            a.rule_ids@.len() == 0,
            a.confidence is None,
            a.reason_codes@.len() == 0,
            a.custom@.len() == 0,
    {
        AuditMetadata {
            tags: Vec::new(),
            rule_ids: Vec::new(),
            confidence: None,
            reason_codes: Vec::new(),
            custom: Vec::new(),
        }
    }
}

/// Response from an agent for one event.
#[derive(Debug, Clone)]
pub struct AgentResponse {
    /// Protocol version
    pub version: u32,
    /// Decision
    pub decision: Decision,
    /// Header modifications for the request side
    pub request_headers: Vec<HeaderOp>,
    /// Header modifications for the response side
    pub response_headers: Vec<HeaderOp>,
    /// Routing metadata to merge into the context
    pub routing_metadata: Vec<(String, String)>,
    /// Audit metadata
    pub audit: AuditMetadata,
    /// When true, the decision is provisional and more body chunks are wanted
    pub needs_more: bool,
    /// Request body mutation, valid only for request body chunk events
    pub request_body_mutation: Option<BodyMutation>,
    /// Response body mutation, valid only for response body chunk events
    pub response_body_mutation: Option<BodyMutation>,
    /// WebSocket frame decision; absence means allow
    pub websocket_decision: Option<WebSocketDecision>,
}

/// What a freshly built response looks like apart from its decision:
/// current protocol version, no mutations, nothing else set.
pub open spec fn fresh_response(r: AgentResponse) -> bool {
    &&& r.version == PROTOCOL_VERSION
    &&& r.request_headers@.len() == 0
    &&& r.response_headers@.len() == 0
    &&& r.routing_metadata@.len() == 0
    &&& r.audit.tags@.len() == 0
    &&& r.audit.rule_ids@.len() == 0
    &&& r.audit.confidence is None
    &&& r.audit.reason_codes@.len() == 0
    &&& r.audit.custom@.len() == 0
    &&& r.request_body_mutation is None
    &&& r.response_body_mutation is None
}

impl AgentResponse {
    /// Response that allows the event with nothing else set.
    pub fn default_allow() -> (r: AgentResponse)
        ensures
            fresh_response(r),
            r.decision == Decision::Allow,
            !r.needs_more,
            r.websocket_decision is None,
    {
        AgentResponse {
            version: PROTOCOL_VERSION,
            decision: Decision::Allow,
            request_headers: Vec::new(),
            response_headers: Vec::new(),
            routing_metadata: Vec::new(),
            audit: AuditMetadata::default(),
            needs_more: false,
            request_body_mutation: None,
            response_body_mutation: None,
            websocket_decision: None,
        }
    }

    /// Response that blocks with the given status and optional body.
    pub fn block(status: u16, body: Option<String>) -> (r: AgentResponse)
        ensures
            fresh_response(r),
            r.decision == (Decision::Block { status, body, headers: None }),
            !r.needs_more,
            r.websocket_decision is None,
    {
        let mut r = AgentResponse::default_allow();
        r.decision = Decision::Block { status, body, headers: None };
        r
    }

    /// Response that redirects to `url` with the given status.
    pub fn redirect(url: String, status: u16) -> (r: AgentResponse)
        ensures
            fresh_response(r),
            r.decision == (Decision::Redirect { url, status }),
            !r.needs_more,
            r.websocket_decision is None,
    {
        let mut r = AgentResponse::default_allow();
        r.decision = Decision::Redirect { url, status };
        r
    }

    /// Provisional allow asking for more body chunks.
    pub fn needs_more_data() -> (r: AgentResponse)
        ensures
            fresh_response(r),
            r.decision == Decision::Allow,
            r.needs_more,
            r.websocket_decision is None,
    {
        let mut r = AgentResponse::default_allow();
        r.needs_more = true;
        r
    }

    /// WebSocket response that lets the frame pass.
    pub fn websocket_allow() -> (r: AgentResponse)
        ensures
            fresh_response(r),
            r.decision == Decision::Allow,
            !r.needs_more,
            r.websocket_decision == Some(WebSocketDecision::Allow),
    {
        let mut r = AgentResponse::default_allow();
        r.websocket_decision = Some(WebSocketDecision::Allow);
        r
    }

    /// WebSocket response that drops the frame without forwarding it.
    pub fn websocket_drop() -> (r: AgentResponse)
        ensures
            fresh_response(r),
            r.decision == Decision::Allow,
            !r.needs_more,
            r.websocket_decision == Some(WebSocketDecision::Drop),
    {
        let mut r = AgentResponse::default_allow();
        r.websocket_decision = Some(WebSocketDecision::Drop);
        r
    }

    /// WebSocket response that closes the connection.
    pub fn websocket_close(code: u16, reason: String) -> (r: AgentResponse)
        ensures
            fresh_response(r),
            r.decision == Decision::Allow,
            !r.needs_more,
            r.websocket_decision == Some(WebSocketDecision::Close { code, reason }),
    {
        let mut r = AgentResponse::default_allow();
        r.websocket_decision = Some(WebSocketDecision::Close { code, reason });
        r
    }

    /// Set the WebSocket decision.
    pub fn with_websocket_decision(self, decision: WebSocketDecision) -> (r: AgentResponse)
        ensures
            r == (AgentResponse { websocket_decision: Some(decision), ..self }),
    {
        AgentResponse { websocket_decision: Some(decision), ..self }
    }

    /// Attach a request body mutation.
    pub fn with_request_body_mutation(self, mutation: BodyMutation) -> (r: AgentResponse)
        ensures
            r == (AgentResponse { request_body_mutation: Some(mutation), ..self }),
    {
        AgentResponse { request_body_mutation: Some(mutation), ..self }
    }

    /// Attach a response body mutation.
    pub fn with_response_body_mutation(self, mutation: BodyMutation) -> (r: AgentResponse)
        ensures
            r == (AgentResponse { response_body_mutation: Some(mutation), ..self }),
    {
        AgentResponse { response_body_mutation: Some(mutation), ..self }
    }

    /// Set the needs-more flag.
    pub fn set_needs_more(self, needs_more: bool) -> (r: AgentResponse)
        ensures
            r == (AgentResponse { needs_more, ..self }),
    {
        AgentResponse { needs_more, ..self }
    }

    /// Append a request header operation.
    pub fn add_request_header(self, op: HeaderOp) -> (r: AgentResponse)
        ensures
            r.request_headers@ == self.request_headers@.push(op),
            r == (AgentResponse { request_headers: r.request_headers, ..self }),
    {
        let mut s = self;
        s.request_headers.push(op);
        s
    }

    /// Append a response header operation.
    pub fn add_response_header(self, op: HeaderOp) -> (r: AgentResponse)
        ensures
            r.response_headers@ == self.response_headers@.push(op),
            r == (AgentResponse { response_headers: r.response_headers, ..self }),
    {
        let mut s = self;
        s.response_headers.push(op);
        s
    }

    /// Replace the audit metadata.
    pub fn with_audit(self, audit: AuditMetadata) -> (r: AgentResponse)
        ensures
            r == (AgentResponse { audit, ..self }),
    {
        AgentResponse { audit, ..self }
    }
}

/// Copy an optional string, value for value.
pub fn dup_opt_string(o: &Option<String>) -> (r: Option<String>)
    ensures
        r == *o,
{
    match o {
        Some(s) => Some(s.clone()),
        None => None,
    }
}

impl RequestMetadata {
    /// Copy, value for value.
    pub fn duplicate(&self) -> (r: RequestMetadata)
        ensures
            r == *self,
    {
        RequestMetadata {
            correlation_id: self.correlation_id.clone(),
            request_id: self.request_id.clone(),
            client_ip: self.client_ip.clone(),
            client_port: self.client_port,
            server_name: dup_opt_string(&self.server_name),
            protocol: self.protocol.clone(),
            tls_version: dup_opt_string(&self.tls_version),
            tls_cipher: dup_opt_string(&self.tls_cipher),
            route_id: dup_opt_string(&self.route_id),
            upstream_id: dup_opt_string(&self.upstream_id),
            timestamp: self.timestamp.clone(),
            traceparent: dup_opt_string(&self.traceparent),
        }
    }
}

/// Kind of guardrail inspection.
#[derive(Debug, Clone, Copy, PartialEq, Eq, Structural)]
pub enum GuardrailInspectionType {
    /// Prompt injection detection on request content
    PromptInjection,
    /// PII detection on response content
    PiiDetection,
}

/// Content inspection event for guardrail agents.
#[derive(Debug, Clone)]
pub struct GuardrailInspectEvent {
    /// Correlation ID
    pub correlation_id: String,
    /// Kind of inspection to perform
    pub inspection_type: GuardrailInspectionType,
    /// Content to inspect
    pub content: String,
    /// Model name if available
    pub model: Option<String>,
    /// PII categories to check, for PII detection
    pub categories: Vec<String>,
    /// Route ID
    pub route_id: Option<String>,
    /// Additional string metadata
    pub metadata: Vec<(String, String)>,
}

/// Severity of a guardrail detection.
#[derive(Debug, Clone, Copy, PartialEq, Eq, Structural)]
pub enum DetectionSeverity {
    /// Informational
    Low,
    /// Default severity
    Medium,
    /// Should likely block
    High,
    /// Must block
    Critical,
}

impl Default for DetectionSeverity {
    /// The default severity is `Medium`.
    fn default() -> (s: DetectionSeverity)
        ensures
            s == DetectionSeverity::Medium,
    {
        DetectionSeverity::Medium
    }
}

/// Byte span locating a detection inside the inspected content.
#[derive(Debug, Clone, PartialEq, Eq, Structural)]
pub struct TextSpan {
    /// Start position (byte offset)
    pub start: usize,
    /// End position (byte offset, exclusive)
    pub end: usize,
}

/// One guardrail detection.
///
/// `confidence` is a score in millionths, as in [`AuditMetadata`].
#[derive(Debug, Clone)]
pub struct GuardrailDetection {
    /// Category, such as a PII kind or "prompt_injection"
    pub category: String,
    /// Human-readable description
    pub description: String,
    /// Severity level
    pub severity: DetectionSeverity,
    /// Confidence in millionths, if given
    pub confidence: Option<u32>,
    /// Location inside the content, if known
    pub span: Option<TextSpan>,
}

impl GuardrailDetection {
    /// New detection with default severity and nothing else set.
    pub fn new(category: String, description: String) -> (d: GuardrailDetection)
        ensures
            d.category == category,
            d.description == description,
            d.severity == DetectionSeverity::Medium,
            d.confidence is None,
            d.span is None,
    {
        GuardrailDetection {
            category,
            description,
            severity: DetectionSeverity::Medium,
            confidence: None,
            span: None,
        }
    }

    /// Set the severity.
    pub fn with_severity(self, severity: DetectionSeverity) -> (d: GuardrailDetection)
        ensures
            d == (GuardrailDetection { severity, ..self }),
    {
        GuardrailDetection { severity, ..self }
    }

    /// Set the confidence, in millionths.
    pub fn with_confidence(self, confidence: u32) -> (d: GuardrailDetection)
        ensures
            d == (GuardrailDetection { confidence: Some(confidence), ..self }),
    {
        GuardrailDetection { confidence: Some(confidence), ..self }
    }

    /// Set the span.
    pub fn with_span(self, start: usize, end: usize) -> (d: GuardrailDetection)
        ensures
            d == (GuardrailDetection { span: Some(TextSpan { start, end }), ..self }),
    {
        GuardrailDetection { span: Some(TextSpan { start, end }), ..self }
    }
}

/// Guardrail inspection response from an agent.
///
/// `confidence` is a score in millionths, the maximum over all detections.
#[derive(Debug, Clone)]
pub struct GuardrailResponse {
    /// True when anything was detected
    pub detected: bool,
    /// Confidence in millionths
    pub confidence: u32,
    /// Detections found
    pub detections: Vec<GuardrailDetection>,
    /// Redacted content, for PII when requested
    pub redacted_content: Option<String>,
}

impl Default for GuardrailResponse {
    /// Response with nothing detected.
    fn default() -> (g: GuardrailResponse)
        ensures
            !g.detected,
            g.confidence == 0,
            g.detections@.len() == 0,
            g.redacted_content is None,
    {
        GuardrailResponse {
            detected: false,
            confidence: 0,
            detections: Vec::new(),
            redacted_content: None,
        }
    }
}

impl GuardrailResponse {
    /// Response that found nothing.
    pub fn clean() -> (g: GuardrailResponse)
        ensures
            !g.detected,
            g.confidence == 0,
            g.detections@.len() == 0,
            g.redacted_content is None,
    {
        GuardrailResponse::default()
    }

    /// Response holding a single detection; a detection without a
    /// confidence counts as full confidence.
    pub fn with_detection(detection: GuardrailDetection) -> (g: GuardrailResponse)
        ensures
            g.detected,
            g.confidence == (match detection.confidence {
                Some(c) => c,
                None => 1000000u32,
            }),
            g.detections@ =~= seq![detection],
            g.redacted_content is None,
    {
        let confidence = match detection.confidence {
            Some(c) => c,
            None => 1000000,
        };
        let mut detections: Vec<GuardrailDetection> = Vec::new();
        detections.push(detection);
        GuardrailResponse { detected: true, confidence, detections, redacted_content: None }
    }

    /// Append a detection, raising the overall confidence to at least its own.
    pub fn add_detection(&mut self, detection: GuardrailDetection)
        ensures
            final(self).detected,
            final(self).confidence == (match detection.confidence {
                Some(c) => if c > old(self).confidence { c } else { old(self).confidence },
                None => old(self).confidence,
            }),
            final(self).detections@ == old(self).detections@.push(detection),
            final(self).redacted_content == old(self).redacted_content,
    {
        self.detected = true;
        if let Some(conf) = detection.confidence {
            if conf > self.confidence {
                self.confidence = conf;
            }
        }
        self.detections.push(detection);
    }
}

} // verus!
