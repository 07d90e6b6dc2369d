//! Server side of the UDS transport: the per-connection session state
//! machine, the handler interface agents implement, and correlation
//! extraction for error paths.  Sockets and serialization stay with
//! the caller, which feeds each framed message through `server_step`.

use vstd::prelude::*;
use crate::codec::{MessageType, UdsEncoding, negotiate_encoding};
use crate::guardrail::{JsonVal, parse_json, json_get, spec_json_get};
use crate::manager::AgentCapabilities;
use crate::protocol::{AgentResponse, EventType, RequestHeadersEvent, RequestBodyChunkEvent,
    ResponseHeadersEvent, ResponseBodyChunkEvent, RequestCompleteEvent, WebSocketFrameEvent};
use vstd::string::StringExecFns;

verus! {

/// What an agent implements to serve events.  The server calls these
/// as the corresponding messages arrive; each returns the agent's
/// response.
pub trait AgentHandler {
    /// The capability set this agent declares at handshake time.
    fn capabilities(&self) -> AgentCapabilities;

    /// Handle request headers.
    fn on_request_headers(&self, event: RequestHeadersEvent) -> AgentResponse;

    /// Handle one request body chunk.
    fn on_request_body_chunk(&self, event: RequestBodyChunkEvent) -> AgentResponse;

    /// Handle response headers.
    fn on_response_headers(&self, event: ResponseHeadersEvent) -> AgentResponse;

    /// Handle one response body chunk.
    fn on_response_body_chunk(&self, event: ResponseBodyChunkEvent) -> AgentResponse;

    /// Handle the terminal statistics event.
    fn on_request_complete(&self, event: RequestCompleteEvent) -> AgentResponse;

    /// Handle one WebSocket frame.
    fn on_websocket_frame(&self, event: WebSocketFrameEvent) -> AgentResponse;

    /// Handle a configure event; true accepts the configuration.
    fn on_configure(&self, config: JsonVal) -> bool;
}

/// State of one server-side connection: the handshake comes first and
/// fixes the payload encoding for everything after it.
#[derive(Debug, Clone, Copy, PartialEq, Eq, Structural)]
pub enum ServerSession {
    /// Nothing received yet; only a handshake request is in order
    AwaitingHandshake,
    /// Handshake done; events flow under the negotiated encoding
    Established { encoding: UdsEncoding },
    /// Handshake rejected; the connection is being closed
    Closed,
}

/// What the connection loop must do with one received message.
#[derive(Debug, Clone, Copy, PartialEq, Eq, Structural)]
pub enum ServerStep {
    /// Parse the payload as a JSON handshake request and answer it
    Handshake,
    /// Echo the payload back as a pong
    Pong,
    /// Note the cancellation; no response is sent
    CancelNoted,
    /// Decode the payload and call the handler for this event kind
    Dispatch { kind: EventType },
    /// Ignore the message
    Ignore,
    /// The message breaks the protocol: handshake must come first
    Rejected,
}

/// Decide what one framed message means in the current session state.
///
/// Before the handshake only a handshake request is accepted; after
/// it, pings are echoed, cancels are noted, each event message is
/// dispatched to the handler under its kind, and anything else is
/// ignored.
pub fn server_step(state: ServerSession, msg: MessageType) -> (r: (ServerSession, ServerStep))
    ensures
        state is AwaitingHandshake ==> (
            if msg == MessageType::HandshakeRequest {
                r == (state, ServerStep::Handshake)
            } else {
                r == (ServerSession::Closed, ServerStep::Rejected)
            }),
        state matches ServerSession::Established { .. } ==> r.0 == state && r.1 == (match msg {
            MessageType::Ping => ServerStep::Pong,
            MessageType::Cancel => ServerStep::CancelNoted,
            MessageType::RequestHeaders => ServerStep::Dispatch {
                kind: EventType::RequestHeaders },
            MessageType::RequestBodyChunk => ServerStep::Dispatch {
                kind: EventType::RequestBodyChunk },
            MessageType::ResponseHeaders => ServerStep::Dispatch {
                kind: EventType::ResponseHeaders },
            MessageType::ResponseBodyChunk => ServerStep::Dispatch {
                kind: EventType::ResponseBodyChunk },
            MessageType::RequestComplete => ServerStep::Dispatch {
                kind: EventType::RequestComplete },
            MessageType::WebSocketFrame => ServerStep::Dispatch {
                kind: EventType::WebSocketFrame },
            MessageType::Configure => ServerStep::Dispatch { kind: EventType::Configure },
            _ => ServerStep::Ignore,
        }),
        state is Closed ==> r == (ServerSession::Closed, ServerStep::Rejected),
{
    match state {
        ServerSession::AwaitingHandshake => {
            if matches!(msg, MessageType::HandshakeRequest) {
                (state, ServerStep::Handshake)
            } else {
                (ServerSession::Closed, ServerStep::Rejected)
            }
        },
        ServerSession::Established { .. } => {
            let step = match msg {
                MessageType::Ping => ServerStep::Pong,
                MessageType::Cancel => ServerStep::CancelNoted,
                MessageType::RequestHeaders => ServerStep::Dispatch {
                    kind: EventType::RequestHeaders },
                MessageType::RequestBodyChunk => ServerStep::Dispatch {
                    kind: EventType::RequestBodyChunk },
                MessageType::ResponseHeaders => ServerStep::Dispatch {
                    kind: EventType::ResponseHeaders },
                MessageType::ResponseBodyChunk => ServerStep::Dispatch {
                    kind: EventType::ResponseBodyChunk },
                MessageType::RequestComplete => ServerStep::Dispatch {
                    kind: EventType::RequestComplete },
                MessageType::WebSocketFrame => ServerStep::Dispatch {
                    kind: EventType::WebSocketFrame },
                MessageType::Configure => ServerStep::Dispatch { kind: EventType::Configure },
                _ => ServerStep::Ignore,
            };
            (state, step)
        },
        ServerSession::Closed => (ServerSession::Closed, ServerStep::Rejected),
    }
}

/// Complete the handshake: negotiate the encoding from the client's
/// preferences — this server speaks JSON only — and establish the
/// session exactly when the handler accepted the handshake.
pub fn complete_handshake(prefs: &Vec<UdsEncoding>, success: bool)
    -> (r: (ServerSession, UdsEncoding))
    ensures
        r.1 == UdsEncoding::Json,
        success ==> r.0 == (ServerSession::Established { encoding: r.1 }),
        !success ==> r.0 == ServerSession::Closed,
{
    let encoding = negotiate_encoding(prefs);
    if success {
        (ServerSession::Established { encoding }, encoding)
    } else {
        (ServerSession::Closed, encoding)
    }
}

/// The response sent for a configure event: allow when the handler
/// accepted the configuration, else a 500 block.
pub fn configure_response(accepted: bool) -> (r: AgentResponse)
    ensures
        crate::protocol::fresh_response(r),
        accepted ==> r.decision == crate::protocol::Decision::Allow,
        !accepted ==> (r.decision matches crate::protocol::Decision::Block {
            status, body, headers }
            && status == 500
            && (body matches Some(m) && m@ == "Configuration rejected"@)
            && headers is None),
{
    if accepted {
        AgentResponse::default_allow()
    } else {
        AgentResponse::block(500, Some(String::from_str("Configuration rejected")))
    }
}

/// The correlation ID a parsed payload carries: its own
/// `correlation_id` string field, else the one inside `metadata`.
pub open spec fn spec_correlation_in(v: JsonVal) -> Option<Seq<char>> {
    match spec_json_get(v, "correlation_id"@) {
        Some(JsonVal::Str(s)) => Some(s@),
        _ => match spec_json_get(v, "metadata"@) {
            Some(m) => match spec_json_get(m, "correlation_id"@) {
                Some(JsonVal::Str(s)) => Some(s@),
                _ => None,
            },
            _ => None,
        },
    }
}

/// Find the correlation ID in a parsed payload.
pub fn correlation_from_value(v: &JsonVal) -> (r: Option<String>)
    ensures
        match r {
            Some(cid) => spec_correlation_in(*v) == Some(cid@),
            None => spec_correlation_in(*v) is None,
        },
{
    if let Some(c) = json_get(v, "correlation_id") {
        if let JsonVal::Str(s) = c {
            return Some(s.clone());
        }
        if let Some(m) = json_get(v, "metadata") {
            if let Some(c2) = json_get(m, "correlation_id") {
                if let JsonVal::Str(s) = c2 {
                    return Some(s.clone());
                }
            }
        }
        return None;
    }
    if let Some(m) = json_get(v, "metadata") {
        if let Some(c2) = json_get(m, "correlation_id") {
            if let JsonVal::Str(s) = c2 {
                return Some(s.clone());
            }
        }
    }
    None
}

/// Best-effort extraction of a correlation ID from a payload, for
/// error paths: the ID `correlation_from_value` finds in the document
/// the bytes parse to — the payload's own field, else the one in its
/// metadata — and empty everywhere else.
pub fn extract_correlation_id(payload: &[u8]) -> (r: String)
    ensures
        match crate::guardrail::spec_parse_json(payload@) {
            Some(v) => match spec_correlation_in(v) {
                Some(cid) => r@ == cid,
                None => r@.len() == 0,
            },
            None => r@.len() == 0,
        },
{
    match parse_json(payload) {
        Some(v) => match correlation_from_value(&v) {
            Some(cid) => cid,
            None => String::new(),
        },
        None => String::new(),
    }
}

/// Server for one agent over a Unix domain socket: an identifier, the
/// socket path, and the handler that answers events.  The accept loop
/// and the socket I/O drive `server_step` outside the library.
#[derive(Debug)]
pub struct UdsAgentServerV2<H> {
    /// Agent identifier
    pub id: String,
    /// Socket path
    pub socket_path: String,
    /// The agent's handler
    pub handler: H,
}

impl<H: AgentHandler> UdsAgentServerV2<H> {
    /// Bind an identifier, a socket path and a handler together.
    pub fn new(id: String, socket_path: String, handler: H) -> (s: UdsAgentServerV2<H>)
        ensures
            s.id == id,
            s.socket_path == socket_path,
    {
        UdsAgentServerV2 { id, socket_path, handler }
    }
}

} // verus!
