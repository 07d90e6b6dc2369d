//! Wire codec for the Unix-domain-socket transport: length-prefixed
//! frames, message types, encoding negotiation and the base64
//! representation of body chunks.

use vstd::prelude::*;
use vstd::string::StrSliceExecFns;
use crate::error::AgentProtocolError;
use crate::protocol::{BinaryRequestBodyChunkEvent, BinaryResponseBodyChunkEvent,
    RequestBodyChunkEvent, ResponseBodyChunkEvent};
use crate::MAX_MESSAGE_SIZE;

use base64::Engine;

verus! {

/// Type tag of one framed message.
#[derive(Debug, Clone, Copy, PartialEq, Eq, Structural)]
pub enum MessageType {
    /// Handshake request, always JSON (byte 1)
    HandshakeRequest,
    /// Handshake response, always JSON (byte 2)
    HandshakeResponse,
    /// Union-typed agent request (byte 3)
    AgentRequest,
    /// Agent response (byte 4)
    AgentResponse,
    /// Ping with opaque bytes (byte 5)
    Ping,
    /// Pong echoing the ping bytes (byte 6)
    Pong,
    /// Cancel a call by correlation ID (byte 7)
    Cancel,
    /// Request headers event (byte 8)
    RequestHeaders,
    /// Request body chunk event (byte 9)
    RequestBodyChunk,
    /// Response headers event (byte 10)
    ResponseHeaders,
    /// Response body chunk event (byte 11)
    ResponseBodyChunk,
    /// Request complete event (byte 12)
    RequestComplete,
    /// WebSocket frame event (byte 13)
    WebSocketFrame,
    /// Configure event (byte 14)
    Configure,
}

impl MessageType {
    /// The fixed byte value of this message type.
    pub open spec fn spec_value(self) -> u8 {
        match self {
            MessageType::HandshakeRequest => 1,
            MessageType::HandshakeResponse => 2,
            MessageType::AgentRequest => 3,
            MessageType::AgentResponse => 4,
            MessageType::Ping => 5,
            MessageType::Pong => 6,
            MessageType::Cancel => 7,
            MessageType::RequestHeaders => 8,
            MessageType::RequestBodyChunk => 9,
            MessageType::ResponseHeaders => 10,
            MessageType::ResponseBodyChunk => 11,
            MessageType::RequestComplete => 12,
            MessageType::WebSocketFrame => 13,
            MessageType::Configure => 14,
        }
    }

    /// Byte value of this message type.
    pub fn as_u8(&self) -> (r: u8)
        ensures
            r == self.spec_value(),
    {
        match self {
            MessageType::HandshakeRequest => 1,
            MessageType::HandshakeResponse => 2,
            MessageType::AgentRequest => 3,
            MessageType::AgentResponse => 4,
            MessageType::Ping => 5,
            MessageType::Pong => 6,
            MessageType::Cancel => 7,
            MessageType::RequestHeaders => 8,
            MessageType::RequestBodyChunk => 9,
            MessageType::ResponseHeaders => 10,
            MessageType::ResponseBodyChunk => 11,
            MessageType::RequestComplete => 12,
            MessageType::WebSocketFrame => 13,
            MessageType::Configure => 14,
        }
    }

    /// Parse a message type from its byte value.
    pub fn from_u8(value: u8) -> (r: Option<MessageType>)
        ensures
            r matches Some(t) ==> t.spec_value() == value,
            r is None <==> !(1 <= value <= 14),
    {
        match value {
            1 => Some(MessageType::HandshakeRequest),
            2 => Some(MessageType::HandshakeResponse),
            3 => Some(MessageType::AgentRequest),
            4 => Some(MessageType::AgentResponse),
            5 => Some(MessageType::Ping),
            6 => Some(MessageType::Pong),
            7 => Some(MessageType::Cancel),
            8 => Some(MessageType::RequestHeaders),
            9 => Some(MessageType::RequestBodyChunk),
            10 => Some(MessageType::ResponseHeaders),
            11 => Some(MessageType::ResponseBodyChunk),
            12 => Some(MessageType::RequestComplete),
            13 => Some(MessageType::WebSocketFrame),
            14 => Some(MessageType::Configure),
            _ => None,
        }
    }
}

/// Big-endian bytes of a 32-bit length.
pub open spec fn spec_be32(n: u32) -> Seq<u8> {
    seq![(n >> 24) as u8, (n >> 16) as u8, (n >> 8) as u8, n as u8]
}

/// The 32-bit value read from four big-endian bytes.
pub open spec fn spec_u32_from_be(b0: u8, b1: u8, b2: u8, b3: u8) -> u32 {
    ((b0 as u32) << 24) | ((b1 as u32) << 16) | ((b2 as u32) << 8) | (b3 as u32)
}

/// Writing a length big-endian and reading it back is the identity.
pub proof fn lemma_be32_round_trip(n: u32)
    ensures
        spec_u32_from_be((n >> 24) as u8, (n >> 16) as u8, (n >> 8) as u8, n as u8) == n,
{
    assert(((((n >> 24) as u8) as u32) << 24) | ((((n >> 16) as u8) as u32) << 16)
        | ((((n >> 8) as u8) as u32) << 8) | ((n as u8) as u32) == n) by (bit_vector);
}

/// One frame on the wire: the message type byte, the payload length as
/// four big-endian bytes, then the payload.
pub open spec fn spec_encode_frame(t: MessageType, payload: Seq<u8>) -> Seq<u8> {
    seq![t.spec_value()] + spec_be32(payload.len() as u32) + payload
}

/// The frame that a byte sequence holds, when it is well-formed: at
/// least five bytes, a defined type byte, a length that matches the
/// rest, and a payload within the size limit.
pub open spec fn spec_frame_ok(bytes: Seq<u8>) -> bool {
    &&& bytes.len() >= 5
    &&& 1 <= bytes[0] <= 14
    &&& bytes.len() == 5 + spec_u32_from_be(bytes[1], bytes[2], bytes[3], bytes[4])
    &&& spec_u32_from_be(bytes[1], bytes[2], bytes[3], bytes[4]) <= MAX_MESSAGE_SIZE
}

/// Encode one frame.
///
/// Returns `MessageTooLarge` exactly when the payload exceeds 10 MiB;
/// a payload of exactly 10 MiB is accepted.
pub fn encode_frame(t: MessageType, payload: &Vec<u8>) -> (r: Result<Vec<u8>, AgentProtocolError>)
    ensures
        payload@.len() > MAX_MESSAGE_SIZE ==> r == Err::<Vec<u8>, _>(
            AgentProtocolError::MessageTooLarge { size: payload@.len() as usize, max: MAX_MESSAGE_SIZE }),
        payload@.len() <= MAX_MESSAGE_SIZE ==> (r matches Ok(v)
            && v@ == spec_encode_frame(t, payload@)),
{
    let len = payload.len();
    if len > MAX_MESSAGE_SIZE {
        return Err(AgentProtocolError::MessageTooLarge { size: len, max: MAX_MESSAGE_SIZE });
    }
    let len32 = len as u32;
    let mut out: Vec<u8> = Vec::new();
    out.push(t.as_u8());
    out.push((len32 >> 24) as u8);
    out.push((len32 >> 16) as u8);
    out.push((len32 >> 8) as u8);
    out.push(len32 as u8);
    let mut i: usize = 0;
    while i < len
        invariant
            i <= len,
            len == payload@.len(),
            out@ =~= seq![t.spec_value()] + spec_be32(len as u32) + payload@.subrange(0, i as int),
        decreases len - i,
    {
        out.push(payload[i]);
        proof {
            assert(payload@.subrange(0, (i + 1) as int)
                =~= payload@.subrange(0, i as int).push(payload@[i as int]));
        }
        i = i + 1;
    }
    proof {
        assert(payload@.subrange(0, len as int) =~= payload@);
        assert(out@ =~= spec_encode_frame(t, payload@));
    }
    Ok(out)
}

/// Decode one frame from a complete buffer.
///
/// Rejects short buffers, undefined type bytes and length mismatches
/// with `InvalidMessage`, and oversized payloads with `MessageTooLarge`.
pub fn decode_frame(bytes: &Vec<u8>) -> (r: Result<(MessageType, Vec<u8>), AgentProtocolError>)
    ensures
        r matches Ok(p) ==> spec_frame_ok(bytes@)
            && p.0.spec_value() == bytes@[0]
            && p.1@ == bytes@.subrange(5, bytes@.len() as int),
        r matches Err(e) ==> !spec_frame_ok(bytes@),
{
    if bytes.len() < 5 {
        return Err(AgentProtocolError::InvalidMessage(String::new()));
    }
    let t = match MessageType::from_u8(bytes[0]) {
        Some(t) => t,
        None => {
            return Err(AgentProtocolError::InvalidMessage(String::new()));
        },
    };
    let len32 = u32_from_be(bytes[1], bytes[2], bytes[3], bytes[4]);
    let len = len32 as usize;
    if len > MAX_MESSAGE_SIZE {
        return Err(AgentProtocolError::MessageTooLarge { size: len, max: MAX_MESSAGE_SIZE });
    }
    if bytes.len() != 5 + len {
        return Err(AgentProtocolError::InvalidMessage(String::new()));
    }
    let payload = vstd::slice::slice_to_vec(
        vstd::slice::slice_subrange(bytes.as_slice(), 5, bytes.len()));
    Ok((t, payload))
}

/// Read a 32-bit length from four big-endian bytes.
pub fn u32_from_be(b0: u8, b1: u8, b2: u8, b3: u8) -> (r: u32)
    ensures
        r == spec_u32_from_be(b0, b1, b2, b3),
{
    ((b0 as u32) << 24u32) | ((b1 as u32) << 16u32) | ((b2 as u32) << 8u32) | (b3 as u32)
}

/// Every frame within the size limit decodes back to what was encoded:
/// the encoded bytes are well-formed, hold the same type byte, and
/// their payload part is the original payload.
pub proof fn lemma_frame_round_trip(t: MessageType, payload: Seq<u8>)
    requires
        payload.len() <= MAX_MESSAGE_SIZE,
    ensures
        spec_frame_ok(spec_encode_frame(t, payload)),
        spec_encode_frame(t, payload)[0] == t.spec_value(),
        spec_encode_frame(t, payload).subrange(5, spec_encode_frame(t, payload).len() as int)
            == payload,
{
    let e = spec_encode_frame(t, payload);
    let n = payload.len() as u32;
    lemma_be32_round_trip(n);
    assert(e[1] == (n >> 24) as u8 && e[2] == (n >> 16) as u8
        && e[3] == (n >> 8) as u8 && e[4] == n as u8);
    assert(spec_u32_from_be(e[1], e[2], e[3], e[4]) == n);
    assert(e.subrange(5, e.len() as int) =~= payload);
}

/// Payload encoding negotiated at handshake time.
#[derive(Debug, Clone, Copy, PartialEq, Eq, Structural)]
pub enum UdsEncoding {
    /// JSON text; body bytes are base64-encoded
    Json,
    /// MessagePack binary; body bytes are raw
    MessagePack,
}

/// The encoding a server picks: the first preference it supports.
/// A server without binary support accepts only JSON, and JSON is the
/// fallback when no preference is supported — in particular, an empty
/// preference list negotiates to JSON.
pub open spec fn spec_negotiate(prefs: Seq<UdsEncoding>, server_binary: bool) -> UdsEncoding
    decreases prefs.len(),
{
    if prefs.len() == 0 {
        UdsEncoding::Json
    } else if prefs[0] == UdsEncoding::Json || server_binary {
        prefs[0]
    } else {
        spec_negotiate(prefs.subrange(1, prefs.len() as int), server_binary)
    }
}

/// Pick the first client-preferred encoding the server supports;
/// fall back to JSON.
pub fn negotiate_encoding_with(prefs: &Vec<UdsEncoding>, server_binary: bool) -> (r: UdsEncoding)
    ensures
        r == spec_negotiate(prefs@, server_binary),
{
    let n = prefs.len();
    proof {
        assert(prefs@.subrange(0, n as int) =~= prefs@);
    }
    let mut i: usize = 0;
    while i < n
        invariant
            i <= n,
            n == prefs@.len(),
            spec_negotiate(prefs@, server_binary)
                == spec_negotiate(prefs@.subrange(i as int, n as int), server_binary),
        decreases n - i,
    {
        let p = prefs[i];
        if matches!(p, UdsEncoding::Json) || server_binary {
            proof {
                assert(prefs@.subrange(i as int, n as int)[0] == prefs@[i as int]);
            }
            return p;
        }
        proof {
            assert(prefs@.subrange(i as int, n as int).subrange(1,
                (n - i) as int) =~= prefs@.subrange((i + 1) as int, n as int));
        }
        i = i + 1;
    }
    UdsEncoding::Json
}

/// Encoding chosen by a server without binary support: always JSON.
pub fn negotiate_encoding(prefs: &Vec<UdsEncoding>) -> (r: UdsEncoding)
    ensures
        r == spec_negotiate(prefs@, false),
        r == UdsEncoding::Json,
{
    let r = negotiate_encoding_with(prefs, false);
    proof {
        lemma_negotiate_json_only(prefs@);
    }
    r
}

/// A server without binary support always negotiates JSON.
pub proof fn lemma_negotiate_json_only(prefs: Seq<UdsEncoding>)
    ensures
        spec_negotiate(prefs, false) == UdsEncoding::Json,
    decreases prefs.len(),
{
    if prefs.len() > 0 && prefs[0] != UdsEncoding::Json {
        lemma_negotiate_json_only(prefs.subrange(1, prefs.len() as int));
    }
}

/// True when a handshake's supported-versions list names the given
/// protocol version, deciding whether the handshake succeeds.
pub fn version_supported(supported: &Vec<u32>, version: u32) -> (r: bool)
    ensures
        r == supported@.contains(version),
{
    let n = supported.len();
    let mut i: usize = 0;
    while i < n
        invariant
            i <= n,
            n == supported@.len(),
            forall|k: int| 0 <= k < i ==> supported@[k] != version,
        decreases n - i,
    {
        if supported[i] == version {
            return true;
        }
        i = i + 1;
    }
    false
}

/// Check a response's protocol version against the negotiated one.
pub fn check_response_version(actual: u32, negotiated: u32)
    -> (r: Result<(), AgentProtocolError>)
    ensures
        actual == negotiated ==> r is Ok,
        actual != negotiated ==> r == Err::<(), _>(
            AgentProtocolError::VersionMismatch { expected: negotiated, actual }),
{
    if actual == negotiated {
        Ok(())
    } else {
        Err(AgentProtocolError::VersionMismatch { expected: negotiated, actual })
    }
}

/// The base64 text of a byte sequence, as the standard alphabet with
/// padding produces it.
pub uninterp spec fn spec_base64(b: Seq<u8>) -> Seq<char>;

/// Relies on base64's `STANDARD` engine `encode`: the text is a
/// function of the input bytes alone.
#[verifier::external_body]
pub fn base64_encode(b: &[u8]) -> (r: String)
    ensures
        r@ == spec_base64(b@),
        b@.len() == 0 ==> r@.len() == 0,
{
    base64::engine::general_purpose::STANDARD.encode(b)
}

/// Relies on base64's `STANDARD` engine `decode`: decoding the
/// encoding of any byte sequence gives those bytes back, and — since
/// the engine requires canonical padding and rejects trailing bits —
/// the only inputs it accepts are such encodings.
#[verifier::external_body]
pub fn base64_decode(s: &str) -> (r: Option<Vec<u8>>)
    ensures
        match r {
            Some(v) => s@ == spec_base64(v@)
                && (forall|b: Seq<u8>| s@ == #[trigger] spec_base64(b) ==> v@ == b),
            None => forall|b: Seq<u8>| s@ != #[trigger] spec_base64(b),
        },
{
    base64::engine::general_purpose::STANDARD.decode(s).ok()
}

impl RequestBodyChunkEvent {
    /// Base64 representation of a binary request chunk, for the JSON
    /// transport.
    pub fn from_binary(e: &BinaryRequestBodyChunkEvent) -> (r: RequestBodyChunkEvent)
        ensures
            r.correlation_id == e.correlation_id,
            r.data@ == spec_base64(e.data@),
            r.is_last == e.is_last,
            r.total_size == e.total_size,
            r.chunk_index == e.chunk_index,
            r.bytes_received == e.bytes_received,
    {
        RequestBodyChunkEvent {
            correlation_id: e.correlation_id.clone(),
            data: base64_encode(e.data.as_slice()),
            is_last: e.is_last,
            total_size: e.total_size,
            chunk_index: e.chunk_index,
            bytes_received: e.bytes_received,
        }
    }
}

impl BinaryRequestBodyChunkEvent {
    /// Binary representation of a base64 request chunk.  When the data
    /// is the encoding of some bytes, those bytes come back exactly;
    /// text that is not valid base64 is taken as raw UTF-8 bytes.
    pub fn from_encoded(e: &RequestBodyChunkEvent) -> (r: BinaryRequestBodyChunkEvent)
        ensures
            r.correlation_id == e.correlation_id,
            forall|b: Seq<u8>| e.data@ == #[trigger] spec_base64(b) ==> r.data@ == b,
            (forall|b: Seq<u8>| e.data@ != #[trigger] spec_base64(b))
                ==> r.data@ == vstd::utf8::encode_utf8(e.data@),
            r.is_last == e.is_last,
            r.total_size == e.total_size,
            r.chunk_index == e.chunk_index,
            r.bytes_received == e.bytes_received,
    {
        let data = match base64_decode(e.data.as_str()) {
            Some(v) => v,
            None => e.data.as_str().as_bytes_vec(),
        };
        BinaryRequestBodyChunkEvent {
            correlation_id: e.correlation_id.clone(),
            data,
            is_last: e.is_last,
            total_size: e.total_size,
            chunk_index: e.chunk_index,
            bytes_received: e.bytes_received,
        }
    }
}

impl ResponseBodyChunkEvent {
    /// Base64 representation of a binary response chunk, for the JSON
    /// transport.
    pub fn from_binary(e: &BinaryResponseBodyChunkEvent) -> (r: ResponseBodyChunkEvent)
        ensures
            r.correlation_id == e.correlation_id,
            r.data@ == spec_base64(e.data@),
            r.is_last == e.is_last,
            r.total_size == e.total_size,
            r.chunk_index == e.chunk_index,
            r.bytes_sent == e.bytes_sent,
    {
        ResponseBodyChunkEvent {
            correlation_id: e.correlation_id.clone(),
            data: base64_encode(e.data.as_slice()),
            is_last: e.is_last,
            total_size: e.total_size,
            chunk_index: e.chunk_index,
            bytes_sent: e.bytes_sent,
        }
    }
}

impl BinaryResponseBodyChunkEvent {
    /// Binary representation of a base64 response chunk, with the same
    /// raw-UTF-8 fallback as on the request side.
    pub fn from_encoded(e: &ResponseBodyChunkEvent) -> (r: BinaryResponseBodyChunkEvent)
        ensures
            r.correlation_id == e.correlation_id,
            forall|b: Seq<u8>| e.data@ == #[trigger] spec_base64(b) ==> r.data@ == b,
            (forall|b: Seq<u8>| e.data@ != #[trigger] spec_base64(b))
                ==> r.data@ == vstd::utf8::encode_utf8(e.data@),
            r.is_last == e.is_last,
            r.total_size == e.total_size,
            r.chunk_index == e.chunk_index,
            r.bytes_sent == e.bytes_sent,
    {
        let data = match base64_decode(e.data.as_str()) {
            Some(v) => v,
            None => e.data.as_str().as_bytes_vec(),
        };
        BinaryResponseBodyChunkEvent {
            correlation_id: e.correlation_id.clone(),
            data,
            is_last: e.is_last,
            total_size: e.total_size,
            chunk_index: e.chunk_index,
            bytes_sent: e.bytes_sent,
        }
    }
}

/// Converting a body chunk to its base64 representation and back
/// yields the original bytes: what the conversion to text guarantees
/// of the text pins what the conversion back returns.
pub proof fn lemma_body_chunk_round_trip(orig: Seq<u8>, text: Seq<char>, back: Seq<u8>)
    requires
        text == spec_base64(orig),
        forall|b: Seq<u8>| text == #[trigger] spec_base64(b) ==> back == b,
    ensures
        back == orig,
{
}

} // verus!
