//! Typed protocol errors surfaced by the codec, client logic and
//! manager policy.

use vstd::prelude::*;

verus! {

/// Errors of the agent protocol and its transports.
#[derive(Debug, Clone, PartialEq, Eq)]
pub enum AgentProtocolError {
    /// Transport could not be established or was lost
    ConnectionFailed(String),
    /// Peer closed cleanly; non-fatal at pool scope
    ConnectionClosed,
    /// Encode or decode error, or an event unsupported by the transport
    Serialization(String),
    /// Framing or structure error
    InvalidMessage(String),
    /// Handshake rejected: the protocol versions do not agree
    VersionMismatch { expected: u32, actual: u32 },
    /// A frame exceeded the maximum payload size
    MessageTooLarge { size: usize, max: usize },
    /// An API was used on an incompatible transport
    WrongConnectionType(String),
    /// Per-call deadline exceeded, in milliseconds
    Timeout(u64),
    /// Domain-level agent failure
    Agent { agent: String, message: String, event: String },
    /// Invariant violation
    Internal { message: String, correlation_id: Option<String> },
}

impl AgentProtocolError {
    /// Short name of the error kind.
    pub fn kind_name(&self) -> (r: &'static str)
        ensures
            r@ == self.spec_kind_name(),
    {
        match self {
            AgentProtocolError::ConnectionFailed(..) => "connection_failed",
            AgentProtocolError::ConnectionClosed => "connection_closed",
            AgentProtocolError::Serialization(..) => "serialization",
            AgentProtocolError::InvalidMessage(..) => "invalid_message",
            AgentProtocolError::VersionMismatch { .. } => "version_mismatch",
            AgentProtocolError::MessageTooLarge { .. } => "message_too_large",
            AgentProtocolError::WrongConnectionType(..) => "wrong_connection_type",
            AgentProtocolError::Timeout(..) => "timeout",
            AgentProtocolError::Agent { .. } => "agent",
            AgentProtocolError::Internal { .. } => "internal",
        }
    }

    /// The kind name as a character sequence.
    pub open spec fn spec_kind_name(&self) -> Seq<char> {
        match self {
            AgentProtocolError::ConnectionFailed(..) => "connection_failed"@,
            AgentProtocolError::ConnectionClosed => "connection_closed"@,
            AgentProtocolError::Serialization(..) => "serialization"@,
            AgentProtocolError::InvalidMessage(..) => "invalid_message"@,
            AgentProtocolError::VersionMismatch { .. } => "version_mismatch"@,
            AgentProtocolError::MessageTooLarge { .. } => "message_too_large"@,
            AgentProtocolError::WrongConnectionType(..) => "wrong_connection_type"@,
            AgentProtocolError::Timeout(..) => "timeout"@,
            AgentProtocolError::Agent { .. } => "agent"@,
            AgentProtocolError::Internal { .. } => "internal"@,
        }
    }
}

} // verus!
