//! Agent subsystem for a reverse proxy that consults external processing
//! agents over Unix domain sockets or gRPC: wire codec, header model,
//! decision merging, circuit breaking, metrics, and the bundle registry.

use vstd::prelude::*;

pub mod breaker;
pub mod bundle;
pub mod bundle_status;
pub mod checksum;
pub mod client;
pub mod codec;
pub mod config;
pub mod demux;
pub mod error;
pub mod grpc;
pub mod guardrail;
pub mod headers;
pub mod inference;
pub mod manager;
pub mod metrics;
pub mod names;
pub mod protocol;
pub mod proxy_rules;
pub mod registry;
pub mod server;
pub mod strutil;

verus! {

/// Version of the agent wire protocol spoken by this library.
pub const PROTOCOL_VERSION: u32 = 2;

/// Maximum payload size of one framed message: 10 MiB.
pub const MAX_MESSAGE_SIZE: usize = 10 * 1024 * 1024;

} // verus!
