//! Dual-transport IPC: one protocol-agnostic request/response service
//! definition, carried either as line-delimited JSON-RPC 2.0 over a child
//! process's stdin/stdout, or as HTTP with streaming responses delivered as
//! Server-Sent Events.
//!
//! This crate holds the verified core: the error model and its category
//! maps, the JSON-RPC message model, the correlation engine that ties
//! responses and notification streams back to outstanding calls, the stdio
//! server's notification-link machine, and the HTTP auth/routing/status
//! decisions. The asynchronous plumbing that drives these decisions over
//! real pipes and sockets lives outside the verified library.

use vstd::prelude::*;

pub mod config;
pub mod correlation;
pub mod correlation_laws;
pub mod error;
pub mod http;
pub mod json;
pub mod jsonrpc;
pub mod sse;
pub mod stdio;
pub mod stdio_server;

verus! {

/// Default request timeout, in seconds.
pub const DEFAULT_TIMEOUT_SECS: u64 = 900;

/// A response container returned by a service: a single response, or a
/// stream of responses delivered as notifications. The stream itself is
/// whatever representation the transport around the library drives.
pub enum ServiceResponse<Response, Stream> {
    /// A single response returned by the service.
    Single(Response),
    /// A stream of multiple responses returned by the service.
    Multiple(Stream),
}

} // verus!
