//! A verified core for a function-as-a-service custom-runtime client:
//! the poll-execute-report protocol state machine, the per-invocation
//! context, response classification and the wire-endpoint URL builders.
//!
//! The HTTP transport, JSON serialization of user payloads and the
//! user-supplied event handler are external collaborators reached through
//! the `Transport`, `EventHandler` and `EnvSink` traits.

use vstd::prelude::*;

pub mod context;
pub mod env;
pub mod error;
pub mod handler;
pub mod parse;
pub mod response;
pub mod runtime;
pub mod transport;
pub mod urls;

verus! {

/// The protocol version used to build invocation URLs.
pub const LAMBDA_VER: &'static str = "2018-06-01";

} // verus!
