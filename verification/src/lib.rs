//! A local inter-process command bridge.
//!
//! A controller process sends line-framed JSON-RPC requests over a local
//! transport to an embedded runtime, which dispatches them and answers with a
//! correlated response.  This crate holds the verified core of that bridge:
//! the wire codec (one JSON object per line), the protocol data model, the
//! per-connection session step, the command dispatcher's decision logic, the
//! correlation table that matches asynchronous completions to waiting
//! callers, and the endpoint naming rules.  The I/O shells around these
//! (listener, client, process management) live outside the library.

pub mod client;
pub mod commands;
pub mod correlation;
pub mod decode;
pub mod dispatch;
pub mod endpoint;
pub mod eval;
pub mod json;
pub mod mcp;
pub mod protocol;
pub mod screenshot;
pub mod session;
