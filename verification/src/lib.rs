//! Operation dispatch and permission-gated serialization bridge.
//!
//! A sandboxed embedding hands this library decoded requests for privileged
//! host-side actions (environment access, process identity, termination,
//! terminal introspection). The library enforces a capability check before
//! any operation with observable effects outside the sandbox, runs the
//! operation, and produces a binary-encoded, correlation-tagged response.

pub mod dispatch;
pub mod encode;
pub mod env;
pub mod gate;
pub mod handlers;
pub mod host;
pub mod laws;
pub mod request;
pub mod state;
pub mod value;
