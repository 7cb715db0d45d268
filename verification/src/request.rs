//! Decoded request envelopes and the static operation registry.

use vstd::prelude::*;
use crate::value::Value;

verus! {

/// Operation identifier of `start`.
pub const OP_START: u32 = 1;

/// Operation identifier of `home-directory`.
pub const OP_HOME_DIR: u32 = 2;

/// Operation identifier of `exec-path`.
pub const OP_EXEC_PATH: u32 = 3;

/// Operation identifier of `set-environment-variable`.
pub const OP_SET_ENV: u32 = 4;

/// Operation identifier of `read-all-environment-variables`.
pub const OP_ENV: u32 = 5;

/// Operation identifier of `exit`.
pub const OP_EXIT: u32 = 6;

/// Operation identifier of `tty-query`.
pub const OP_IS_TTY: u32 = 7;

/// A decoded request envelope, owned by one dispatch call. Fields an
/// operation does not use are ignored; a field it needs may be absent,
/// which is a request-level decoding error, not a panic.
pub struct Request {
    /// Correlation id; every response carries it back.
    pub cmd_id: u32,
    /// Operation identifier, looked up in the registry.
    pub op_id: u32,
    /// Variable name, for `set-environment-variable`.
    pub key: Option<String>,
    /// Variable value, for `set-environment-variable`.
    pub value: Option<String>,
    /// Exit status code, for `exit`.
    pub code: Option<i32>,
    /// Optional raw binary payload; none of the catalog accepts one.
    pub payload: Option<Vec<u8>>,
}

/// The operations of the catalog.
#[derive(Clone, Copy)]
pub enum OpKind {
    Start,
    HomeDir,
    ExecPath,
    SetEnv,
    Env,
    Exit,
    IsTty,
}

/// The two handler shapes the router supports.
#[derive(Clone, Copy)]
pub enum Shape {
    /// The handler builds its own response buffer in the binary-schema layout.
    SelfEncoding,
    /// The handler returns a generic result that the router encodes.
    GenericResult,
}

/// The registry entry an operation identifier denotes, if any.
pub open spec fn op_of(id: u32) -> Option<OpKind> {
    if id == OP_START {
        Some(OpKind::Start)
    } else if id == OP_HOME_DIR {
        Some(OpKind::HomeDir)
    } else if id == OP_EXEC_PATH {
        Some(OpKind::ExecPath)
    } else if id == OP_SET_ENV {
        Some(OpKind::SetEnv)
    } else if id == OP_ENV {
        Some(OpKind::Env)
    } else if id == OP_EXIT {
        Some(OpKind::Exit)
    } else if id == OP_IS_TTY {
        Some(OpKind::IsTty)
    } else {
        None
    }
}

/// Whether the registry holds a handler for an operation identifier.
pub open spec fn known_op(id: u32) -> bool {
    op_of(id) is Some
}

/// Which encoding shape an operation was registered with.
pub open spec fn shape_of(k: OpKind) -> Shape {
    match k {
        OpKind::Start => Shape::SelfEncoding,
        OpKind::HomeDir => Shape::SelfEncoding,
        OpKind::SetEnv => Shape::SelfEncoding,
        OpKind::ExecPath => Shape::GenericResult,
        OpKind::Env => Shape::GenericResult,
        OpKind::Exit => Shape::GenericResult,
        OpKind::IsTty => Shape::GenericResult,
    }
}

/// Per-operation registration contract on the raw binary payload: no
/// operation of this catalog takes one.
pub open spec fn payload_allowed(k: OpKind) -> bool {
    false
}

/// Registry lookup: the handler for an operation identifier.
pub fn lookup_op(id: u32) -> (r: Option<OpKind>)
    ensures
        r == op_of(id),
{
    if id == OP_START {
        Some(OpKind::Start)
    } else if id == OP_HOME_DIR {
        Some(OpKind::HomeDir)
    } else if id == OP_EXEC_PATH {
        Some(OpKind::ExecPath)
    } else if id == OP_SET_ENV {
        Some(OpKind::SetEnv)
    } else if id == OP_ENV {
        Some(OpKind::Env)
    } else if id == OP_EXIT {
        Some(OpKind::Exit)
    } else if id == OP_IS_TTY {
        Some(OpKind::IsTty)
    } else {
        None
    }
}

/// Outcome of a generic-result handler: available now, or observed later.
pub enum OpResult {
    /// The value is ready; the router encodes it at dispatch time.
    Sync(Value),
    /// The value is to be delivered later: the router does not encode it,
    /// and the embedding encodes the completion under the correlation id
    /// captured at dispatch time.
    Async(Value),
}

/// What the router hands back for one dispatched request.
pub enum Reply {
    /// An encoded response to deliver now.
    Response(Vec<u8>),
    /// A deferred result: the embedding delivers the completion encoding
    /// for `cmd_id` once the value is observed.
    Deferred { cmd_id: u32, value: Value },
    /// Halt the whole process with this status code; no response is
    /// delivered for this or any later request.
    Terminate(i32),
}

/// A dispatch outcome: the reply, and the host action the embedding must
/// mirror onto process-wide state.
pub struct Dispatched {
    pub reply: Reply,
    /// `Some((key, value))`: the embedding must write this variable into
    /// the real process environment; the table threaded through dispatch
    /// already reflects it.
    pub env_write: Option<(String, String)>,
}

} // verus!
