//! The permission gate and the error taxonomy of the dispatch layer.

use vstd::prelude::*;
use crate::encode::{enc_str, push_str};

verus! {

/// A resource category that a permission query may refuse.
#[derive(Clone, Copy)]
pub enum Resource {
    EnvRead,
    EnvWrite,
}

/// Why a request was rejected before its operation ran.
#[derive(Clone, Copy)]
pub enum BadRequest {
    UnknownOp,
    MissingField,
    UnexpectedPayload,
}

/// A host-side failure, carrying its diagnosis.
#[derive(Clone, Copy)]
pub enum HostFail {
    /// The host could not resolve the path of its own executable.
    ExePathUnresolved,
    /// The executable path could not be brought into resolved absolute form.
    ExePathNotCanonical,
}

/// A failure surfaced to the caller as an error response; none of these
/// aborts the dispatch loop.
pub enum OpError {
    PermissionDenied(Resource),
    Invalid(BadRequest),
    HostFailure(HostFail),
}

/// Code byte of a resource category.
pub open spec fn resource_code(r: Resource) -> u8 {
    match r {
        Resource::EnvRead => 1,
        Resource::EnvWrite => 2,
    }
}

/// Outer code byte of an error: which arm of the taxonomy it falls in.
pub open spec fn err_code(e: OpError) -> u8 {
    match e {
        OpError::PermissionDenied(_) => 1,
        OpError::Invalid(_) => 2,
        OpError::HostFailure(_) => 3,
    }
}

/// Inner code byte of an error: the case within its arm.
pub open spec fn err_sub(e: OpError) -> u8 {
    match e {
        OpError::PermissionDenied(r) => resource_code(r),
        OpError::Invalid(BadRequest::UnknownOp) => 1,
        OpError::Invalid(BadRequest::MissingField) => 2,
        OpError::Invalid(BadRequest::UnexpectedPayload) => 3,
        OpError::HostFailure(HostFail::ExePathUnresolved) => 1,
        OpError::HostFailure(HostFail::ExePathNotCanonical) => 2,
    }
}

/// The diagnostic text an error carries across the boundary.
pub open spec fn err_message(e: OpError) -> Seq<char> {
    match e {
        OpError::PermissionDenied(Resource::EnvRead) => "permission denied to read the environment"@,
        OpError::PermissionDenied(Resource::EnvWrite) => "permission denied to write the environment"@,
        OpError::Invalid(BadRequest::UnknownOp) => "unknown operation identifier"@,
        OpError::Invalid(BadRequest::MissingField) => "a required request field is missing"@,
        OpError::Invalid(BadRequest::UnexpectedPayload) => "this operation takes no raw payload"@,
        OpError::HostFailure(HostFail::ExePathUnresolved) => "the host could not resolve its executable path"@,
        OpError::HostFailure(HostFail::ExePathNotCanonical) => "the executable path could not be canonicalized"@,
    }
}

/// Payload layout of an error response: outer code, inner code, message.
pub open spec fn enc_error(e: OpError) -> Seq<u8> {
    seq![err_code(e), err_sub(e)] + enc_str(err_message(e))
}

impl OpError {
    /// The diagnostic text of this error.
    pub fn message(&self) -> (r: String)
        ensures
            r@ == err_message(*self),
    {
        match self {
            OpError::PermissionDenied(Resource::EnvRead) => String::from_str(
                "permission denied to read the environment",
            ),
            OpError::PermissionDenied(Resource::EnvWrite) => String::from_str(
                "permission denied to write the environment",
            ),
            OpError::Invalid(BadRequest::UnknownOp) => String::from_str(
                "unknown operation identifier",
            ),
            OpError::Invalid(BadRequest::MissingField) => String::from_str(
                "a required request field is missing",
            ),
            OpError::Invalid(BadRequest::UnexpectedPayload) => String::from_str(
                "this operation takes no raw payload",
            ),
            OpError::HostFailure(HostFail::ExePathUnresolved) => String::from_str(
                "the host could not resolve its executable path",
            ),
            OpError::HostFailure(HostFail::ExePathNotCanonical) => String::from_str(
                "the executable path could not be canonicalized",
            ),
        }
    }
}

/// Encodes an error into its payload layout.
pub fn error_payload(e: &OpError) -> (r: Vec<u8>)
    ensures
        r@ == enc_error(*e),
{
    let mut out: Vec<u8> = Vec::new();
    let (code, sub): (u8, u8) = match e {
        OpError::PermissionDenied(Resource::EnvRead) => (1, 1),
        OpError::PermissionDenied(Resource::EnvWrite) => (1, 2),
        OpError::Invalid(BadRequest::UnknownOp) => (2, 1),
        OpError::Invalid(BadRequest::MissingField) => (2, 2),
        OpError::Invalid(BadRequest::UnexpectedPayload) => (2, 3),
        OpError::HostFailure(HostFail::ExePathUnresolved) => (3, 1),
        OpError::HostFailure(HostFail::ExePathNotCanonical) => (3, 2),
    };
    out.push(code);
    out.push(sub);
    let msg = e.message();
    push_str(&mut out, msg.as_str());
    assert(out@ =~= enc_error(*e));
    out
}

/// The capability policy the sandbox was started with. Its construction
/// and lifecycle belong to the embedding; the dispatch layer only queries it.
pub struct Gate {
    pub env_read: bool,
    pub env_write: bool,
}

impl Gate {
    /// Whether the policy grants a resource category.
    pub open spec fn allows(self, r: Resource) -> bool {
        match r {
            Resource::EnvRead => self.env_read,
            Resource::EnvWrite => self.env_write,
        }
    }

    /// The capability check run before any gated operation: it succeeds
    /// exactly when the policy grants the category, and a denial names the
    /// denied category.
    pub fn check(&self, r: Resource) -> (res: Result<(), OpError>)
        ensures
            res is Ok <==> self.allows(r),
            res is Err ==> res->Err_0 == OpError::PermissionDenied(r),
    {
        let allowed = match r {
            Resource::EnvRead => self.env_read,
            Resource::EnvWrite => self.env_write,
        };
        if allowed {
            Ok(())
        } else {
            Err(OpError::PermissionDenied(r))
        }
    }
}

} // verus!
