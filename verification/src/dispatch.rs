//! The dispatch router: registry lookup, payload contract, capability
//! gating via the handlers, and uniform response encoding for both
//! handler shapes.

use vstd::prelude::*;
use crate::encode::{
    correlates, enc_str, enc_value, envelope, encode_envelope, encode_value,
    KIND_ERROR, KIND_GENERIC, KIND_HOME_DIR, KIND_EMPTY, KIND_START,
};
use crate::env::EnvTable;
use crate::gate::{enc_error, error_payload, BadRequest, HostFail, OpError, Resource};
use crate::handlers::{
    op_env, op_exec_path, op_exit, op_home_dir, op_is_tty, op_set_env, op_start, resolved_path,
    start_payload, tty_shape,
};
use crate::request::{
    known_op, op_of, payload_allowed, shape_of, Dispatched, OpKind, OpResult, Reply, Request,
    Shape,
};
use crate::state::SandboxState;
use crate::value::{all_str, str_entries, Prim, Value};

verus! {

broadcast use crate::encode::lemma_envelope_correlation;

/// Byte layout of an error response.
pub open spec fn err_bytes(cmd_id: u32, e: OpError) -> Seq<u8> {
    envelope(cmd_id, KIND_ERROR, enc_error(e))
}

/// Encodes an error as a response envelope.
pub fn error_response(cmd_id: u32, e: &OpError) -> (r: Vec<u8>)
    ensures
        r@ == err_bytes(cmd_id, *e),
        correlates(r@, cmd_id),
{
    let payload = error_payload(e);
    encode_envelope(cmd_id, KIND_ERROR, &payload)
}

/// Encodes the completion of a generic-result operation: the synchronous
/// path at dispatch time, and the embedding's callback for a deferred
/// result. The correlation id is the one captured at dispatch, so a
/// response delivered out of order still answers its own request.
pub fn encode_completion(cmd_id: u32, result: Result<Value, OpError>) -> (r: Vec<u8>)
    ensures
        result matches Ok(v) ==> r@ == envelope(cmd_id, KIND_GENERIC, enc_value(v)),
        result matches Err(e) ==> r@ == err_bytes(cmd_id, e),
        correlates(r@, cmd_id),
{
    match result {
        Ok(v) => {
            let payload = encode_value(&v);
            encode_envelope(cmd_id, KIND_GENERIC, &payload)
        },
        Err(e) => error_response(cmd_id, &e),
    }
}

/// Routes one generic result: a synchronous value is encoded now; a
/// deferred one is handed back with the correlation id captured at
/// dispatch time for the embedding to complete later.
fn finish_generic(cmd_id: u32, res: OpResult) -> (r: Dispatched)
    ensures
        r.env_write is None,
        res matches OpResult::Sync(v) ==> (r.reply matches Reply::Response(b) && b@ == envelope(
            cmd_id,
            KIND_GENERIC,
            enc_value(v),
        )),
        res matches OpResult::Async(v) ==> (r.reply matches Reply::Deferred { cmd_id: c, value }
            && c == cmd_id && value == v),
{
    match res {
        OpResult::Sync(v) => Dispatched {
            reply: Reply::Response(encode_completion(cmd_id, Ok(v))),
            env_write: None,
        },
        OpResult::Async(v) => Dispatched {
            reply: Reply::Deferred { cmd_id, value: v },
            env_write: None,
        },
    }
}

/// Whether a request carries an environment write that dispatch applies:
/// a well-formed, granted `set-environment-variable`.
pub open spec fn set_env_applies(state: SandboxState, req: Request) -> bool {
    &&& op_of(req.op_id) == Some(OpKind::SetEnv)
    &&& req.payload is None
    &&& req.key is Some
    &&& req.value is Some
    &&& state.gate.allows(Resource::EnvWrite)
}

/// Dispatches one decoded request: registry lookup, the per-operation
/// payload contract, the capability gate, the handler, and the response
/// encoding for either handler shape. Every failure becomes an encoded
/// error response; the dispatch loop is never aborted. Only `exit`
/// produces a termination outcome.
pub fn dispatch(state: &SandboxState, env: &mut EnvTable, req: &Request) -> (r: Dispatched)
    requires
        old(env).wf(),
    ensures
        final(env).wf(),
        // Every response and every deferred completion carries the
        // correlation id of this request.
        r.reply matches Reply::Response(b) ==> correlates(b@, req.cmd_id),
        r.reply matches Reply::Deferred { cmd_id, .. } ==> cmd_id == req.cmd_id,
        // Only a well-formed exit request terminates the process.
        r.reply matches Reply::Terminate(c) ==> (op_of(req.op_id) == Some(OpKind::Exit)
            && req.payload is None && req.code == Some(c)),
        // The environment model changes exactly on a granted, well-formed
        // set, and the embedding is told to mirror exactly that write.
        !set_env_applies(*state, *req) ==> final(env)@ == old(env)@ && r.env_write is None,
        req.key matches Some(k) ==> (req.value matches Some(v) ==> (set_env_applies(*state, *req)
            ==> (r.env_write matches Some(p) && p.0@ == k@ && p.1@ == v@ && final(env)@ == old(
            env,
        )@.insert(k@, v@)))),
        // Unknown operation identifiers and violated payload contracts are
        // request-level errors.
        !known_op(req.op_id) ==> (r.reply matches Reply::Response(b) && b@ == err_bytes(
            req.cmd_id,
            OpError::Invalid(BadRequest::UnknownOp),
        )),
        op_of(req.op_id) matches Some(k) ==> (req.payload is Some && !payload_allowed(k) ==> (
        r.reply matches Reply::Response(b) && b@ == err_bytes(
            req.cmd_id,
            OpError::Invalid(BadRequest::UnexpectedPayload),
        ))),
        // a self-encoding operation always answers immediately; only
        // generic-result operations can defer or terminate.
        op_of(req.op_id) matches Some(k) ==> (shape_of(k) == Shape::SelfEncoding ==> r.reply
            is Response),
        // start: never gated, self-encoding.
        op_of(req.op_id) == Some(OpKind::Start) && req.payload is None ==> (r.reply
            matches Reply::Response(b) && b@ == envelope(
            req.cmd_id,
            KIND_START,
            start_payload(*state),
        )),
        // home-directory: gated on environment read; owed success under a
        // grant.
        op_of(req.op_id) == Some(OpKind::HomeDir) && req.payload is None && !state.gate.allows(
            Resource::EnvRead,
        ) ==> (r.reply matches Reply::Response(b) && b@ == err_bytes(
            req.cmd_id,
            OpError::PermissionDenied(Resource::EnvRead),
        )),
        op_of(req.op_id) == Some(OpKind::HomeDir) && req.payload is None && state.gate.allows(
            Resource::EnvRead,
        ) ==> (r.reply matches Reply::Response(b) && (exists|h: Seq<char>|
            b@ == envelope(req.cmd_id, KIND_HOME_DIR, enc_str(h)))),
        // exec-path: gated on environment read; success only with a
        // resolved absolute path, otherwise a diagnosed host failure.
        op_of(req.op_id) == Some(OpKind::ExecPath) && req.payload is None && !state.gate.allows(
            Resource::EnvRead,
        ) ==> (r.reply matches Reply::Response(b) && b@ == err_bytes(
            req.cmd_id,
            OpError::PermissionDenied(Resource::EnvRead),
        )),
        op_of(req.op_id) == Some(OpKind::ExecPath) && req.payload is None && state.gate.allows(
            Resource::EnvRead,
        ) && state.exe_path is None ==> (r.reply matches Reply::Response(b) && b@ == err_bytes(
            req.cmd_id,
            OpError::HostFailure(HostFail::ExePathUnresolved),
        )),
        op_of(req.op_id) == Some(OpKind::ExecPath) && req.payload is None && state.gate.allows(
            Resource::EnvRead,
        ) && state.exe_path is Some ==> (r.reply matches Reply::Response(b) && ((exists|p: String|
            resolved_path(p@) && b@ == envelope(
                req.cmd_id,
                KIND_GENERIC,
                enc_value(Value::Prim(Prim::Str(p))),
            )) || b@ == err_bytes(req.cmd_id, OpError::HostFailure(HostFail::ExePathNotCanonical)))),
        // set-environment-variable: fields first, then the write gate.
        op_of(req.op_id) == Some(OpKind::SetEnv) && req.payload is None && (req.key is None
            || req.value is None) ==> (r.reply matches Reply::Response(b) && b@ == err_bytes(
            req.cmd_id,
            OpError::Invalid(BadRequest::MissingField),
        )),
        op_of(req.op_id) == Some(OpKind::SetEnv) && req.payload is None && req.key is Some
            && req.value is Some && !state.gate.allows(Resource::EnvWrite) ==> (r.reply
            matches Reply::Response(b) && b@ == err_bytes(
            req.cmd_id,
            OpError::PermissionDenied(Resource::EnvWrite),
        )),
        set_env_applies(*state, *req) ==> (r.reply matches Reply::Response(b) && b@ == envelope(
            req.cmd_id,
            KIND_EMPTY,
            Seq::<u8>::empty(),
        )),
        // read-all-environment-variables: gated on environment read; the
        // response is the model's snapshot, entry for entry.
        op_of(req.op_id) == Some(OpKind::Env) && req.payload is None && !state.gate.allows(
            Resource::EnvRead,
        ) ==> (r.reply matches Reply::Response(b) && b@ == err_bytes(
            req.cmd_id,
            OpError::PermissionDenied(Resource::EnvRead),
        )),
        op_of(req.op_id) == Some(OpKind::Env) && req.payload is None && state.gate.allows(
            Resource::EnvRead,
        ) ==> (r.reply matches Reply::Response(b) && (exists|es: Vec<(String, Prim)>|
            all_str(es@) && str_entries(es@) == old(env).kv() && b@ == envelope(
                req.cmd_id,
                KIND_GENERIC,
                enc_value(Value::Obj(es)),
            ))),
        // exit: ungated; a well-formed request terminates, a malformed one
        // is a request-level error.
        req.code matches Some(c) ==> (op_of(req.op_id) == Some(OpKind::Exit) && req.payload
            is None ==> (r.reply matches Reply::Terminate(cc) && cc == c)),
        op_of(req.op_id) == Some(OpKind::Exit) && req.payload is None && req.code is None ==> (
        r.reply matches Reply::Response(b) && b@ == err_bytes(
            req.cmd_id,
            OpError::Invalid(BadRequest::MissingField),
        )),
        // tty-query: ungated; three independent per-stream booleans.
        op_of(req.op_id) == Some(OpKind::IsTty) && req.payload is None ==> (r.reply
            matches Reply::Response(b) && (exists|es: Vec<(String, Prim)>|
            tty_shape(es@) && b@ == envelope(req.cmd_id, KIND_GENERIC, enc_value(Value::Obj(es))))),
{
    let op = match crate::request::lookup_op(req.op_id) {
        None => {
            return Dispatched {
                reply: Reply::Response(
                    error_response(req.cmd_id, &OpError::Invalid(BadRequest::UnknownOp)),
                ),
                env_write: None,
            };
        },
        Some(k) => k,
    };
    if req.payload.is_some() {
        return Dispatched {
            reply: Reply::Response(
                error_response(req.cmd_id, &OpError::Invalid(BadRequest::UnexpectedPayload)),
            ),
            env_write: None,
        };
    }
    match op {
        OpKind::Start => Dispatched {
            reply: Reply::Response(op_start(state, req)),
            env_write: None,
        },
        OpKind::HomeDir => match op_home_dir(state, req) {
            Ok(b) => Dispatched { reply: Reply::Response(b), env_write: None },
            Err(e) => Dispatched {
                reply: Reply::Response(error_response(req.cmd_id, &e)),
                env_write: None,
            },
        },
        OpKind::ExecPath => match op_exec_path(state) {
            Ok(res) => finish_generic(req.cmd_id, res),
            Err(e) => Dispatched {
                reply: Reply::Response(error_response(req.cmd_id, &e)),
                env_write: None,
            },
        },
        OpKind::SetEnv => match op_set_env(state, env, req) {
            Ok(b) => {
                let act = match (&req.key, &req.value) {
                    (Some(k), Some(v)) => Some((k.clone(), v.clone())),
                    _ => None,
                };
                Dispatched { reply: Reply::Response(b), env_write: act }
            },
            Err(e) => Dispatched {
                reply: Reply::Response(error_response(req.cmd_id, &e)),
                env_write: None,
            },
        },
        OpKind::Env => match op_env(state, env) {
            Ok(res) => finish_generic(req.cmd_id, res),
            Err(e) => Dispatched {
                reply: Reply::Response(error_response(req.cmd_id, &e)),
                env_write: None,
            },
        },
        OpKind::Exit => match op_exit(req) {
            Ok(c) => Dispatched { reply: Reply::Terminate(c), env_write: None },
            Err(e) => Dispatched {
                reply: Reply::Response(error_response(req.cmd_id, &e)),
                env_write: None,
            },
        },
        OpKind::IsTty => finish_generic(req.cmd_id, op_is_tty()),
    }
}

} // verus!
