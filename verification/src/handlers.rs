//! The operation catalog: one handler per operation, each a function of
//! (sandbox state, decoded request, environment model) with an exact
//! contract. Gated handlers run the capability check before anything
//! observable; a denial becomes an error value, never a panic.

use vstd::prelude::*;
use crate::encode::{
    enc_str, enc_strs, enc_opt_str, enc_bool, le32, envelope, KIND_START, KIND_HOME_DIR,
    KIND_EMPTY, encode_envelope, push_str, push_strs, push_opt_str, push_bool, push_le32,
};
use crate::env::EnvTable;
use crate::gate::{BadRequest, HostFail, OpError, Resource};
use crate::host::{file_url_of, file_url_to_path, host_home_dir, stream_is_tty, StdStream};
use crate::request::{OpResult, Request};
use crate::state::{debug_flag, LogLevel, SandboxState};
use crate::value::{all_str, str_entries, Prim, Value};

verus! {

/// Payload layout of a start-info response: the sandbox identity the
/// embedding already possesses, so the operation is never gated.
pub open spec fn start_payload(s: SandboxState) -> Seq<u8> {
    enc_str(s.cwd@) + le32(s.pid) + enc_strs(s.argv@) + enc_opt_str(s.main_module) + enc_str(
        s.runtime_version@,
    ) + enc_str(s.engine_version@) + enc_bool(debug_flag(s)) + enc_bool(s.version_flag)
        + enc_bool(s.no_color) + enc_opt_str(s.xeval_delim)
}

/// `start`: self-encoding, ungated; reports process identity, argv, the
/// working directory, version strings and the startup flags.
pub fn op_start(state: &SandboxState, req: &Request) -> (r: Vec<u8>)
    ensures
        r@ == envelope(req.cmd_id, KIND_START, start_payload(*state)),
{
    let mut out: Vec<u8> = Vec::new();
    push_str(&mut out, state.cwd.as_str());
    push_le32(&mut out, state.pid);
    push_strs(&mut out, &state.argv);
    push_opt_str(&mut out, &state.main_module);
    push_str(&mut out, state.runtime_version.as_str());
    push_str(&mut out, state.engine_version.as_str());
    let debug = match state.log_level {
        Some(LogLevel::Debug) => true,
        _ => false,
    };
    push_bool(&mut out, debug);
    push_bool(&mut out, state.version_flag);
    push_bool(&mut out, state.no_color);
    push_opt_str(&mut out, &state.xeval_delim);
    assert(out@ =~= start_payload(*state));
    encode_envelope(req.cmd_id, KIND_START, &out)
}

/// The path string of a home-directory response: what the host reported,
/// or the empty string when it reported nothing — never an error.
pub fn home_payload(h: Option<String>) -> (r: String)
    ensures
        h matches Some(s) ==> r@ == s@,
        h is None ==> r@ == Seq::<char>::empty(),
{
    match h {
        Some(s) => s,
        None => String::new(),
    }
}

/// `home-directory`: self-encoding, gated on environment read. Under a
/// grant it always succeeds; an unknown home directory is reported as the
/// empty string, not as an error.
pub fn op_home_dir(state: &SandboxState, req: &Request) -> (r: Result<Vec<u8>, OpError>)
    ensures
        !state.gate.allows(Resource::EnvRead) ==> (r matches Err(e) && e
            == OpError::PermissionDenied(Resource::EnvRead)),
        state.gate.allows(Resource::EnvRead) ==> (r matches Ok(b) && (exists|h: Seq<char>|
            b@ == envelope(req.cmd_id, KIND_HOME_DIR, enc_str(h)))),
{
    match state.gate.check(Resource::EnvRead) {
        Err(e) => return Err(e),
        Ok(()) => {},
    }
    let path = home_payload(host_home_dir());
    let mut out: Vec<u8> = Vec::new();
    push_str(&mut out, path.as_str());
    let b = encode_envelope(req.cmd_id, KIND_HOME_DIR, &out);
    proof {
        assert(b@ == envelope(req.cmd_id, KIND_HOME_DIR, enc_str(path@)));
    }
    Ok(b)
}

/// The character at `i` starts a `.` segment.
pub open spec fn dot_at(s: Seq<char>, i: int) -> bool {
    &&& s[i] == '.'
    &&& (i == 0 || s[i - 1] == '/')
    &&& (i + 1 == s.len() || s[i + 1] == '/')
}

/// The character at `i` starts a `..` segment.
pub open spec fn dotdot_at(s: Seq<char>, i: int) -> bool {
    &&& i + 1 < s.len()
    &&& s[i] == '.'
    &&& s[i + 1] == '.'
    &&& (i == 0 || s[i - 1] == '/')
    &&& (i + 2 == s.len() || s[i + 2] == '/')
}

/// An absolute path containing no `.` or `..` segments.
pub open spec fn resolved_path(s: Seq<char>) -> bool {
    &&& s.len() > 0
    &&& s[0] == '/'
    &&& forall|i: int| 0 <= i < s.len() ==> !dot_at(s, i) && !dotdot_at(s, i)
}

/// Decides `resolved_path` on a string.
pub fn is_resolved_path(s: &str) -> (r: bool)
    ensures
        r == resolved_path(s@),
{
    let n = s.unicode_len();
    if n == 0 {
        return false;
    }
    if s.get_char(0) != '/' {
        return false;
    }
    let mut i: usize = 0;
    while i < n
        invariant
            n == s@.len(),
            0 < n,
            s@[0] == '/',
            i <= n,
            forall|j: int| 0 <= j < i ==> !dot_at(s@, j) && !dotdot_at(s@, j),
        decreases n - i,
    {
        let c = s.get_char(i);
        if c == '.' {
            let prev_sep = if i == 0 {
                true
            } else {
                s.get_char(i - 1) == '/'
            };
            if prev_sep {
                let next_sep = if i + 1 == n {
                    true
                } else {
                    s.get_char(i + 1) == '/'
                };
                if next_sep {
                    assert(dot_at(s@, i as int));
                    return false;
                }
                if i + 1 < n && s.get_char(i + 1) == '.' {
                    let after_sep = if i + 2 == n {
                        true
                    } else {
                        s.get_char(i + 2) == '/'
                    };
                    if after_sep {
                        assert(dotdot_at(s@, i as int));
                        return false;
                    }
                }
            }
        }
        i += 1;
    }
    true
}

/// `exec-path`: generic-result, gated on environment read. Succeeds only
/// with a resolved absolute executable path; an unresolvable or
/// non-canonical path is a host failure with its diagnosis, never a
/// silent default.
pub fn op_exec_path(state: &SandboxState) -> (r: Result<OpResult, OpError>)
    ensures
        !state.gate.allows(Resource::EnvRead) ==> (r matches Err(e) && e
            == OpError::PermissionDenied(Resource::EnvRead)),
        state.gate.allows(Resource::EnvRead) && state.exe_path is None ==> (r matches Err(e) && e
            == OpError::HostFailure(HostFail::ExePathUnresolved)),
        r matches Ok(v) ==> (v matches OpResult::Sync(Value::Prim(Prim::Str(p)))
            && resolved_path(p@)),
        state.gate.allows(Resource::EnvRead) && state.exe_path is Some ==> (r is Ok || (
        r matches Err(e) && e == OpError::HostFailure(HostFail::ExePathNotCanonical))),
{
    match state.gate.check(Resource::EnvRead) {
        Err(e) => return Err(e),
        Ok(()) => {},
    }
    let exe = match &state.exe_path {
        None => return Err(OpError::HostFailure(HostFail::ExePathUnresolved)),
        Some(p) => p,
    };
    let url = match file_url_of(exe.as_str()) {
        None => return Err(OpError::HostFailure(HostFail::ExePathNotCanonical)),
        Some(u) => u,
    };
    let path = match file_url_to_path(&url) {
        None => return Err(OpError::HostFailure(HostFail::ExePathNotCanonical)),
        Some(p) => p,
    };
    if is_resolved_path(path.as_str()) {
        Ok(OpResult::Sync(Value::Prim(Prim::Str(path))))
    } else {
        Err(OpError::HostFailure(HostFail::ExePathNotCanonical))
    }
}

/// `set-environment-variable`: self-encoding, gated on environment write.
/// The decoded fields are read first (a missing one is a decoding error,
/// since the envelope format makes them mandatory); next comes the
/// capability query, and only then is the binding applied to the model.
pub fn op_set_env(state: &SandboxState, env: &mut EnvTable, req: &Request) -> (r: Result<
    Vec<u8>,
    OpError,
>)
    requires
        old(env).wf(),
    ensures
        final(env).wf(),
        req.key is None || req.value is None ==> (r matches Err(e) && e == OpError::Invalid(
            BadRequest::MissingField,
        ) && final(env)@ == old(env)@),
        req.key is Some && req.value is Some && !state.gate.allows(Resource::EnvWrite)
            ==> (r matches Err(e) && e == OpError::PermissionDenied(Resource::EnvWrite)
            && final(env)@ == old(env)@),
        req.key matches Some(k) ==> (req.value matches Some(v) ==> (state.gate.allows(
            Resource::EnvWrite,
        ) ==> (r matches Ok(b) && b@ == envelope(req.cmd_id, KIND_EMPTY, Seq::<u8>::empty())
            && final(env)@ == old(env)@.insert(k@, v@)))),
{
    let key = match &req.key {
        None => return Err(OpError::Invalid(BadRequest::MissingField)),
        Some(k) => k,
    };
    let value = match &req.value {
        None => return Err(OpError::Invalid(BadRequest::MissingField)),
        Some(v) => v,
    };
    match state.gate.check(Resource::EnvWrite) {
        Err(e) => return Err(e),
        Ok(()) => {},
    }
    env.set(key.clone(), value.clone());
    let empty: Vec<u8> = Vec::new();
    Ok(encode_envelope(req.cmd_id, KIND_EMPTY, &empty))
}

/// `read-all-environment-variables`: generic-result, gated on environment
/// read; returns the mapping snapshotted from the environment model at
/// call time, entry for entry.
pub fn op_env(state: &SandboxState, env: &EnvTable) -> (r: Result<OpResult, OpError>)
    ensures
        !state.gate.allows(Resource::EnvRead) ==> (r matches Err(e) && e
            == OpError::PermissionDenied(Resource::EnvRead)),
        state.gate.allows(Resource::EnvRead) ==> (r matches Ok(OpResult::Sync(Value::Obj(es)))
            && all_str(es@) && str_entries(es@) == env.kv()),
{
    match state.gate.check(Resource::EnvRead) {
        Err(e) => return Err(e),
        Ok(()) => {},
    }
    let n = env.len();
    let mut es: Vec<(String, Prim)> = Vec::new();
    let mut i: usize = 0;
    while i < n
        invariant
            n == env.kv().len(),
            i <= n,
            es@.len() == i,
            all_str(es@),
            str_entries(es@) == env.kv().subrange(0, i as int),
        decreases n - i,
    {
        let k = env.key_at(i).clone();
        let v = env.value_at(i).clone();
        es.push((k, Prim::Str(v)));
        proof {
            assert(str_entries(es@) =~= env.kv().subrange(0, i + 1));
        }
        i += 1;
    }
    proof {
        assert(env.kv().subrange(0, n as int) =~= env.kv());
    }
    Ok(OpResult::Sync(Value::Obj(es)))
}

/// `exit`: generic-result in registration, but its outcome is a process
/// termination, surfaced as a distinct variant so the dispatch loop — not
/// the handler — halts the process.
pub fn op_exit(req: &Request) -> (r: Result<i32, OpError>)
    ensures
        req.code matches Some(c) ==> r == Ok::<i32, OpError>(c),
        req.code is None ==> (r matches Err(e) && e == OpError::Invalid(BadRequest::MissingField)),
{
    match req.code {
        Some(c) => Ok(c),
        None => Err(OpError::Invalid(BadRequest::MissingField)),
    }
}

/// The three per-stream answers of a tty query, in order: standard input,
/// standard output, standard error. Each answer is independent of the
/// other two; any combination can be represented.
pub fn tty_value(stdin_tty: bool, stdout_tty: bool, stderr_tty: bool) -> (r: Value)
    ensures
        r matches Value::Obj(es) && es@.len() == 3 && es@[0].0@ == "stdin"@ && es@[0].1
            == Prim::Bool(stdin_tty) && es@[1].0@ == "stdout"@ && es@[1].1 == Prim::Bool(
            stdout_tty,
        ) && es@[2].0@ == "stderr"@ && es@[2].1 == Prim::Bool(stderr_tty),
{
    let mut es: Vec<(String, Prim)> = Vec::new();
    es.push((String::from_str("stdin"), Prim::Bool(stdin_tty)));
    es.push((String::from_str("stdout"), Prim::Bool(stdout_tty)));
    es.push((String::from_str("stderr"), Prim::Bool(stderr_tty)));
    Value::Obj(es)
}

/// Shape of a tty-query value: the three stream entries, each a boolean.
pub open spec fn tty_shape(es: Seq<(String, Prim)>) -> bool {
    &&& es.len() == 3
    &&& es[0].0@ == "stdin"@ && es[0].1 is Bool
    &&& es[1].0@ == "stdout"@ && es[1].1 is Bool
    &&& es[2].0@ == "stderr"@ && es[2].1 is Bool
}

/// `tty-query`: generic-result, ungated, never fails; asks the host about
/// each standard stream independently.
pub fn op_is_tty() -> (r: OpResult)
    ensures
        r matches OpResult::Sync(Value::Obj(es)) && tty_shape(es@),
{
    let stdin_tty = stream_is_tty(StdStream::Stdin);
    let stdout_tty = stream_is_tty(StdStream::Stdout);
    let stderr_tty = stream_is_tty(StdStream::Stderr);
    OpResult::Sync(tty_value(stdin_tty, stdout_tty, stderr_tty))
}

} // verus!
