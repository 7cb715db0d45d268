//! End-to-end checks of the dispatch router: correlation, gating,
//! environment consistency, termination, and the error taxonomy.

use os_bridge::dispatch::dispatch;
use os_bridge::encode::{KIND_EMPTY, KIND_ERROR, KIND_GENERIC, KIND_HOME_DIR, KIND_START};
use os_bridge::env::EnvTable;
use os_bridge::gate::Gate;
use os_bridge::request::{
    Dispatched, Reply, Request, OP_ENV, OP_EXEC_PATH, OP_EXIT, OP_HOME_DIR, OP_IS_TTY, OP_SET_ENV,
    OP_START,
};
use os_bridge::state::{LogLevel, SandboxState};

fn le32v(n: u32) -> Vec<u8> {
    vec![
        (n & 0xff) as u8,
        ((n >> 8) & 0xff) as u8,
        ((n >> 16) & 0xff) as u8,
        ((n >> 24) & 0xff) as u8,
    ]
}

fn le64v(n: u64) -> Vec<u8> {
    let mut out = Vec::new();
    for i in 0..8 {
        out.push(((n >> (8 * i)) & 0xff) as u8);
    }
    out
}

fn str_bytes(s: &str) -> Vec<u8> {
    let chars: Vec<char> = s.chars().collect();
    let mut out = le64v(chars.len() as u64);
    for c in chars {
        out.extend(le32v(c as u32));
    }
    out
}

fn envelope_bytes(cmd_id: u32, kind: u8, payload: &[u8]) -> Vec<u8> {
    let mut out = le32v(cmd_id);
    out.push(kind);
    out.extend_from_slice(payload);
    out
}

fn error_bytes(cmd_id: u32, code: u8, sub: u8, msg: &str) -> Vec<u8> {
    let mut payload = vec![code, sub];
    payload.extend(str_bytes(msg));
    envelope_bytes(cmd_id, KIND_ERROR, &payload)
}

fn test_state(env_read: bool, env_write: bool) -> SandboxState {
    SandboxState {
        argv: vec![String::from("prog"), String::from("script")],
        main_module: Some(String::from("file:///main.ts")),
        log_level: Some(LogLevel::Info),
        version_flag: false,
        xeval_delim: None,
        cwd: String::from("/work"),
        pid: 42,
        exe_path: Some(String::from("/usr/bin/host")),
        runtime_version: String::from("1.0.0"),
        engine_version: String::from("7.4"),
        no_color: false,
        gate: Gate { env_read, env_write },
    }
}

fn plain_req(op_id: u32, cmd_id: u32) -> Request {
    Request { cmd_id, op_id, key: None, value: None, code: None, payload: None }
}

fn response_of(d: Dispatched) -> Vec<u8> {
    match d.reply {
        Reply::Response(b) => b,
        _ => panic!("expected an encoded response"),
    }
}

#[test]
fn start_response_bytes() {
    let state = test_state(false, false);
    let mut env = EnvTable::new();
    let b = response_of(dispatch(&state, &mut env, &plain_req(OP_START, 3)));
    let mut payload = str_bytes("/work");
    payload.extend(le32v(42));
    payload.extend(le64v(2));
    payload.extend(str_bytes("prog"));
    payload.extend(str_bytes("script"));
    payload.push(1);
    payload.extend(str_bytes("file:///main.ts"));
    payload.extend(str_bytes("1.0.0"));
    payload.extend(str_bytes("7.4"));
    payload.push(0); // debug flag: Info is not Debug
    payload.push(0); // version flag
    payload.push(0); // no_color
    payload.push(0); // no delimiter
    assert_eq!(b, envelope_bytes(3, KIND_START, &payload));
}

#[test]
fn start_debug_flag_set() {
    let mut state = test_state(false, false);
    state.log_level = Some(LogLevel::Debug);
    let mut env = EnvTable::new();
    let b = response_of(dispatch(&state, &mut env, &plain_req(OP_START, 1)));
    // debug, version-flag, no-color and absent-delimiter bytes end the payload
    assert_eq!(b[b.len() - 4], 1);
}

#[test]
fn home_dir_granted_reports_host_answer() {
    let state = test_state(true, false);
    let mut env = EnvTable::new();
    let b = response_of(dispatch(&state, &mut env, &plain_req(OP_HOME_DIR, 8)));
    let home = dirs::home_dir()
        .and_then(|p| p.into_os_string().into_string().ok())
        .unwrap_or_default();
    assert_eq!(b, envelope_bytes(8, KIND_HOME_DIR, &str_bytes(&home)));
}

#[test]
fn home_dir_denied() {
    let state = test_state(false, false);
    let mut env = EnvTable::new();
    let b = response_of(dispatch(&state, &mut env, &plain_req(OP_HOME_DIR, 21)));
    assert_eq!(b, error_bytes(21, 1, 1, "permission denied to read the environment"));
}

#[test]
fn set_env_then_read_shows_new_value() {
    let state = test_state(true, true);
    let mut env = EnvTable::new();
    let mut set = plain_req(OP_SET_ENV, 1);
    set.key = Some(String::from("FOO"));
    set.value = Some(String::from("bar"));
    let d = dispatch(&state, &mut env, &set);
    match &d.env_write {
        Some((k, v)) => {
            assert_eq!(k, "FOO");
            assert_eq!(v, "bar");
        },
        None => panic!("expected an environment write to mirror"),
    }
    assert_eq!(response_of(d), envelope_bytes(1, KIND_EMPTY, &[]));
    let b = response_of(dispatch(&state, &mut env, &plain_req(OP_ENV, 2)));
    let mut payload = vec![4u8];
    payload.extend(le64v(1));
    payload.extend(str_bytes("FOO"));
    payload.push(3);
    payload.extend(str_bytes("bar"));
    assert_eq!(b, envelope_bytes(2, KIND_GENERIC, &payload));
}

#[test]
fn set_env_overwrites_existing_binding() {
    let state = test_state(true, true);
    let mut env = EnvTable::new();
    for (cmd, val) in [(1u32, "one"), (2u32, "two")] {
        let mut set = plain_req(OP_SET_ENV, cmd);
        set.key = Some(String::from("K"));
        set.value = Some(String::from(val));
        dispatch(&state, &mut env, &set);
    }
    let b = response_of(dispatch(&state, &mut env, &plain_req(OP_ENV, 3)));
    let mut payload = vec![4u8];
    payload.extend(le64v(1));
    payload.extend(str_bytes("K"));
    payload.push(3);
    payload.extend(str_bytes("two"));
    assert_eq!(b, envelope_bytes(3, KIND_GENERIC, &payload));
}

#[test]
fn set_env_denied_leaves_environment_unread_and_unchanged() {
    let state = test_state(true, false);
    let mut env = EnvTable::new();
    let mut set = plain_req(OP_SET_ENV, 7);
    set.key = Some(String::from("FOO"));
    set.value = Some(String::from("bar"));
    let d = dispatch(&state, &mut env, &set);
    assert!(d.env_write.is_none());
    assert_eq!(
        response_of(d),
        error_bytes(7, 1, 2, "permission denied to write the environment")
    );
    let b = response_of(dispatch(&state, &mut env, &plain_req(OP_ENV, 9)));
    let mut payload = vec![4u8];
    payload.extend(le64v(0));
    assert_eq!(b, envelope_bytes(9, KIND_GENERIC, &payload));
}

#[test]
fn env_read_denied_is_an_error_with_matching_correlation() {
    let state = test_state(false, true);
    let mut env = EnvTable::new();
    let b = response_of(dispatch(&state, &mut env, &plain_req(OP_ENV, 42)));
    assert_eq!(&b[0..4], &le32v(42)[..]);
    assert_eq!(b, error_bytes(42, 1, 1, "permission denied to read the environment"));
}

#[test]
fn set_env_missing_field() {
    let state = test_state(true, true);
    let mut env = EnvTable::new();
    let mut set = plain_req(OP_SET_ENV, 4);
    set.key = Some(String::from("FOO"));
    let b = response_of(dispatch(&state, &mut env, &set));
    assert_eq!(b, error_bytes(4, 2, 2, "a required request field is missing"));
}

#[test]
fn exit_terminates_with_its_code() {
    let state = test_state(false, false);
    let mut env = EnvTable::new();
    let mut req = plain_req(OP_EXIT, 5);
    req.code = Some(7);
    let d = dispatch(&state, &mut env, &req);
    match d.reply {
        Reply::Terminate(c) => assert_eq!(c, 7),
        _ => panic!("expected a termination outcome, not a response"),
    }
}

#[test]
fn exit_without_code_is_a_request_error() {
    let state = test_state(false, false);
    let mut env = EnvTable::new();
    let b = response_of(dispatch(&state, &mut env, &plain_req(OP_EXIT, 6)));
    assert_eq!(b, error_bytes(6, 2, 2, "a required request field is missing"));
}

#[test]
fn unknown_op_is_a_request_error() {
    let state = test_state(true, true);
    let mut env = EnvTable::new();
    let b = response_of(dispatch(&state, &mut env, &plain_req(99, 13)));
    assert_eq!(b, error_bytes(13, 2, 1, "unknown operation identifier"));
}

#[test]
fn unexpected_payload_is_a_request_error() {
    let state = test_state(true, true);
    let mut env = EnvTable::new();
    let mut req = plain_req(OP_START, 14);
    req.payload = Some(vec![1, 2, 3]);
    let b = response_of(dispatch(&state, &mut env, &req));
    assert_eq!(b, error_bytes(14, 2, 3, "this operation takes no raw payload"));
}

#[test]
fn exec_path_resolves_dot_segments() {
    let mut state = test_state(true, false);
    state.exe_path = Some(String::from("/usr/./bin/tool"));
    let mut env = EnvTable::new();
    let b = response_of(dispatch(&state, &mut env, &plain_req(OP_EXEC_PATH, 30)));
    let mut payload = vec![3u8];
    payload.extend(str_bytes("/usr/bin/tool"));
    assert_eq!(b, envelope_bytes(30, KIND_GENERIC, &payload));
}

#[test]
fn exec_path_rejects_relative_path() {
    let mut state = test_state(true, false);
    state.exe_path = Some(String::from("usr/tool"));
    let mut env = EnvTable::new();
    let b = response_of(dispatch(&state, &mut env, &plain_req(OP_EXEC_PATH, 31)));
    assert_eq!(b, error_bytes(31, 3, 2, "the executable path could not be canonicalized"));
}

#[test]
fn exec_path_rejects_parent_segments() {
    let mut state = test_state(true, false);
    state.exe_path = Some(String::from("/usr/../bin/tool"));
    let mut env = EnvTable::new();
    let b = response_of(dispatch(&state, &mut env, &plain_req(OP_EXEC_PATH, 32)));
    assert_eq!(b, error_bytes(32, 3, 2, "the executable path could not be canonicalized"));
}

#[test]
fn exec_path_unresolved_host() {
    let mut state = test_state(true, false);
    state.exe_path = None;
    let mut env = EnvTable::new();
    let b = response_of(dispatch(&state, &mut env, &plain_req(OP_EXEC_PATH, 33)));
    assert_eq!(b, error_bytes(33, 3, 1, "the host could not resolve its executable path"));
}

#[test]
fn exec_path_denied() {
    let state = test_state(false, false);
    let mut env = EnvTable::new();
    let b = response_of(dispatch(&state, &mut env, &plain_req(OP_EXEC_PATH, 34)));
    assert_eq!(b, error_bytes(34, 1, 1, "permission denied to read the environment"));
}

#[test]
fn tty_query_shape() {
    let state = test_state(false, false);
    let mut env = EnvTable::new();
    let b = response_of(dispatch(&state, &mut env, &plain_req(OP_IS_TTY, 3)));
    assert_eq!(&b[0..4], &le32v(3)[..]);
    assert_eq!(b[4], KIND_GENERIC);
    let expected_len = 5 + 1 + 8 + (str_bytes("stdin").len() + 2) + (str_bytes("stdout").len() + 2)
        + (str_bytes("stderr").len() + 2);
    assert_eq!(b.len(), expected_len);
}
