//! Byte-level checks of the envelope and value encoders against
//! independently hand-built expectations.

use os_bridge::dispatch::{encode_completion, error_response};
use os_bridge::encode::{
    encode_envelope, encode_value, KIND_ERROR, KIND_GENERIC,
};
use os_bridge::gate::{OpError, Resource};
use os_bridge::value::{Prim, Value};

fn le32v(n: u32) -> Vec<u8> {
    vec![
        (n & 0xff) as u8,
        ((n >> 8) & 0xff) as u8,
        ((n >> 16) & 0xff) as u8,
        ((n >> 24) & 0xff) as u8,
    ]
}

fn le64v(n: u64) -> Vec<u8> {
    let mut out = Vec::new();
    for i in 0..8 {
        out.push(((n >> (8 * i)) & 0xff) as u8);
    }
    out
}

fn str_bytes(s: &str) -> Vec<u8> {
    let chars: Vec<char> = s.chars().collect();
    let mut out = le64v(chars.len() as u64);
    for c in chars {
        out.extend(le32v(c as u32));
    }
    out
}

fn envelope_bytes(cmd_id: u32, kind: u8, payload: &[u8]) -> Vec<u8> {
    let mut out = le32v(cmd_id);
    out.push(kind);
    out.extend_from_slice(payload);
    out
}

#[test]
fn envelope_layout() {
    let payload = vec![0xAAu8, 0xBB];
    let b = encode_envelope(0x01020304, 9, &payload);
    assert_eq!(b, vec![0x04, 0x03, 0x02, 0x01, 9, 0xAA, 0xBB]);
}

#[test]
fn null_and_bool_layout() {
    assert_eq!(encode_value(&Value::Prim(Prim::Null)), vec![0]);
    assert_eq!(encode_value(&Value::Prim(Prim::Bool(true))), vec![1, 1]);
    assert_eq!(encode_value(&Value::Prim(Prim::Bool(false))), vec![1, 0]);
}

#[test]
fn int_layout() {
    let mut expected = vec![2u8];
    expected.extend(le64v(7));
    assert_eq!(encode_value(&Value::Prim(Prim::Int(7))), expected);
    let mut negative = vec![2u8];
    negative.extend(le64v((-2i64) as u64));
    assert_eq!(encode_value(&Value::Prim(Prim::Int(-2))), negative);
}

#[test]
fn str_layout() {
    let mut expected = vec![3u8];
    expected.extend(str_bytes("hi"));
    assert_eq!(encode_value(&Value::Prim(Prim::Str(String::from("hi")))), expected);
}

#[test]
fn obj_layout() {
    let v = Value::Obj(vec![(String::from("a"), Prim::Bool(true))]);
    let mut expected = vec![4u8];
    expected.extend(le64v(1));
    expected.extend(str_bytes("a"));
    expected.extend(vec![1u8, 1u8]);
    assert_eq!(encode_value(&v), expected);
}

#[test]
fn error_response_layout() {
    let b = error_response(5, &OpError::PermissionDenied(Resource::EnvRead));
    let mut payload = vec![1u8, 1u8];
    payload.extend(str_bytes("permission denied to read the environment"));
    assert_eq!(b, envelope_bytes(5, KIND_ERROR, &payload));
}

#[test]
fn completion_carries_correlation_id() {
    let b = encode_completion(11, Ok(Value::Prim(Prim::Int(-2))));
    let mut payload = vec![2u8];
    payload.extend(le64v((-2i64) as u64));
    assert_eq!(b, envelope_bytes(11, KIND_GENERIC, &payload));
    let e = encode_completion(12, Err(OpError::PermissionDenied(Resource::EnvWrite)));
    assert_eq!(&e[0..4], &le32v(12)[..]);
    assert_eq!(e[4], KIND_ERROR);
}

#[test]
fn error_messages_name_their_case() {
    assert_eq!(
        OpError::PermissionDenied(Resource::EnvWrite).message(),
        "permission denied to write the environment"
    );
    assert_eq!(
        OpError::Invalid(os_bridge::gate::BadRequest::UnknownOp).message(),
        "unknown operation identifier"
    );
}
