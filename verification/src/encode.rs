//! Binary layout of response envelopes and of the generic structured values.
//!
//! Every encoder has an exact byte-level specification. An envelope is a
//! fixed header — the correlation id of the originating request, then a
//! response-kind tag — followed by the kind-specific payload. Strings are
//! laid out as a character count followed by each character as a
//! little-endian 32-bit scalar value.

use vstd::prelude::*;
use crate::value::{Prim, Value};

verus! {

/// Kind tag of a start-info response payload.
pub const KIND_START: u8 = 1;

/// Kind tag of a home-directory response payload.
pub const KIND_HOME_DIR: u8 = 2;

/// Kind tag of an empty acknowledgement.
pub const KIND_EMPTY: u8 = 3;

/// Kind tag of a generic structured-value payload.
pub const KIND_GENERIC: u8 = 4;

/// Kind tag of an error payload.
pub const KIND_ERROR: u8 = 5;

/// Little-endian four-byte layout of a 32-bit word.
pub open spec fn le32(n: u32) -> Seq<u8> {
    seq![
        (n & 0xff) as u8,
        ((n >> 8) & 0xff) as u8,
        ((n >> 16) & 0xff) as u8,
        ((n >> 24) & 0xff) as u8,
    ]
}

/// Little-endian eight-byte layout of a 64-bit word.
pub open spec fn le64(n: u64) -> Seq<u8> {
    seq![
        (n & 0xff) as u8,
        ((n >> 8) & 0xff) as u8,
        ((n >> 16) & 0xff) as u8,
        ((n >> 24) & 0xff) as u8,
        ((n >> 32) & 0xff) as u8,
        ((n >> 40) & 0xff) as u8,
        ((n >> 48) & 0xff) as u8,
        ((n >> 56) & 0xff) as u8,
    ]
}

/// The 32-bit word that a four-byte little-endian prefix denotes.
pub open spec fn u32_of_le(b: Seq<u8>) -> int
    recommends
        b.len() >= 4,
{
    b[0] + b[1] * 0x100 + b[2] * 0x10000 + b[3] * 0x1000000
}

/// A little-endian prefix reads back as the word it was built from.
pub proof fn lemma_le32_roundtrip(n: u32)
    ensures
        u32_of_le(le32(n)) == n,
{
    let b = le32(n);
    assert(b[0] == (n & 0xff) as u8);
    assert(b[1] == ((n >> 8) & 0xff) as u8);
    assert(b[2] == ((n >> 16) & 0xff) as u8);
    assert(b[3] == ((n >> 24) & 0xff) as u8);
    assert(((n & 0xff) as u8) + (((n >> 8) & 0xff) as u8) * 0x100 + (((n >> 16) & 0xff) as u8)
        * 0x10000 + (((n >> 24) & 0xff) as u8) * 0x1000000 == n) by (bit_vector);
}

/// One-byte layout of a boolean.
pub open spec fn enc_bool(b: bool) -> Seq<u8> {
    seq![if b { 1u8 } else { 0u8 }]
}

/// Four-byte layout of one character: its unicode scalar value.
pub open spec fn enc_char(c: char) -> Seq<u8> {
    le32(c as u32)
}

/// The characters of a string, each in its four-byte layout.
pub open spec fn cat_chars(s: Seq<char>) -> Seq<u8>
    decreases s.len(),
{
    if s.len() == 0 {
        Seq::empty()
    } else {
        cat_chars(s.drop_last()) + enc_char(s.last())
    }
}

/// Layout of a string: character count, then the characters.
pub open spec fn enc_str(s: Seq<char>) -> Seq<u8> {
    le64(s.len() as u64) + cat_chars(s)
}

/// Layout of an optional string: a presence byte, then the string if present.
pub open spec fn enc_opt_str(o: Option<String>) -> Seq<u8> {
    match o {
        Option::None => seq![0u8],
        Option::Some(s) => seq![1u8] + enc_str(s@),
    }
}

/// The strings of a list, one after the other.
pub open spec fn cat_strs(l: Seq<String>) -> Seq<u8>
    decreases l.len(),
{
    if l.len() == 0 {
        Seq::empty()
    } else {
        cat_strs(l.drop_last()) + enc_str(l.last()@)
    }
}

/// Layout of a string list: entry count, then the strings.
pub open spec fn enc_strs(l: Seq<String>) -> Seq<u8> {
    le64(l.len() as u64) + cat_strs(l)
}

/// Layout of a primitive: a tag byte, then the primitive's data.
pub open spec fn enc_prim(p: Prim) -> Seq<u8> {
    match p {
        Prim::Null => seq![0u8],
        Prim::Bool(b) => seq![1u8] + enc_bool(b),
        Prim::Int(n) => seq![2u8] + le64(n as u64),
        Prim::Str(s) => seq![3u8] + enc_str(s@),
    }
}

/// The entries of an object, each as key then primitive.
pub open spec fn cat_entries(es: Seq<(String, Prim)>) -> Seq<u8>
    decreases es.len(),
{
    if es.len() == 0 {
        Seq::empty()
    } else {
        cat_entries(es.drop_last()) + enc_str(es.last().0@) + enc_prim(es.last().1)
    }
}

/// Layout of a structured value: a primitive, or an object tag, entry
/// count, and the entries.
pub open spec fn enc_value(v: Value) -> Seq<u8> {
    match v {
        Value::Prim(p) => enc_prim(p),
        Value::Obj(es) => seq![4u8] + le64(es.len() as u64) + cat_entries(es@),
    }
}

/// Layout of a whole response: correlation id, kind tag, payload.
pub open spec fn envelope(cmd_id: u32, kind: u8, payload: Seq<u8>) -> Seq<u8> {
    le32(cmd_id) + seq![kind] + payload
}

/// The buffer is a well-formed envelope whose correlation id is `cmd_id`.
pub open spec fn correlates(b: Seq<u8>, cmd_id: u32) -> bool {
    b.len() >= 5 && u32_of_le(b) == cmd_id
}

/// Every response envelope is correlated to the request it answers: the
/// correlation id it was built with reads back out of its header.
pub broadcast proof fn lemma_envelope_correlation(cmd_id: u32, kind: u8, payload: Seq<u8>)
    ensures
        correlates(#[trigger] envelope(cmd_id, kind, payload), cmd_id),
{
    let b = envelope(cmd_id, kind, payload);
    assert(b[0] == le32(cmd_id)[0]);
    assert(b[1] == le32(cmd_id)[1]);
    assert(b[2] == le32(cmd_id)[2]);
    assert(b[3] == le32(cmd_id)[3]);
    lemma_le32_roundtrip(cmd_id);
}

/// Appends the little-endian bytes of `n`.
pub fn push_le32(out: &mut Vec<u8>, n: u32)
    ensures
        final(out)@ == old(out)@ + le32(n),
{
    out.push((n & 0xff) as u8);
    out.push(((n >> 8) & 0xff) as u8);
    out.push(((n >> 16) & 0xff) as u8);
    out.push(((n >> 24) & 0xff) as u8);
    assert(out@ =~= old(out)@ + le32(n));
}

/// Appends the little-endian bytes of `n`.
pub fn push_le64(out: &mut Vec<u8>, n: u64)
    ensures
        final(out)@ == old(out)@ + le64(n),
{
    out.push((n & 0xff) as u8);
    out.push(((n >> 8) & 0xff) as u8);
    out.push(((n >> 16) & 0xff) as u8);
    out.push(((n >> 24) & 0xff) as u8);
    out.push(((n >> 32) & 0xff) as u8);
    out.push(((n >> 40) & 0xff) as u8);
    out.push(((n >> 48) & 0xff) as u8);
    out.push(((n >> 56) & 0xff) as u8);
    assert(out@ =~= old(out)@ + le64(n));
}

/// Appends the presence byte of a boolean.
pub fn push_bool(out: &mut Vec<u8>, b: bool)
    ensures
        final(out)@ == old(out)@ + enc_bool(b),
{
    out.push(if b { 1u8 } else { 0u8 });
    assert(out@ =~= old(out)@ + enc_bool(b));
}

/// Appends the four-byte layout of one character.
pub fn push_char(out: &mut Vec<u8>, c: char)
    ensures
        final(out)@ == old(out)@ + enc_char(c),
{
    push_le32(out, c as u32);
}

/// Appends the layout of a string.
pub fn push_str(out: &mut Vec<u8>, s: &str)
    ensures
        final(out)@ == old(out)@ + enc_str(s@),
{
    let n = s.unicode_len();
    push_le64(out, n as u64);
    let ghost mid = out@;
    for i in 0..n
        invariant
            n == s@.len(),
            out@ == mid + cat_chars(s@.subrange(0, i as int)),
    {
        let c = s.get_char(i);
        push_char(out, c);
        proof {
            let pre = s@.subrange(0, i as int);
            let cur = s@.subrange(0, i + 1);
            assert(cur.drop_last() =~= pre);
            assert(cur.last() == s@[i as int]);
            assert(out@ =~= mid + cat_chars(cur));
        }
    }
    assert(s@.subrange(0, n as int) =~= s@);
    assert(out@ =~= old(out)@ + enc_str(s@));
}

/// Appends the layout of an optional string.
pub fn push_opt_str(out: &mut Vec<u8>, o: &Option<String>)
    ensures
        final(out)@ == old(out)@ + enc_opt_str(*o),
{
    match o {
        Option::None => {
            out.push(0u8);
            assert(out@ =~= old(out)@ + enc_opt_str(*o));
        },
        Option::Some(s) => {
            out.push(1u8);
            push_str(out, s.as_str());
            assert(out@ =~= old(out)@ + enc_opt_str(*o));
        },
    }
}

/// Appends the layout of a string list.
pub fn push_strs(out: &mut Vec<u8>, l: &Vec<String>)
    ensures
        final(out)@ == old(out)@ + enc_strs(l@),
{
    push_le64(out, l.len() as u64);
    let ghost mid = out@;
    for i in 0..l.len()
        invariant
            out@ == mid + cat_strs(l@.subrange(0, i as int)),
    {
        push_str(out, l[i].as_str());
        proof {
            let pre = l@.subrange(0, i as int);
            let cur = l@.subrange(0, i + 1);
            assert(cur.drop_last() =~= pre);
            assert(cur.last() == l@[i as int]);
            assert(out@ =~= mid + cat_strs(cur));
        }
    }
    assert(l@.subrange(0, l.len() as int) =~= l@);
    assert(out@ =~= old(out)@ + enc_strs(l@));
}

/// Appends the layout of a primitive.
pub fn push_prim(out: &mut Vec<u8>, p: &Prim)
    ensures
        final(out)@ == old(out)@ + enc_prim(*p),
{
    match p {
        Prim::Null => {
            out.push(0u8);
            assert(out@ =~= old(out)@ + enc_prim(*p));
        },
        Prim::Bool(b) => {
            out.push(1u8);
            push_bool(out, *b);
            assert(out@ =~= old(out)@ + enc_prim(*p));
        },
        Prim::Int(n) => {
            out.push(2u8);
            push_le64(out, *n as u64);
            assert(out@ =~= old(out)@ + enc_prim(*p));
        },
        Prim::Str(s) => {
            out.push(3u8);
            push_str(out, s.as_str());
            assert(out@ =~= old(out)@ + enc_prim(*p));
        },
    }
}

/// Encodes a structured value into its byte layout.
pub fn encode_value(v: &Value) -> (r: Vec<u8>)
    ensures
        r@ == enc_value(*v),
{
    let mut out: Vec<u8> = Vec::new();
    match v {
        Value::Prim(p) => {
            push_prim(&mut out, p);
        },
        Value::Obj(es) => {
            out.push(4u8);
            push_le64(&mut out, es.len() as u64);
            let ghost mid = out@;
            for i in 0..es.len()
                invariant
                    out@ == mid + cat_entries(es@.subrange(0, i as int)),
            {
                push_str(&mut out, es[i].0.as_str());
                push_prim(&mut out, &es[i].1);
                proof {
                    let pre = es@.subrange(0, i as int);
                    let cur = es@.subrange(0, i + 1);
                    assert(cur.drop_last() =~= pre);
                    assert(cur.last() == es@[i as int]);
                    assert(out@ =~= mid + cat_entries(cur));
                }
            }
            assert(es@.subrange(0, es.len() as int) =~= es@);
            assert(out@ =~= enc_value(*v));
        },
    }
    out
}

/// Builds a whole response envelope around an already-encoded payload.
pub fn encode_envelope(cmd_id: u32, kind: u8, payload: &Vec<u8>) -> (r: Vec<u8>)
    ensures
        r@ == envelope(cmd_id, kind, payload@),
        correlates(r@, cmd_id),
{
    let mut out: Vec<u8> = Vec::new();
    push_le32(&mut out, cmd_id);
    out.push(kind);
    let ghost mid = out@;
    for i in 0..payload.len()
        invariant
            out@ == mid + payload@.subrange(0, i as int),
    {
        out.push(payload[i]);
        assert(out@ =~= mid + payload@.subrange(0, i + 1));
    }
    assert(out@ =~= envelope(cmd_id, kind, payload@));
    proof {
        lemma_envelope_correlation(cmd_id, kind, payload@);
    }
    out
}

} // verus!
