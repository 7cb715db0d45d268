//! Properties that relate several operations, stated over the same spec
//! functions their contracts use.

use vstd::prelude::*;
use crate::env::{lemma_map_of_witness, map_of};
use crate::value::{all_str, str_entries, Prim};

verus! {

/// Sequential consistency of the environment operations on one caller:
/// after a granted `set-environment-variable` of `(k, v)` — which leaves
/// the environment model at `m.insert(k, v)` — a granted
/// `read-all-environment-variables` returns an object whose entries
/// snapshot that model, and some entry of it binds `k` to `v`.
pub proof fn lemma_env_read_after_write(
    es: Seq<(String, Prim)>,
    kv: Seq<(Seq<char>, Seq<char>)>,
    m: Map<Seq<char>, Seq<char>>,
    k: Seq<char>,
    v: Seq<char>,
)
    requires
        all_str(es),
        str_entries(es) == kv,
        map_of(kv) == m.insert(k, v),
    ensures
        exists|i: int| 0 <= i < es.len() && #[trigger] str_entries(es)[i] == (k, v),
{
    assert(map_of(kv).contains_key(k));
    assert(map_of(kv)[k] == v);
    lemma_map_of_witness(kv, k);
    let i = choose|i: int| 0 <= i < kv.len() && kv[i].0 == k && kv[i].1 == map_of(kv)[k];
    assert(str_entries(es)[i] == (k, v));
}

} // verus!
