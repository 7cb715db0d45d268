//! The generic structured-value shape returned by uniform-envelope handlers.

use vstd::prelude::*;

verus! {

/// A primitive of the self-describing structured-value format.
pub enum Prim {
    Null,
    Bool(bool),
    Int(i64),
    Str(String),
}

/// A generic structured value: a primitive, or a flat object of named
/// primitives. Uniform-envelope handlers return one of these; the router
/// encodes it with the generic encoder, never with the binary-schema one.
pub enum Value {
    Prim(Prim),
    Obj(Vec<(String, Prim)>),
}

/// Every entry of the object holds a string primitive.
pub open spec fn all_str(es: Seq<(String, Prim)>) -> bool {
    forall|i: int| 0 <= i < es.len() ==> es[i].1 is Str
}

/// The key/value views of an object whose entries are all strings.
pub open spec fn str_entries(es: Seq<(String, Prim)>) -> Seq<(Seq<char>, Seq<char>)>
    recommends
        all_str(es),
{
    es.map_values(|e: (String, Prim)| (e.0@, e.1->Str_0@))
}

} // verus!
