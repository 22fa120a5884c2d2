//! The engine's scalar value type as it crosses the boundary, and its
//! marshaling to the transport's native scalars.
//!
//! The engine's value is a closed tagged scalar: string, boolean, or
//! floating-point number. Numbers cross the boundary as their decimal text,
//! rendered once at the trusted edge (see `engine`); the logic here never
//! computes on them. Marshaling is total over the three variants and
//! lossless: see `lemma_marshal_roundtrip` and `lemma_unmarshal_roundtrip`.

use vstd::prelude::*;

use crate::json::JsonScalar;

verus! {

/// A scalar value of the engine: a string, a boolean, or a number carried
/// as its decimal text.
#[derive(Debug, Clone, PartialEq)]
pub enum Value {
    Str(String),
    Bool(bool),
    Num(String),
}

/// The transport scalar a value marshals to: string to string, boolean to
/// boolean, number to number. No variant is dropped or coerced.
pub open spec fn marshal_spec(v: Value) -> JsonScalar {
    match v {
        Value::Str(s) => JsonScalar::Str(s),
        Value::Bool(b) => JsonScalar::Bool(b),
        Value::Num(t) => JsonScalar::Num(t),
    }
}

/// The value a transport scalar unmarshals back to.
pub open spec fn unmarshal_spec(j: JsonScalar) -> Value {
    match j {
        JsonScalar::Str(s) => Value::Str(s),
        JsonScalar::Bool(b) => Value::Bool(b),
        JsonScalar::Num(t) => Value::Num(t),
    }
}

/// Marshal a value for transport.
pub fn json_value_from_val(v: &Value) -> (j: JsonScalar)
    ensures
        j == marshal_spec(*v),
{
    match v {
        Value::Str(s) => JsonScalar::Str(s.clone()),
        Value::Bool(b) => JsonScalar::Bool(*b),
        Value::Num(t) => JsonScalar::Num(t.clone()),
    }
}

/// Unmarshal a transport scalar back to a value, as a host would.
pub fn val_from_json_value(j: &JsonScalar) -> (v: Value)
    ensures
        v == unmarshal_spec(*j),
{
    match j {
        JsonScalar::Str(s) => Value::Str(s.clone()),
        JsonScalar::Bool(b) => Value::Bool(*b),
        JsonScalar::Num(t) => Value::Num(t.clone()),
    }
}

/// Law: marshaling and then unmarshaling reproduces the original value
/// exactly, for each of the three variants.
pub proof fn lemma_marshal_roundtrip(v: Value)
    ensures
        unmarshal_spec(marshal_spec(v)) == v,
{
}

/// Law: unmarshaling and then marshaling reproduces the transport scalar
/// exactly — the correspondence is one-to-one.
pub proof fn lemma_unmarshal_roundtrip(j: JsonScalar)
    ensures
        marshal_spec(unmarshal_spec(j)) == j,
{
}

} // verus!
