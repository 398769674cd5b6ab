//! A mathematical model of parsed JSON values, and the trusted boundary to
//! `serde_json`.
//!
//! A `serde_json::Value` is opaque to the verifier, so the module gives every
//! such value a mathematical tree, `JsonRep`, through the uninterpreted
//! function `rep`. Each accessor of `serde_json::Value` that the library
//! calls gets a small trusted wrapper whose contract says, over `rep`, what
//! the accessor's source shows. All logic that walks a value is verified
//! against those contracts.

use vstd::prelude::*;

verus! {

#[verifier::external_type_specification]
#[verifier::external_body]
pub struct ExValue(serde_json::Value);

/// The mathematical shape of one JSON value: the tree a parsed body holds,
/// with strings as character sequences, object members as a map from member
/// name to member value, and numbers split into those with an `i64` value
/// and the rest (fractional numbers, and integers above `i64`'s range).
pub enum JsonRep {
    Null,
    Bool { b: bool },
    Int { i: i64 },
    OtherNumber,
    Str { text: Seq<char> },
    Arr { items: Seq<JsonRep> },
    Obj { members: Map<Seq<char>, JsonRep> },
}

/// The tree that a `serde_json::Value` holds.
pub uninterp spec fn rep(v: serde_json::Value) -> JsonRep;

/// What `serde_json::from_str` makes of a piece of text: `None` where the
/// text is not acceptable JSON, otherwise the tree of the parsed value. The
/// JSON grammar itself is the parser's affair and is not restated here.
pub uninterp spec fn json_of(s: Seq<char>) -> Option<JsonRep>;

/// Relies on `serde_json::from_str::<Value>`: whether text parses, and to
/// which value, depends on the text alone.
#[verifier::external_body]
pub(crate) fn parse_json_text(s: &str) -> (r: Option<serde_json::Value>)
    ensures
        r is Some <==> json_of(s@) is Some,
        r matches Some(v) ==> json_of(s@) == Some(rep(v)),
{
    serde_json::from_str::<serde_json::Value>(s).ok()
}

/// Relies on `serde_json::Value::as_array`: `Some` exactly on an array,
/// handing out the elements in their order.
#[verifier::external_body]
pub(crate) fn value_as_array(v: &serde_json::Value) -> (r: Option<&Vec<serde_json::Value>>)
    ensures
        r is Some <==> rep(*v) is Arr,
        r matches Some(a) ==> a@.map_values(|x: serde_json::Value| rep(x)) == rep(*v)->items,
{
    v.as_array()
}

/// Relies on `serde_json::Value::get` with a string key: member lookup on an
/// object, `None` on a missing member and on any non-object value.
#[verifier::external_body]
pub(crate) fn value_get_member<'a>(v: &'a serde_json::Value, key: &str) -> (r: Option<
    &'a serde_json::Value,
>)
    ensures
        r is Some <==> (rep(*v) is Obj && rep(*v)->members.dom().contains(key@)),
        r matches Some(m) ==> rep(*v)->members[key@] == rep(*m),
{
    v.get(key)
}

/// Relies on `serde_json::Value::as_str`: `Some` exactly on a string.
#[verifier::external_body]
pub(crate) fn value_as_str(v: &serde_json::Value) -> (r: Option<&str>)
    ensures
        r is Some <==> rep(*v) is Str,
        r matches Some(s) ==> s@ == rep(*v)->text,
{
    v.as_str()
}

/// Relies on `serde_json::Value::as_i64`: `Some` exactly on a number that
/// has an `i64` representation.
#[verifier::external_body]
pub(crate) fn value_as_i64(v: &serde_json::Value) -> (r: Option<i64>)
    ensures
        r is Some <==> rep(*v) is Int,
        r matches Some(n) ==> n == rep(*v)->i,
{
    v.as_i64()
}

/// Relies on `serde_json::Value::as_bool`: `Some` exactly on a boolean.
#[verifier::external_body]
pub(crate) fn value_as_bool(v: &serde_json::Value) -> (r: Option<bool>)
    ensures
        r is Some <==> rep(*v) is Bool,
        r matches Some(b) ==> b == rep(*v)->b,
{
    v.as_bool()
}

} // verus!
