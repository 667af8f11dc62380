//! The JSON values that the modules report their statistics in
//! (`serde_json::Value`), and the conversions from plain values into them.

use vstd::prelude::*;

verus! {

/// `serde_json::Value`, carried through the library without looking inside.
#[verifier::external_type_specification]
#[verifier::external_body]
pub struct ExJsonValue(serde_json::Value);

/// The JSON value that `serde_json` makes of a boolean.
pub uninterp spec fn json_bool_of(b: bool) -> serde_json::Value;

/// The JSON value that `serde_json` makes of an unsigned integer.
pub uninterp spec fn json_u64_of(n: u64) -> serde_json::Value;

/// The JSON value that `serde_json` makes of a string.
pub uninterp spec fn json_string_of(s: Seq<char>) -> serde_json::Value;

/// The JSON object that `serde_json` makes of a list of key/value entries.
pub uninterp spec fn json_object_of(entries: Seq<(Seq<char>, serde_json::Value)>) -> serde_json::Value;

/// The entries of `v` with each key taken by its characters.
pub open spec fn entries_view(v: Seq<(String, serde_json::Value)>) -> Seq<(Seq<char>, serde_json::Value)> {
    v.map_values(|e: (String, serde_json::Value)| (e.0@, e.1))
}

/// `serde_json::Value::from(bool)` (`Value::Bool(b)`); the result is named, not described.
#[verifier::external_body]
pub(crate) fn json_bool(b: bool) -> (r: serde_json::Value)
    ensures
        r == json_bool_of(b),
{
    serde_json::Value::from(b)
}

/// `serde_json::Value::from(u64)` (a JSON number holding `n`); the result is named,
/// not described.
#[verifier::external_body]
pub(crate) fn json_u64(n: u64) -> (r: serde_json::Value)
    ensures
        r == json_u64_of(n),
{
    serde_json::Value::from(n)
}

/// `serde_json::Value::from(String)` (`Value::String(s)`); the result is named,
/// not described.
#[verifier::external_body]
pub(crate) fn json_string(s: String) -> (r: serde_json::Value)
    ensures
        r == json_string_of(s@),
{
    serde_json::Value::from(s)
}

/// `serde_json::Map::from_iter` over the entries, wrapped in `Value::Object`;
/// the resulting object is named, not described.
#[verifier::external_body]
pub(crate) fn json_object(entries: Vec<(String, serde_json::Value)>) -> (r: serde_json::Value)
    ensures
        r == json_object_of(entries_view(entries@)),
{
    serde_json::Value::Object(entries.into_iter().collect())
}

} // verus!
