//! Access to parsed JSON documents.
//!
//! Token headers, token payloads and the provider's published key-set
//! document are all JSON. The document type is opaque here: what a
//! document holds is described by uninterpreted content functions, and
//! each accessor is a trusted wrapper whose contract speaks over them.

use vstd::prelude::*;
use serde_json::Value;

verus! {

#[verifier::external_type_specification]
#[verifier::external_body]
pub struct ExValue(Value);

/// The document a byte slice parses to, or nothing on a syntax error.
pub uninterp spec fn json_parsed(b: Seq<u8>) -> Option<Value>;

/// The member of an object document under the given key.
pub uninterp spec fn json_field(v: Value, key: Seq<char>) -> Option<Value>;

/// The characters of a string document.
pub uninterp spec fn json_string(v: Value) -> Option<Seq<char>>;

/// The value of an integer document that fits an unsigned 64-bit word.
pub uninterp spec fn json_uint(v: Value) -> Option<u64>;

/// The value of a boolean document.
pub uninterp spec fn json_truth(v: Value) -> Option<bool>;

/// Whether the document is the JSON null.
pub uninterp spec fn json_is_null(v: Value) -> bool;

/// The items of an array document.
pub uninterp spec fn json_elements(v: Value) -> Option<Seq<Value>>;

/// Relies on serde_json::from_slice for serde_json::Value: what a byte
/// slice parses to depends on the bytes alone.
#[verifier::external_body]
pub fn json_parse(bytes: &[u8]) -> (r: Option<Value>)
    ensures
        r == json_parsed(bytes@),
{
    serde_json::from_slice::<Value>(bytes).ok()
}

/// Relies on serde_json::Value::get: member lookup by key in an object
/// document, None on a non-object or an absent key.
#[verifier::external_body]
pub fn json_get(v: &Value, key: &str) -> (r: Option<Value>)
    ensures
        r == json_field(*v, key@),
{
    v.get(key).cloned()
}

/// Relies on serde_json::Value::as_str: the characters of a string
/// document, None for any other kind of document.
#[verifier::external_body]
pub fn json_as_str(v: &Value) -> (r: Option<String>)
    ensures
        r is Some <==> json_string(*v) is Some,
        r is Some ==> r.unwrap()@ == json_string(*v).unwrap(),
{
    v.as_str().map(|s| s.to_owned())
}

/// Relies on serde_json::Value::as_u64: the value of an integer document
/// representable as u64, None otherwise.
#[verifier::external_body]
pub fn json_as_u64(v: &Value) -> (r: Option<u64>)
    ensures
        r == json_uint(*v),
{
    v.as_u64()
}

/// Relies on serde_json::Value::as_bool: the value of a boolean document,
/// None for any other kind of document.
#[verifier::external_body]
pub fn json_as_bool(v: &Value) -> (r: Option<bool>)
    ensures
        r == json_truth(*v),
{
    v.as_bool()
}

/// Relies on serde_json::Value::is_null: whether the document is the
/// JSON null.
#[verifier::external_body]
pub fn json_null(v: &Value) -> (r: bool)
    ensures
        r == json_is_null(*v),
{
    v.is_null()
}

/// Relies on serde_json::Value::as_array: the items of an array document,
/// None for any other kind of document.
#[verifier::external_body]
pub fn json_as_array(v: &Value) -> (r: Option<Vec<Value>>)
    ensures
        r is Some <==> json_elements(*v) is Some,
        r is Some ==> r.unwrap()@ == json_elements(*v).unwrap(),
{
    v.as_array().cloned()
}

} // verus!
