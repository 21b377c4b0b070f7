//! Access to parsed JSON documents through `serde_json`.
//!
//! A `serde_json::Value` is opaque here: what the library reads of it is named
//! by the spec functions below.

use vstd::prelude::*;

verus! {

#[verifier::external_type_specification]
#[verifier::external_body]
pub struct ExValue(serde_json::Value);

#[verifier::external_type_specification]
#[verifier::external_body]
pub struct ExJsonError(serde_json::Error);

/// The member named `key` of an object, `Value::Null` where there is none.
pub uninterp spec fn json_member_of(v: serde_json::Value, key: Seq<char>) -> serde_json::Value;

/// The integer a value holds, where it is a number that fits in `i64`.
pub uninterp spec fn json_i64_of(v: serde_json::Value) -> Option<i64>;

/// The boolean a value holds, where it is one.
pub uninterp spec fn json_bool_of(v: serde_json::Value) -> Option<bool>;

/// The characters of a value, where it is a string.
pub uninterp spec fn json_str_of(v: serde_json::Value) -> Option<Seq<char>>;

/// The elements of a value, where it is an array.
pub uninterp spec fn json_array_of(v: serde_json::Value) -> Option<Seq<serde_json::Value>>;

/// The document that a text parses to, where it is JSON.
pub uninterp spec fn json_parse_of(text: Seq<char>) -> Option<serde_json::Value>;

/// The JSON text of a value, where it serialises.
pub uninterp spec fn json_text_of(v: serde_json::Value) -> Option<Seq<char>>;

/// Relies on `Value::as_i64`: the number held, where it fits in `i64`.
pub assume_specification[ serde_json::Value::as_i64 ](v: &serde_json::Value) -> (r: Option<i64>)
    ensures
        r == json_i64_of(*v),
;

/// Relies on `Value::as_bool`: the boolean held, where the value is one.
pub assume_specification[ serde_json::Value::as_bool ](v: &serde_json::Value) -> (r: Option<
    bool,
>)
    ensures
        r == json_bool_of(*v),
;

/// Relies on `Value::as_str`: the string held, where the value is one.
pub assume_specification<'a>[ serde_json::Value::as_str ](v: &'a serde_json::Value) -> (r: Option<
    &'a str,
>)
    ensures
        r.is_some() == json_str_of(*v).is_some(),
        r matches Some(s) ==> s@ == json_str_of(*v).unwrap(),
;

/// Relies on `Value::as_array`: the elements held, where the value is an array.
pub assume_specification<'a>[ serde_json::Value::as_array ](v: &'a serde_json::Value) -> (r: Option<
    &'a Vec<serde_json::Value>,
>)
    ensures
        r.is_some() == json_array_of(*v).is_some(),
        r matches Some(a) ==> a@ == json_array_of(*v).unwrap(),
;

/// Relies on `Index<&str> for serde_json::Value`: the member named `key` of an
/// object, or `Value::Null` where there is none. It never panics.
#[verifier::external_body]
pub(crate) fn member<'a>(v: &'a serde_json::Value, key: &str) -> (r: &'a serde_json::Value)
    ensures
        *r == json_member_of(*v, key@),
{
    &v[key]
}

/// Relies on `serde_json::from_str`: parses a whole document.
#[verifier::external_body]
pub(crate) fn parse_document(text: &str) -> (r: Result<serde_json::Value, serde_json::Error>)
    ensures
        r is Ok <==> json_parse_of(text@).is_some(),
        r matches Ok(v) ==> json_parse_of(text@) == Some(v),
{
    serde_json::from_str::<serde_json::Value>(text)
}

/// Relies on `serde_json::to_string`: serialises a value as JSON text.
#[verifier::external_body]
pub(crate) fn json_text(v: &serde_json::Value) -> (r: Result<String, serde_json::Error>)
    ensures
        r is Ok <==> json_text_of(*v).is_some(),
        r matches Ok(t) ==> json_text_of(*v) == Some(t@),
{
    serde_json::to_string(v)
}

} // verus!
