//! JSON documents, as `serde_json` holds them.
//!
//! The library reads a `serde_json::Value` only through the functions of this
//! module. None of them is verified: each states what the method of
//! `serde_json` that it calls does, over [`Json`], the mathematical value that
//! a document stands for.

use vstd::prelude::*;

verus! {

/// What a JSON document holds.
pub ghost enum Json {
    Null,
    Bool(bool),
    /// A number that is held as an integer.
    Integer(int),
    /// A number that is held as a floating-point value.
    Real,
    Text(Seq<char>),
    Array(Seq<Json>),
    Object(Map<Seq<char>, Json>),
}

/// `serde_json::Value`, a JSON document in memory. Nothing is known of
/// what it holds but through [`document`].
#[verifier::external_type_specification]
#[verifier::external_body]
pub struct ExValue(serde_json::Value);

/// `serde_json::Error`, which says why a text was not accepted. The library
/// does not look into it.
#[verifier::external_type_specification]
#[verifier::external_body]
pub struct ExError(serde_json::Error);

/// The document that a `serde_json::Value` holds.
pub uninterp spec fn document(value: serde_json::Value) -> Json;

/// The document that `serde_json` reads from a JSON text, if it accepts the
/// text.
pub uninterp spec fn json_text(bytes: Seq<u8>) -> Option<Json>;

/// The documents of a sequence of values, one for one.
pub open spec fn documents(values: Seq<serde_json::Value>) -> Seq<Json> {
    values.map_values(|value: serde_json::Value| document(value))
}

/// The member of an object under `key`; `None` for a document that is no
/// object and for an object without that key.
pub open spec fn member_of(doc: Json, key: Seq<char>) -> Option<Json> {
    match doc {
        Json::Object(members) if members.contains_key(key) => Some(members[key]),
        _ => None,
    }
}

/// The integer that a document holds, where it fits 64 signed bits.
pub open spec fn integer_of(doc: Json) -> Option<i64> {
    match doc {
        Json::Integer(n) if i64::MIN <= n <= i64::MAX => Some(n as i64),
        _ => None,
    }
}

/// `serde_json::from_slice` at `serde_json::Value`: reads one JSON text that
/// spans all of `bytes`. The outcome depends on the bytes alone; an error
/// means that `serde_json` does not accept them.
#[verifier::external_body]
pub(crate) fn decode(bytes: &[u8]) -> (r: Result<serde_json::Value, serde_json::Error>)
    ensures
        match r {
            Ok(value) => json_text(bytes@) == Some(document(value)),
            Err(_) => json_text(bytes@) is None,
        },
{
    serde_json::from_slice::<serde_json::Value>(bytes)
}

/// `serde_json::Value::get` with a string key: the member of an object under
/// that key, and `None` where the value is no object or has no such member.
#[verifier::external_body]
pub(crate) fn member<'a>(value: &'a serde_json::Value, key: &str) -> (r: Option<
    &'a serde_json::Value,
>)
    ensures
        match r {
            Some(found) => member_of(document(*value), key@) == Some(document(*found)),
            None => member_of(document(*value), key@) is None,
        },
{
    value.get(key)
}

/// `serde_json::Value::is_null`: whether the value is JSON's `null`.
#[verifier::external_body]
pub(crate) fn is_null(value: &serde_json::Value) -> (r: bool)
    ensures
        r == (document(*value) is Null),
{
    value.is_null()
}

/// `serde_json::Value::is_object`: whether the value is an object.
#[verifier::external_body]
pub(crate) fn is_object(value: &serde_json::Value) -> (r: bool)
    ensures
        r == (document(*value) is Object),
{
    value.is_object()
}

/// `serde_json::Value::as_i64`: the number, where the value is a number that
/// is held as an integer and fits an `i64`; `None` for every other value.
#[verifier::external_body]
pub(crate) fn as_integer(value: &serde_json::Value) -> (r: Option<i64>)
    ensures
        r == integer_of(document(*value)),
{
    value.as_i64()
}

/// `serde_json::Value::as_str`: the text, where the value is a string.
#[verifier::external_body]
pub(crate) fn as_text<'a>(value: &'a serde_json::Value) -> (r: Option<&'a str>)
    ensures
        match r {
            Some(text) => document(*value) == Json::Text(text@),
            None => !(document(*value) is Text),
        },
{
    value.as_str()
}

/// `serde_json::Value::as_array`: the elements in their order, where the
/// value is an array.
#[verifier::external_body]
pub(crate) fn as_items<'a>(value: &'a serde_json::Value) -> (r: Option<&'a Vec<serde_json::Value>>)
    ensures
        match r {
            Some(items) => document(*value) == Json::Array(documents(items@)),
            None => !(document(*value) is Array),
        },
{
    value.as_array()
}

} // verus!
