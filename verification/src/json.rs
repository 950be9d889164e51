//! JSON documents as `serde_json` reads and writes them.
//!
//! Everything in this file that is marked `external_body`, and the three
//! functions without a body, is taken on trust from `serde_json`; the rest
//! of the crate is proved against these statements.

use vstd::prelude::*;

verus! {

/// `serde_json::Value`, a parsed JSON document. Verified code only carries
/// it; what it holds is read through `content`.
#[verifier::external_type_specification]
#[verifier::external_body]
pub struct ExValue(serde_json::Value);

/// `serde_json::Error`. Nothing is read from it.
#[verifier::external_type_specification]
#[verifier::external_body]
pub struct ExError(serde_json::Error);

/// What a JSON document holds.
///
/// A number is an `Integer` when `serde_json` keeps it as a `u64` or an
/// `i64`, so between `i64::MIN` and `u64::MAX`; every other number is a
/// `Float`, whose value this model leaves out.
pub enum Json {
    Null,
    Bool(bool),
    Integer(int),
    Float,
    Text(Seq<char>),
    Array(Seq<Json>),
    Object(Map<Seq<char>, Json>),
}

/// What the document `value` holds.
pub uninterp spec fn content(value: serde_json::Value) -> Json;

/// What `serde_json::from_slice` reads from `bytes` as a
/// `serde_json::Value`: the content of the document, or `None` where the
/// bytes are not one JSON document.
pub uninterp spec fn parsed(bytes: Seq<u8>) -> Option<Json>;

/// What `serde_json::to_string` returns for the string `text`: the JSON
/// string literal, quotes and escapes included, or `None` where it fails.
pub uninterp spec fn quoted(text: Seq<char>) -> Option<Seq<char>>;

/// Calls `serde_json::from_slice` for a `serde_json::Value`. On `Ok` the
/// document holds `parsed(bytes@)`; on `Err` the bytes are not a JSON
/// document.
#[verifier::external_body]
pub(crate) fn parse(bytes: &[u8]) -> (result: Result<serde_json::Value, serde_json::Error>)
    ensures
        match result {
            Ok(value) => parsed(bytes@) == Some(content(value)),
            Err(_) => parsed(bytes@) is None,
        },
{
    serde_json::from_slice::<serde_json::Value>(bytes)
}

/// Calls `serde_json::Value::get` with a string key: the member of that
/// name where the document is an object that has one, `None` otherwise.
#[verifier::external_body]
pub(crate) fn member<'a>(value: &'a serde_json::Value, key: &str) -> (result: Option<
    &'a serde_json::Value,
>)
    ensures
        match result {
            Some(found) => content(*value) matches Json::Object(members)
                && members.contains_key(key@) && content(*found) == members[key@],
            None => !(content(*value) matches Json::Object(members) && members.contains_key(key@)),
        },
{
    value.get(key)
}

/// Calls `serde_json::Value::as_str`: the text of a JSON string, `None`
/// for every other document.
#[verifier::external_body]
pub(crate) fn text<'a>(value: &'a serde_json::Value) -> (result: Option<&'a str>)
    ensures
        match result {
            Some(found) => content(*value) == Json::Text(found@),
            None => !(content(*value) is Text),
        },
{
    value.as_str()
}

/// Calls `serde_json::Value::as_i64`: the number where the document is an
/// integer that fits an `i64`, `None` otherwise.
#[verifier::external_body]
pub(crate) fn integer(value: &serde_json::Value) -> (result: Option<i64>)
    ensures
        match result {
            Some(found) => content(*value) == Json::Integer(found as int),
            None => !(content(*value) matches Json::Integer(n) && i64::MIN <= n <= i64::MAX),
        },
{
    value.as_i64()
}

/// Calls `serde_json::Value::as_bool`: the value of a JSON boolean, `None`
/// for every other document.
#[verifier::external_body]
pub(crate) fn boolean(value: &serde_json::Value) -> (result: Option<bool>)
    ensures
        match result {
            Some(found) => content(*value) == Json::Bool(found),
            None => !(content(*value) is Bool),
        },
{
    value.as_bool()
}

/// Calls `serde_json::to_string` on a string. The result is
/// `quoted(text@)`: the same string gives the same literal or fails alike.
/// Nothing is said of when it fails.
#[verifier::external_body]
pub(crate) fn quote(text: &str) -> (result: Result<String, serde_json::Error>)
    ensures
        match result {
            Ok(literal) => quoted(text@) == Some(literal@),
            Err(_) => quoted(text@) is None,
        },
{
    serde_json::to_string(text)
}

} // verus!
