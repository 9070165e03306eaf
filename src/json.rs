use vstd::prelude::*;
use vstd::string::*;

use crate::error::DecodeCause;

verus! {

#[verifier::external_type_specification]
#[verifier::external_body]
pub struct ExJsonValue(serde_json::Value);

#[verifier::external_type_specification]
#[verifier::external_body]
pub struct ExJsonError(serde_json::Error);

/// Whether `text` is a well-formed JSON document, as serde_json reads it.
pub uninterp spec fn json_well_formed(text: Seq<char>) -> bool;

/// Relies on `serde_json::from_str::<serde_json::Value>`: it reads any
/// well-formed JSON document and fails on every other text.
#[verifier::external_body]
pub(crate) fn parse_json(text: &str) -> (r: Result<serde_json::Value, serde_json::Error>)
    ensures
        r is Ok <==> json_well_formed(text@),
{
    serde_json::from_str::<serde_json::Value>(text)
}

/// The string member `key` of the JSON document `text`, if `text` is
/// well formed and has one.
pub uninterp spec fn json_str_member(text: Seq<char>, key: Seq<char>) -> Option<Seq<char>>;

/// The member `key` of the JSON document `text` as an `i64`, if `text` is
/// well formed and has an integer member there that fits.
pub uninterp spec fn json_i64_member(text: Seq<char>, key: Seq<char>) -> Option<i64>;

/// The member `key` of the JSON document `text` as a `u64`, if `text` is
/// well formed and has an integer member there that fits.
pub uninterp spec fn json_u64_member(text: Seq<char>, key: Seq<char>) -> Option<u64>;

/// Relies on `serde_json::from_str::<serde_json::Value>`, `Value::get` and
/// `Value::as_str`: the string member `key` of the document `text`.
#[verifier::external_body]
pub(crate) fn str_member_of(text: &str, key: &str) -> (r: Option<String>)
    ensures
        json_str_member(text@, key@) == (match r {
            Some(v) => Some(v@),
            None => None::<Seq<char>>,
        }),
        r is Some ==> json_well_formed(text@),
{
    match serde_json::from_str::<serde_json::Value>(text) {
        Ok(doc) => doc.get(key).and_then(serde_json::Value::as_str).map(String::from),
        Err(_) => None,
    }
}

/// Relies on `serde_json::from_str::<serde_json::Value>`, `Value::get` and
/// `Value::as_i64`: the signed integer member `key` of the document `text`.
#[verifier::external_body]
pub(crate) fn i64_member_of(text: &str, key: &str) -> (r: Option<i64>)
    ensures
        json_i64_member(text@, key@) == r,
        r is Some ==> json_well_formed(text@),
{
    match serde_json::from_str::<serde_json::Value>(text) {
        Ok(doc) => doc.get(key).and_then(serde_json::Value::as_i64),
        Err(_) => None,
    }
}

/// Relies on `serde_json::from_str::<serde_json::Value>`, `Value::get` and
/// `Value::as_u64`: the unsigned integer member `key` of the document `text`.
#[verifier::external_body]
pub(crate) fn u64_member_of(text: &str, key: &str) -> (r: Option<u64>)
    ensures
        json_u64_member(text@, key@) == r,
        r is Some ==> json_well_formed(text@),
{
    match serde_json::from_str::<serde_json::Value>(text) {
        Ok(doc) => doc.get(key).and_then(serde_json::Value::as_u64),
        Err(_) => None,
    }
}

} // verus!

verus! {

/// Checks that `text` is a well-formed JSON document, mapping a failure to
/// its cause.
pub fn check_document(text: &str) -> (r: Result<(), DecodeCause>)
    ensures
        r is Ok <==> json_well_formed(text@),
        r matches Err(c) ==> c is MalformedJson,
{
    match parse_json(text) {
        Ok(_) => Ok(()),
        Err(e) => Err(DecodeCause::MalformedJson { detail: e.to_string() }),
    }
}

/// The cause reported for a member that is absent or of the wrong type.
pub open spec fn is_missing_field(c: DecodeCause, key: Seq<char>) -> bool {
    c matches DecodeCause::MissingField { field } && field@ == key
}

/// The string member `key` of the document `text`.
pub fn string_member(text: &str, key: &str) -> (r: Result<String, DecodeCause>)
    ensures
        match json_str_member(text@, key@) {
            Some(v) => r matches Ok(s) && s@ == v,
            None => r matches Err(c) && is_missing_field(c, key@),
        },
{
    match str_member_of(text, key) {
        Some(s) => Ok(s),
        None => Err(DecodeCause::MissingField { field: String::from_str(key) }),
    }
}

/// The signed integer member `key` of the document `text`.
pub fn i64_member(text: &str, key: &str) -> (r: Result<i64, DecodeCause>)
    ensures
        match json_i64_member(text@, key@) {
            Some(v) => r == Ok::<i64, DecodeCause>(v),
            None => r matches Err(c) && is_missing_field(c, key@),
        },
{
    match i64_member_of(text, key) {
        Some(n) => Ok(n),
        None => Err(DecodeCause::MissingField { field: String::from_str(key) }),
    }
}

/// The unsigned integer member `key` of the document `text`.
pub fn u64_member(text: &str, key: &str) -> (r: Result<u64, DecodeCause>)
    ensures
        match json_u64_member(text@, key@) {
            Some(v) => r == Ok::<u64, DecodeCause>(v),
            None => r matches Err(c) && is_missing_field(c, key@),
        },
{
    match u64_member_of(text, key) {
        Some(n) => Ok(n),
        None => Err(DecodeCause::MissingField { field: String::from_str(key) }),
    }
}

} // verus!
