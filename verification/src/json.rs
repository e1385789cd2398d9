//! JSON documents returned by remote services, seen through the members
//! that the launcher reads.

use vstd::prelude::*;

verus! {

/// A parsed JSON document (`serde_json::Value`), carried as an opaque value.
#[verifier::external_type_specification]
#[verifier::external_body]
pub struct ExJsonValue(serde_json::Value);

/// The string-valued members of a JSON document: empty unless the document
/// is an object, in which case it maps each key whose value is a JSON
/// string to that string.
pub uninterp spec fn json_str_members(doc: serde_json::Value) -> Map<Seq<char>, Seq<char>>;

/// The boolean-valued members of a JSON document, in the same sense as
/// `json_str_members`.
pub uninterp spec fn json_bool_members(doc: serde_json::Value) -> Map<Seq<char>, bool>;

/// Reads `doc[key]` as a string, as `serde_json`'s `Index<&str>` followed by
/// `Value::as_str` does: `Some` exactly when `doc` is an object whose member
/// `key` is a JSON string, and then that string.
#[verifier::external_body]
pub(crate) fn str_member(doc: &serde_json::Value, key: &str) -> (r: Option<String>)
    ensures
        r is Some <==> json_str_members(*doc).contains_key(key@),
        r matches Some(s) ==> s@ == json_str_members(*doc)[key@],
{
    doc[key].as_str().map(|s| s.to_string())
}

/// Reads `doc[key]` as a boolean, as `serde_json`'s `Index<&str>` followed by
/// `Value::as_bool` does: `Some` exactly when `doc` is an object whose member
/// `key` is a JSON boolean, and then that boolean.
#[verifier::external_body]
pub(crate) fn bool_member(doc: &serde_json::Value, key: &str) -> (r: Option<bool>)
    ensures
        r is Some <==> json_bool_members(*doc).contains_key(key@),
        r matches Some(b) ==> b == json_bool_members(*doc)[key@],
{
    doc[key].as_bool()
}

/// The string-valued members of the JSON document that `body` encodes, in
/// the sense of `json_str_members`; `None` where `serde_json::from_slice`
/// does not accept `body` as a JSON document.
pub uninterp spec fn json_body_str_members(body: Seq<u8>) -> Option<Map<Seq<char>, Seq<char>>>;

/// The boolean-valued members of the JSON document that `body` encodes, in
/// the sense of `json_bool_members`; `None` where `serde_json::from_slice`
/// does not accept `body`.
pub uninterp spec fn json_body_bool_members(body: Seq<u8>) -> Option<Map<Seq<char>, bool>>;

/// The text (`Display`) of the error that `serde_json::from_slice` gives
/// for `body`, where it does not accept it.
pub uninterp spec fn json_error_text(body: Seq<u8>) -> Seq<char>;

/// Parses `body` with `serde_json::from_slice` into a `serde_json::Value`,
/// giving the parse error's text where `body` is not a JSON document.
#[verifier::external_body]
pub(crate) fn parse_json(body: &[u8]) -> (r: Result<serde_json::Value, String>)
    ensures
        r is Ok <==> json_body_str_members(body@) is Some,
        r is Ok <==> json_body_bool_members(body@) is Some,
        r matches Ok(d) ==> Some(json_str_members(d)) == json_body_str_members(body@)
            && Some(json_bool_members(d)) == json_body_bool_members(body@),
        r matches Err(e) ==> e@ == json_error_text(body@),
{
    serde_json::from_slice::<serde_json::Value>(body).map_err(|e| e.to_string())
}

} // verus!
