//! Trusted access to `serde_json`: parsing a line into a JSON document,
//! looking up its object members, and reading a member back as compact text.
//!
//! A parsed document is carried as a [`JsonDoc`] around the opaque
//! `serde_json::Value`; its model, `doc_source`, is the text it was parsed
//! from. Every lookup on the document is a deterministic function of that
//! text and the key alone — `serde_json`'s parsing and serialization consult
//! nothing else — so the names below are functions of the line text, and the
//! decoder's contracts can speak of the line's members directly.

use vstd::prelude::*;

verus! {

#[verifier::external_type_specification]
#[verifier::external_body]
pub struct ExValue(serde_json::Value);

/// A parsed JSON document. Verified code cannot build one — [`parse_doc`]
/// is the only constructor — so the value a `JsonDoc` holds is always the
/// parse of `doc_source` of it.
pub struct JsonDoc {
    value: serde_json::Value,
}

/// The model of a parsed document: the text it was parsed from.
pub uninterp spec fn doc_source(d: JsonDoc) -> Seq<char>;

/// Whether `serde_json::from_str::<Value>` accepts the text: whether it is
/// one syntactically valid JSON document.
pub uninterp spec fn json_ok(s: Seq<char>) -> bool;

/// The string member at `key` of the JSON document in `s`: the character
/// content `Value::as_str` gives it, or `None` where `s` is not a valid JSON
/// object, has no such member, or the member is not a JSON string.
pub uninterp spec fn member_string(s: Seq<char>, key: Seq<char>) -> Option<Seq<char>>;

/// The member at `key` of the JSON document in `s`, as the compact JSON text
/// `serde_json::to_string` gives it; `None` where `s` is not a valid JSON
/// object or has no such member.
pub uninterp spec fn member_text(s: Seq<char>, key: Seq<char>) -> Option<Seq<char>>;

/// The compact JSON text `serde_json::to_string` gives the document parsed
/// from `s` (meaningful where `json_ok(s)` holds).
pub uninterp spec fn doc_text(s: Seq<char>) -> Seq<char>;

/// Relies on `serde_json::from_str::<Value>`: it succeeds exactly on
/// syntactically valid JSON, a deterministic property of the text.
#[verifier::external_body]
pub fn parse_doc(line: &str) -> (r: Option<JsonDoc>)
    ensures
        r is Some <==> json_ok(line@),
        r matches Some(d) ==> doc_source(d) == line@,
{
    match serde_json::from_str(line) {
        Ok(value) => Some(JsonDoc { value }),
        Err(_) => None,
    }
}

/// Relies on `serde_json::Value::get` (with a string key) and
/// `Value::as_str`: together they read the string member at `key` of the
/// parsed document, a function of the document's text and the key alone.
#[verifier::external_body]
pub fn get_string_member(d: &JsonDoc, key: &str) -> (r: Option<String>)
    ensures
        r is Some <==> member_string(doc_source(*d), key@) is Some,
        r matches Some(s) ==> Some(s@) == member_string(doc_source(*d), key@),
{
    d.value.get(key).and_then(|m| m.as_str()).map(str::to_owned)
}

/// Relies on `serde_json::Value::get` and `serde_json::to_string`: together
/// they read the member at `key` of the parsed document as its compact JSON
/// text, a function of the document's text and the key alone. On a `Value`,
/// `to_string` cannot fail (its serialization never errs and its map keys
/// are strings) and returns compact JSON — text that `from_str` accepts and
/// that is canonical: parsing it and serializing the parse gives it back.
/// Canonicity needs `serde_json`'s `float_roundtrip` feature, which this
/// crate enables: with it floats re-parse to the identical value (and print
/// again as the same shortest form), integers go through exact `itoa`,
/// object keys come back in the same sorted order, and emitted string
/// escapes reproduce themselves.
#[verifier::external_body]
pub fn get_member_compact(d: &JsonDoc, key: &str) -> (r: Option<String>)
    ensures
        r is Some <==> member_text(doc_source(*d), key@) is Some,
        r matches Some(t) ==> Some(t@) == member_text(doc_source(*d), key@),
        r matches Some(t) ==> json_ok(t@) && doc_text(t@) == t@,
{
    match d.value.get(key) {
        Some(m) => Some(serde_json::to_string(m).unwrap_or_default()),
        None => None,
    }
}

} // verus!
