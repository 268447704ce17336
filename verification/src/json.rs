//! JSON values as `serde_json` holds them, and the calls into that crate.
//!
//! A `serde_json::Value` is opaque here. The contracts speak of it through
//! names: the text that it serialises to, the string-valued members that it
//! has if it is an object, and the text of the value that a text parses to.

use vstd::prelude::*;

verus! {

/// `serde_json::Value`, carried through without looking inside.
#[verifier::external_type_specification]
#[verifier::external_body]
pub struct ExValue(serde_json::Value);

/// `serde_json::Error`, carried through without looking inside.
#[verifier::external_type_specification]
#[verifier::external_body]
pub struct ExJsonError(serde_json::Error);

/// The members of a JSON object whose values are strings, each under its key.
/// A value that is no object has none.
pub uninterp spec fn string_members(value: serde_json::Value) -> Map<Seq<char>, Seq<char>>;

/// The compact JSON text of a value, as `serde_json::to_string` writes it.
pub uninterp spec fn json_text(value: serde_json::Value) -> Seq<char>;

/// The compact JSON text of the value that a text parses to with
/// `serde_json::from_str`; `None` where the text is no JSON document.
pub uninterp spec fn parsed_text(text: Seq<char>) -> Option<Seq<char>>;

/// Calls `serde_json::to_string` on a value. Claimed: the call succeeds, and
/// the string is the value's JSON text, a function of the value alone.
/// Writing fails only on an error of the writer or on a map key that is no
/// string; here the writer is a vector in memory, and the keys of a `Value`
/// are strings.
#[verifier::external_body]
pub(crate) fn to_json_text(value: &serde_json::Value) -> (r: Result<String, serde_json::Error>)
    ensures
        r is Ok,
        r matches Ok(text) ==> text@ == json_text(*value),
{
    serde_json::to_string(value)
}

/// Calls `serde_json::from_str` for a `Value`. Claimed: whether the call
/// succeeds, and which value it then gives, told by the value's JSON text,
/// depends on the text alone.
#[verifier::external_body]
pub(crate) fn parse_value(text: &str) -> (r: Result<serde_json::Value, serde_json::Error>)
    ensures
        r is Ok <==> parsed_text(text@) is Some,
        r matches Ok(value) ==> parsed_text(text@) == Some(json_text(value)),
{
    serde_json::from_str::<serde_json::Value>(text)
}

/// Indexes a value by a key and calls `Value::as_str` on what is found.
/// Claimed: the result is the member under that key if the value is an object
/// that has one whose value is a string, and `None` otherwise (indexing gives
/// `Null` for a missing key and for a value that is no object, and `as_str`
/// gives `None` for anything but a string).
#[verifier::external_body]
pub(crate) fn string_member(value: &serde_json::Value, key: &str) -> (r: Option<String>)
    ensures
        r is Some <==> string_members(*value).contains_key(key@),
        r matches Some(s) ==> s@ == string_members(*value)[key@],
{
    value[key].as_str().map(str::to_owned)
}

/// Builds, with `serde_json::Map::insert`, the object that has one member, a
/// string. Claimed: that member is its only string-valued member.
#[verifier::external_body]
pub(crate) fn single_member_object(key: &str, member: &str) -> (r: serde_json::Value)
    ensures
        string_members(r) == map![key@ => member@],
{
    let mut members = serde_json::Map::new();
    members.insert(key.to_owned(), serde_json::Value::String(member.to_owned()));
    serde_json::Value::Object(members)
}

/// Formats a `serde_json::Error` with its `Display`. Nothing is claimed of the
/// text.
#[verifier::external_body]
pub(crate) fn json_error_text(error: &serde_json::Error) -> (text: String) {
    error.to_string()
}

} // verus!
