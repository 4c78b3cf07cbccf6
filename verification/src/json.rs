//! JSON documents, as `serde_json` reads them.
//!
//! A parsed document stays a `serde_json::Value`. What such a value holds is
//! named by `json_model`, a tree of plain values, and each call into
//! `serde_json` is described over that tree. None of these descriptions is
//! proved here: they restate what `serde_json` documents.

use vstd::prelude::*;

verus! {

/// A JSON value as a tree. An object is a map from its keys to its members;
/// a number is kept as the text that spells it.
pub enum JsonModel {
    Null,
    Bool(bool),
    Number(Seq<char>),
    Text(Seq<char>),
    Array(Seq<JsonModel>),
    Object(Map<Seq<char>, JsonModel>),
}

/// The member called `key` of an object; `None` for a value that is no
/// object and for an object without such a member.
pub open spec fn member(value: JsonModel, key: Seq<char>) -> Option<JsonModel> {
    match value {
        JsonModel::Object(members) => if members.contains_key(key) {
            Some(members[key])
        } else {
            None
        },
        _ => None,
    }
}

/// Makes `serde_json::Value` known as a type whose inside is not looked at:
/// a parsed document is carried around and only handed back to `serde_json`.
#[verifier::external_type_specification]
#[verifier::external_body]
pub struct ExValue(serde_json::Value);

/// The tree that a `serde_json::Value` holds.
pub uninterp spec fn json_model(value: serde_json::Value) -> JsonModel;

/// The tree that `serde_json` reads from a text; `None` for a text that it
/// refuses.
pub uninterp spec fn json_parsed(text: Seq<char>) -> Option<JsonModel>;

/// Calls `serde_json::from_str` for a `Value`.
///
/// Trusted, not proved: what is read depends on the text alone.
#[verifier::external_body]
pub(crate) fn parse(text: &str) -> (r: Option<serde_json::Value>)
    ensures
        match r {
            Some(value) => json_parsed(text@) == Some(json_model(value)),
            None => json_parsed(text@) is None,
        },
{
    serde_json::from_str::<serde_json::Value>(text).ok()
}

/// Calls `serde_json::Value::get` with a string as the index.
///
/// Trusted, not proved: the result is the member of that name if the value
/// is an object that has one, and `None` otherwise.
#[verifier::external_body]
pub(crate) fn get<'a>(value: &'a serde_json::Value, key: &str) -> (r: Option<
    &'a serde_json::Value,
>)
    ensures
        match r {
            Some(found) => member(json_model(*value), key@) == Some(json_model(*found)),
            None => member(json_model(*value), key@) is None,
        },
{
    value.get(key)
}

/// Compares a `serde_json::Value` with a string, by the `==` that
/// `serde_json` gives the two.
///
/// Trusted, not proved: they are equal exactly if the value is a JSON string
/// with these characters.
#[verifier::external_body]
pub(crate) fn is_text(value: &serde_json::Value, text: &str) -> (r: bool)
    ensures
        r == (json_model(*value) == JsonModel::Text(text@)),
{
    *value == *text
}

} // verus!
