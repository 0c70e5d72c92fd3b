//! JSON documents as `serde_json` holds them, and what the library reads
//! from them. The calls into `serde_json` are stated here and not proved.

use vstd::prelude::*;

verus! {

/// The outside type `serde_json::Value`: one JSON value. What it holds is
/// named by `json_view`.
#[verifier::external_type_specification]
#[verifier::external_body]
pub struct ExValue(serde_json::Value);

/// The outside type `serde_json::Error`: why a text is no JSON document.
#[verifier::external_type_specification]
#[verifier::external_body]
pub struct ExJsonError(serde_json::Error);

/// A JSON value as plain values. A number stands as the text that
/// `serde_json` prints for it.
pub enum JsonView {
    Null,
    Bool(bool),
    Number(Seq<char>),
    Text(Seq<char>),
    Array(Seq<JsonView>),
    Object(Map<Seq<char>, JsonView>),
}

/// What a `serde_json::Value` holds.
pub uninterp spec fn json_view(value: serde_json::Value) -> JsonView;

/// The JSON document that `serde_json` reads from `body`, or `None` where
/// it reads none.
pub uninterp spec fn json_document(body: Seq<u8>) -> Option<JsonView>;

/// The member `key` of an object; `Null` where `value` is no object or has
/// no such member.
pub open spec fn member_of(value: JsonView, key: Seq<char>) -> JsonView {
    match value {
        JsonView::Object(members) => if members.contains_key(key) {
            members[key]
        } else {
            JsonView::Null
        },
        _ => JsonView::Null,
    }
}

/// The element at `index` of an array; `Null` where `value` is no array or
/// is too short.
pub open spec fn element_of(value: JsonView, index: int) -> JsonView {
    match value {
        JsonView::Array(elements) => if 0 <= index < elements.len() {
            elements[index]
        } else {
            JsonView::Null
        },
        _ => JsonView::Null,
    }
}

/// The text of a JSON string; `None` for every other value.
pub open spec fn text_of(value: JsonView) -> Option<Seq<char>> {
    match value {
        JsonView::Text(text) => Some(text),
        _ => None,
    }
}

/// Calls `serde_json::from_slice` for a `serde_json::Value`. The contract
/// claims that the outcome depends on the bytes alone: the same bytes give
/// the same document, or give none.
#[verifier::external_body]
pub(crate) fn parse_json(body: &[u8]) -> (parsed: Result<serde_json::Value, serde_json::Error>)
    ensures
        match parsed {
            Ok(value) => json_document(body@) == Some(json_view(value)),
            Err(_) => json_document(body@) is None,
        },
{
    serde_json::from_slice(body)
}

/// Indexes a `serde_json::Value` by a string, as `value[key]` does. The
/// contract claims what `serde_json` documents of that operator: the
/// member of that name where `value` is an object that has one, else null.
#[verifier::external_body]
pub(crate) fn json_member<'a>(value: &'a serde_json::Value, key: &str) -> (member:
    &'a serde_json::Value)
    ensures
        json_view(*member) == member_of(json_view(*value), key@),
{
    &value[key]
}

/// Indexes a `serde_json::Value` by a number, as `value[index]` does. The
/// contract claims what `serde_json` documents of that operator: the
/// element at that index where `value` is an array that reaches it, else
/// null.
#[verifier::external_body]
pub(crate) fn json_element<'a>(value: &'a serde_json::Value, index: usize) -> (element:
    &'a serde_json::Value)
    ensures
        json_view(*element) == element_of(json_view(*value), index as int),
{
    &value[index]
}

/// Calls `serde_json::Value::as_str`. The contract claims that it hands out
/// the text where the value is a JSON string, and nothing otherwise.
#[verifier::external_body]
pub(crate) fn json_text<'a>(value: &'a serde_json::Value) -> (text: Option<&'a str>)
    ensures
        match text {
            Some(s) => text_of(json_view(*value)) == Some(s@),
            None => text_of(json_view(*value)) is None,
        },
{
    value.as_str()
}

/// Formats a `serde_json::Error` for display. Nothing is claimed of the
/// text.
#[verifier::external_body]
pub(crate) fn json_error_text(error: &serde_json::Error) -> (text: String) {
    error.to_string()
}

} // verus!
