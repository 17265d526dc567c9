//! What the client takes from `serde_json`: the type of a JSON value, which
//! it carries through without looking inside, and one question that it asks
//! of a text.

use serde_json::Value;
use vstd::prelude::*;

verus! {

/// Any JSON value. What is inside is known to `serde_json` alone.
#[verifier::external_type_specification]
#[verifier::external_body]
pub struct ExValue(Value);

/// `serde_json` copies a value variant by variant and member by member: the
/// copy is the same value.
pub assume_specification[ <Value as Clone>::clone ](value: &Value) -> (copy: Value)
    ensures
        copy == *value,
;

/// What is found under a key of the JSON object that a text holds.
#[derive(Debug, Clone, PartialEq, Eq)]
pub enum JsonField {
    /// The text is not JSON.
    NoDocument,
    /// The text is JSON, but no object with such a member.
    Missing,
    /// The member is this string.
    Text(String),
    /// The member is there, and is no string.
    Other,
}

/// A `JsonField` as plain values.
pub enum JsonFieldView {
    NoDocument,
    Missing,
    Text(Seq<char>),
    Other,
}

impl View for JsonField {
    type V = JsonFieldView;

    open spec fn view(&self) -> JsonFieldView {
        match self {
            JsonField::NoDocument => JsonFieldView::NoDocument,
            JsonField::Missing => JsonFieldView::Missing,
            JsonField::Text(text) => JsonFieldView::Text(text@),
            JsonField::Other => JsonFieldView::Other,
        }
    }
}

/// What `serde_json` finds under `key` in `text`: no document where
/// `serde_json::from_str` does not read `text` as one JSON value; else what
/// `Value::get` and `Value::as_str` make of the member `key` of that value.
pub uninterp spec fn json_field(text: Seq<char>, key: Seq<char>) -> JsonFieldView;

/// Reads `text` with `serde_json::from_str`, asks `Value::get` for the member
/// `key` and `Value::as_str` for its text, and tells the four outcomes apart.
/// The contract gives the outcome its name and claims nothing more of it.
#[verifier::external_body]
pub(crate) fn read_field(text: &str, key: &str) -> (field: JsonField)
    ensures
        field@ == json_field(text@, key@),
{
    match serde_json::from_str::<Value>(text) {
        Err(_) => JsonField::NoDocument,
        Ok(document) => match document.get(key) {
            None => JsonField::Missing,
            Some(member) => match member.as_str() {
                Some(text) => JsonField::Text(text.to_string()),
                None => JsonField::Other,
            },
        },
    }
}

} // verus!
