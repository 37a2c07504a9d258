//! The structured event handed over by the host, and what the relay reads of it.

use vstd::prelude::*;

verus! {

/// `serde_json::Value`, a JSON document. Nothing of its inside is seen
/// here: the relay reads it through the three functions below, and speaks of
/// what it holds through `json_view`.
#[verifier::external_type_specification]
#[verifier::external_body]
pub struct ExValue(serde_json::Value);

/// What the relay reads of a JSON document.
pub enum JsonView {
    /// A string, by its characters.
    Text(Seq<char>),
    /// A number held as an integer, from 0 to `u64::MAX`. A number written
    /// with a fraction or an exponent is not held as an integer, whatever
    /// its value.
    Unsigned(u64),
    /// An object: its members by key.
    Object(Map<Seq<char>, JsonView>),
    /// Anything else: null, a boolean, an array, any other number.
    Other,
}

impl JsonView {
    /// The member of an object under `key`; `None` for an object without
    /// that key and for what is no object.
    pub open spec fn member(self, key: Seq<char>) -> Option<JsonView> {
        match self {
            JsonView::Object(members) => if members.contains_key(key) {
                Some(members[key])
            } else {
                None
            },
            _ => None,
        }
    }
}

/// What a JSON document holds.
pub uninterp spec fn json_view(value: serde_json::Value) -> JsonView;

/// `serde_json::Value::get` with a string key. Taken on trust: it hands out
/// the member that an object holds under the key, borrowed from the
/// document, and `None` where the document is no object or has no such key.
#[verifier::external_body]
pub(crate) fn member<'a>(value: &'a serde_json::Value, key: &str) -> (found: Option<
    &'a serde_json::Value,
>)
    ensures
        match found {
            Some(m) => json_view(*value).member(key@) == Some(json_view(*m)),
            None => json_view(*value).member(key@) is None,
        },
{
    value.get(key)
}

/// `serde_json::Value::as_str`. Taken on trust: it hands out the text of a
/// document that is a string, and `None` for any other document.
pub assume_specification<'a>[ serde_json::Value::as_str ](value: &'a serde_json::Value) -> (text:
    Option<&'a str>)
    ensures
        match text {
            Some(s) => json_view(*value) == JsonView::Text(s@),
            None => !(json_view(*value) is Text),
        },
;

/// `serde_json::Value::as_u64`. Taken on trust: it hands out the number of a
/// document that is a number held as an integer from 0 to `u64::MAX`, and
/// `None` for any other number and for a document that is no number.
pub assume_specification[ serde_json::Value::as_u64 ](value: &serde_json::Value) -> (number:
    Option<u64>)
    ensures
        match number {
            Some(n) => json_view(*value) == JsonView::Unsigned(n),
            None => !(json_view(*value) is Unsigned),
        },
;

} // verus!
