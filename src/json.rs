//! JSON values, carried through the library as serde_json's `Value`, and the
//! few facts the library reads out of JSON text.

use vstd::prelude::*;

verus! {

#[verifier::external_type_specification]
#[verifier::external_body]
pub struct ExJsonValue(serde_json::Value);

/// Relies on `Value`'s derived `Clone`: the copy is the same value.
pub assume_specification[ <serde_json::Value as Clone>::clone ](v: &serde_json::Value) -> (r: serde_json::Value)
    ensures
        r == *v,
;

/// The text is one JSON document.
pub uninterp spec fn json_parses(text: Seq<char>) -> bool;

/// The string held by the top-level `key` of the JSON document `text`, when
/// the document is an object and that member is a string.
pub uninterp spec fn json_str_field(text: Seq<char>, key: Seq<char>) -> Option<Seq<char>>;

/// The member names of a JSON value that is an object, in the map's order.
pub uninterp spec fn json_keys(v: serde_json::Value) -> Option<Seq<Seq<char>>>;

/// The texts of a list of strings.
pub open spec fn views(v: Seq<String>) -> Seq<Seq<char>> {
    v.map_values(|s: String| s@)
}

/// Relies on `serde_json::from_str::<Value>`: whether the text parses.
#[verifier::external_body]
pub(crate) fn json_is_valid(text: &str) -> (r: bool)
    ensures
        r == json_parses(text@),
{
    serde_json::from_str::<serde_json::Value>(text).is_ok()
}

/// Relies on `serde_json::from_str::<Value>`, then `Value::get` with a string
/// key and `Value::as_str`: a member is only found in a document that parses.
#[verifier::external_body]
pub(crate) fn text_str_field(text: &str, key: &str) -> (r: Option<String>)
    ensures
        match r {
            Some(s) => json_str_field(text@, key@) == Some(s@),
            None => json_str_field(text@, key@) is None,
        },
        r is Some ==> json_parses(text@),
{
    serde_json::from_str::<serde_json::Value>(text).ok()?.get(key)?.as_str().map(|s| s.to_string())
}

/// Relies on `serde_json::Value::as_object`: the member names of an object,
/// none for a value that is not an object.
#[verifier::external_body]
pub(crate) fn object_keys(v: &serde_json::Value) -> (r: Option<Vec<String>>)
    ensures
        match r {
            Some(k) => json_keys(*v) == Some(views(k@)),
            None => json_keys(*v) is None,
        },
{
    v.as_object().map(|m| m.keys().cloned().collect())
}

} // verus!
