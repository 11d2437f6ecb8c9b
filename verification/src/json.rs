//! JSON documents, read and rewritten by `serde_json`.
//!
//! A document is carried as a `serde_json::Value`, of which Verus sees
//! nothing. Each question the library asks of one is put to `serde_json`, and
//! each answer has a name below, so that contracts can say which question was
//! asked of which document.

use vstd::prelude::*;

verus! {

#[verifier::external_type_specification]
#[verifier::external_body]
pub struct ExValue(serde_json::Value);

#[verifier::external_type_specification]
#[verifier::external_body]
pub struct ExError(serde_json::Error);

/// The document that `serde_json::from_str` reads from `text`; `None` where it
/// reports an error.
pub uninterp spec fn json_parse(text: Seq<char>) -> Option<serde_json::Value>;

/// The member that `serde_json::Value::get` finds under `key`.
pub uninterp spec fn json_member(doc: serde_json::Value, key: Seq<char>) -> Option<
    serde_json::Value,
>;

/// What `serde_json::Value::as_i64` makes of `doc`.
pub uninterp spec fn json_as_i64(doc: serde_json::Value) -> Option<i64>;

/// Whether `serde_json::Value::is_object` holds of `doc`.
pub uninterp spec fn json_is_object(doc: serde_json::Value) -> bool;

/// The object `doc` once `serde_json::Map::remove` has taken `key` out of it.
pub uninterp spec fn json_without(doc: serde_json::Value, key: Seq<char>) -> serde_json::Value;

/// The compact text that `serde_json` writes for `doc`.
pub uninterp spec fn json_text(doc: serde_json::Value) -> Seq<char>;

/// Calls `serde_json::from_str` for a `serde_json::Value`. Trusted: the result
/// is a function of the text alone, named `json_parse`.
#[verifier::external_body]
pub(crate) fn parse(text: &str) -> (r: Result<serde_json::Value, serde_json::Error>)
    ensures
        match r {
            Ok(doc) => json_parse(text@) == Some(doc),
            Err(_) => json_parse(text@) is None,
        },
{
    serde_json::from_str::<serde_json::Value>(text)
}

/// Calls `serde_json::Value::get` with a string key. Trusted: the result is a
/// function of the document and the key, named `json_member`.
#[verifier::external_body]
pub(crate) fn member<'a>(doc: &'a serde_json::Value, key: &str) -> (r: Option<
    &'a serde_json::Value,
>)
    ensures
        match r {
            Some(found) => json_member(*doc, key@) == Some(*found),
            None => json_member(*doc, key@) is None,
        },
{
    doc.get(key)
}

/// `serde_json::Value::as_i64`. Trusted: the result is a function of the
/// document, named `json_as_i64`.
pub assume_specification[ serde_json::Value::as_i64 ](doc: &serde_json::Value) -> (r: Option<i64>)
    ensures
        r == json_as_i64(*doc),
;

/// `serde_json::Value::is_object`. Trusted: the result is a function of the
/// document, named `json_is_object`.
pub assume_specification[ serde_json::Value::is_object ](doc: &serde_json::Value) -> (r: bool)
    ensures
        r == json_is_object(*doc),
;

/// Calls `serde_json::Map::remove` on the map of an object. Trusted: the
/// document afterwards is a function of the document before and the key, named
/// `json_without`.
#[verifier::external_body]
pub(crate) fn remove_member(doc: &mut serde_json::Value, key: &str)
    requires
        json_is_object(*old(doc)),
    ensures
        *final(doc) == json_without(*old(doc), key@),
{
    if let Some(object) = doc.as_object_mut() {
        object.remove(key);
    }
}

/// Calls `to_string` on a `serde_json::Value`, which writes it as compact
/// JSON. Trusted: the text is a function of the document, named `json_text`.
#[verifier::external_body]
pub(crate) fn text_of(doc: &serde_json::Value) -> (r: String)
    ensures
        r@ == json_text(*doc),
{
    doc.to_string()
}

} // verus!
