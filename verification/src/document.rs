//! Opaque structured documents.
//!
//! Agent contexts, tool parameters, task parameters and schemas are JSON
//! documents whose shape belongs to the agent or tool that consumes them.
//! The library never looks inside one by itself: it carries a document
//! along, and where it has to read one it asks `serde_json`, through the
//! few functions below. What those functions return is taken on trust; it is
//! named here so that the contracts of their callers can speak of it.

use vstd::prelude::*;
use crate::text::opt_text;

verus! {

#[verifier::external_type_specification]
#[verifier::external_body]
pub struct ExDocument(serde_json::Value);

#[verifier::external_type_specification]
#[verifier::external_body]
#[verifier::reject_recursive_types(K)]
#[verifier::reject_recursive_types(V)]
pub struct ExObject<K, V>(serde_json::Map<K, V>);

/// The document that `serde_json::from_str` reads from a JSON text, or
/// `None` where it reports an error.
pub uninterp spec fn json_parsed(text: Seq<char>) -> Option<serde_json::Value>;

/// The JSON text that `serde_json::to_string` writes for a document, or
/// `None` where it reports an error.
pub uninterp spec fn json_text_of(doc: serde_json::Value) -> Option<Seq<char>>;

/// The string that a document is, where it is a JSON string.
pub uninterp spec fn json_string_of(doc: serde_json::Value) -> Option<Seq<char>>;

/// The items of a document, where it is a JSON array.
pub uninterp spec fn json_items_of(doc: serde_json::Value) -> Option<Seq<serde_json::Value>>;

/// The entries of a document by key, where it is a JSON object.
pub uninterp spec fn json_entries_of(doc: serde_json::Value) -> Option<
    Map<Seq<char>, serde_json::Value>,
>;

/// The document is the JSON value `null`.
pub uninterp spec fn json_is_null(doc: serde_json::Value) -> bool;

/// The entries that a JSON object holds, by key.
pub uninterp spec fn object_entries(object: serde_json::Map<String, serde_json::Value>) -> Map<
    Seq<char>,
    serde_json::Value,
>;

/// The entry of `entries` under `key`, if there is one.
pub open spec fn entry_of(entries: Map<Seq<char>, serde_json::Value>, key: Seq<char>) -> Option<
    serde_json::Value,
> {
    if entries.dom().contains(key) {
        Some(entries[key])
    } else {
        None
    }
}

/// `serde_json::Value::clone`, the derived deep copy of a document. The copy
/// is taken to be equal to the document it was made from.
pub assume_specification[ <serde_json::Value as Clone>::clone ](doc: &serde_json::Value) -> (copy:
    serde_json::Value)
    ensures
        copy == *doc,
;

/// `serde_json::from_str` at the type `serde_json::Value`: reads a JSON text
/// into a document. An error, which it reports for a text that is not JSON
/// or nests too deep, becomes `None`.
#[verifier::external_body]
pub(crate) fn parse_json(text: &str) -> (doc: Option<serde_json::Value>)
    ensures
        doc == json_parsed(text@),
{
    match serde_json::from_str::<serde_json::Value>(text) {
        Ok(doc) => Some(doc),
        Err(_) => None,
    }
}

/// `serde_json::to_string` on a document: writes it as compact JSON text. An
/// error becomes `None`.
#[verifier::external_body]
pub(crate) fn json_text(doc: &serde_json::Value) -> (text: Option<String>)
    ensures
        opt_text(text) == json_text_of(*doc),
{
    match serde_json::to_string(doc) {
        Ok(text) => Some(text),
        Err(_) => None,
    }
}

/// Tells the variant `serde_json::Value::String` from the others, as
/// `Value::as_str` does: the string of a document that is a JSON string,
/// `None` of any other.
#[verifier::external_body]
pub(crate) fn json_string(doc: &serde_json::Value) -> (string: Option<String>)
    ensures
        opt_text(string) == json_string_of(*doc),
{
    match doc {
        serde_json::Value::String(s) => Some(s.clone()),
        _ => None,
    }
}

/// Tells the variant `serde_json::Value::Array` from the others, as
/// `Value::as_array` does: the items of a document that is a JSON array, in
/// order, `None` of any other.
#[verifier::external_body]
pub(crate) fn json_items(doc: &serde_json::Value) -> (items: Option<Vec<serde_json::Value>>)
    ensures
        items is Some <==> json_items_of(*doc) is Some,
        items is Some ==> items->0@ == json_items_of(*doc)->0,
{
    match doc {
        serde_json::Value::Array(items) => Some(items.clone()),
        _ => None,
    }
}

/// Tells the variant `serde_json::Value::Object` from the others, as
/// `Value::as_object` does: a copy of the object that a document is, `None`
/// of any other document.
#[verifier::external_body]
pub(crate) fn json_object(doc: &serde_json::Value) -> (object: Option<
    serde_json::Map<String, serde_json::Value>,
>)
    ensures
        object is Some <==> json_entries_of(*doc) is Some,
        object is Some ==> object_entries(object->0) == json_entries_of(*doc)->0,
{
    match doc {
        serde_json::Value::Object(object) => Some(object.clone()),
        _ => None,
    }
}

/// `serde_json::Value::is_null`: whether a document is the JSON value
/// `null`.
#[verifier::external_body]
pub(crate) fn is_null(doc: &serde_json::Value) -> (null: bool)
    ensures
        null == json_is_null(*doc),
{
    doc.is_null()
}

/// `serde_json::Map::get`: a copy of the entry of a JSON object under `key`,
/// `None` where the object has no such key.
#[verifier::external_body]
pub(crate) fn object_get(object: &serde_json::Map<String, serde_json::Value>, key: &str) -> (entry:
    Option<serde_json::Value>)
    ensures
        entry == entry_of(object_entries(*object), key@),
{
    object.get(key).cloned()
}

/// `serde_json::Map::new` inside `serde_json::Value::Object`: the document
/// that is a JSON object without entries.
#[verifier::external_body]
pub(crate) fn empty_object() -> (doc: serde_json::Value)
    ensures
        json_entries_of(doc) == Some(Map::<Seq<char>, serde_json::Value>::empty()),
{
    serde_json::Value::Object(serde_json::Map::new())
}

/// `serde_json::Value::Null`: the document that is the JSON value `null`.
#[verifier::external_body]
pub(crate) fn null_document() -> (doc: serde_json::Value)
    ensures
        json_is_null(doc),
{
    serde_json::Value::Null
}

/// A copy of an optional document.
pub fn clone_opt_document(doc: &Option<serde_json::Value>) -> (copy: Option<serde_json::Value>)
    ensures
        copy == *doc,
{
    match doc {
        Some(d) => Some(d.clone()),
        None => None,
    }
}

} // verus!
