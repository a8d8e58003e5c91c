//! JSON documents. Reading and writing JSON text is the work of `serde_json`;
//! this module says what the rest of the library relies on from it, and
//! nothing in it is proved.

use vstd::prelude::*;

verus! {

/// A JSON document, as a mathematical value.
pub enum JsonDoc {
    Null,
    Bool(bool),
    /// A number, by the text that is written for it.
    Number(Seq<char>),
    Text(Seq<char>),
    List(Seq<JsonDoc>),
    Object(Map<Seq<char>, JsonDoc>),
}

/// `serde_json::Value`, carried as it is: what one holds is told by `doc_of`.
#[verifier::external_type_specification]
#[verifier::external_body]
pub struct ExValue(serde_json::Value);

/// `serde_json::Error`, carried as it is: nothing is read from one.
#[verifier::external_type_specification]
#[verifier::external_body]
pub struct ExError(serde_json::Error);

/// The document that a `serde_json::Value` holds.
pub uninterp spec fn doc_of(value: serde_json::Value) -> JsonDoc;

/// The document that `serde_json::from_str` reads from `text`, if it reads one.
pub uninterp spec fn json_parse(text: Seq<char>) -> Option<JsonDoc>;

/// The text that `serde_json::to_string` writes for a document. The members
/// of an object are written in the order of their keys, so the text depends
/// on the document alone.
pub uninterp spec fn json_text(doc: JsonDoc) -> Seq<char>;

/// The member of `doc` under `key`, if `doc` is an object that has one.
pub open spec fn member(doc: JsonDoc, key: Seq<char>) -> Option<JsonDoc> {
    match doc {
        JsonDoc::Object(members) => if members.dom().contains(key) {
            Some(members[key])
        } else {
            None
        },
        _ => None,
    }
}

/// The documents that a list of values holds, in its order.
pub open spec fn docs_of(values: Seq<serde_json::Value>) -> Seq<JsonDoc> {
    values.map_values(|value: serde_json::Value| doc_of(value))
}

/// Whether no two pairs of a list have the same key.
pub open spec fn distinct_keys(pairs: Seq<(String, serde_json::Value)>) -> bool {
    forall|i: int, j: int| 0 <= i < j < pairs.len() ==> pairs[i].0@ != pairs[j].0@
}

/// Whether one of the pairs of a list has the key `key`.
pub open spec fn has_key(pairs: Seq<(String, serde_json::Value)>, key: Seq<char>) -> bool {
    exists|i: int| 0 <= i < pairs.len() && (#[trigger] pairs[i]).0@ == key
}

/// `serde_json::from_str` at `serde_json::Value`: the text is read whole, and
/// the value that comes back holds the document that the text stands for.
#[verifier::external_body]
pub(crate) fn parse(text: &str) -> (r: Result<serde_json::Value, serde_json::Error>)
    ensures
        match r {
            Ok(value) => json_parse(text@) == Some(doc_of(value)),
            Err(_) => json_parse(text@) is None,
        },
{
    serde_json::from_str::<serde_json::Value>(text)
}

/// `serde_json::to_string` at `serde_json::Value`: it writes the document
/// that the value holds, and for such a value it does not fail (its keys are
/// strings already, and the buffer it writes to takes every byte).
#[verifier::external_body]
pub(crate) fn print(value: &serde_json::Value) -> (r: Result<String, serde_json::Error>)
    ensures
        match r {
            Ok(text) => text@ == json_text(doc_of(*value)),
            Err(_) => false,
        },
{
    serde_json::to_string(value)
}

/// `serde_json::Value::get` with a string key: the member under that key of
/// an object, and nothing for a value that is no object or has no such member.
#[verifier::external_body]
pub(crate) fn get<'a>(value: &'a serde_json::Value, key: &str) -> (r: Option<
    &'a serde_json::Value,
>)
    ensures
        match r {
            Some(found) => member(doc_of(*value), key@) == Some(doc_of(*found)),
            None => member(doc_of(*value), key@) is None,
        },
{
    value.get(key)
}

/// `serde_json::Value::as_str`: the characters of a string, and nothing for
/// any other value.
#[verifier::external_body]
pub(crate) fn as_str<'a>(value: &'a serde_json::Value) -> (r: Option<&'a str>)
    ensures
        match r {
            Some(text) => doc_of(*value) == JsonDoc::Text(text@),
            None => !(doc_of(*value) is Text),
        },
{
    value.as_str()
}

/// `serde_json::Value::as_array`: the items of an array in their order, and
/// nothing for any other value.
#[verifier::external_body]
pub(crate) fn as_array<'a>(value: &'a serde_json::Value) -> (r: Option<
    &'a Vec<serde_json::Value>,
>)
    ensures
        match r {
            Some(items) => doc_of(*value) == JsonDoc::List(docs_of(items@)),
            None => !(doc_of(*value) is List),
        },
{
    value.as_array()
}

/// `serde_json::Value::is_null`.
#[verifier::external_body]
pub(crate) fn is_null(value: &serde_json::Value) -> (r: bool)
    ensures
        r == (doc_of(*value) is Null),
{
    value.is_null()
}

/// The variant `serde_json::Value::Null`.
#[verifier::external_body]
pub(crate) fn null() -> (value: serde_json::Value)
    ensures
        doc_of(value) == JsonDoc::Null,
{
    serde_json::Value::Null
}

/// `serde_json::Value::from` at a string slice: the string with those
/// characters.
#[verifier::external_body]
pub(crate) fn string(text: &str) -> (value: serde_json::Value)
    ensures
        doc_of(value) == JsonDoc::Text(text@),
{
    serde_json::Value::from(text)
}

/// The variant `serde_json::Value::Array`: the array of the given items in
/// their order.
#[verifier::external_body]
pub(crate) fn array(items: Vec<serde_json::Value>) -> (value: serde_json::Value)
    ensures
        doc_of(value) == JsonDoc::List(docs_of(items@)),
{
    serde_json::Value::Array(items)
}

/// `serde_json::Value::from_iter` at pairs of key and value: the object that
/// has one member for each pair, under the pair's key the pair's value. Lists
/// in which two pairs share a key are left out.
#[verifier::external_body]
pub(crate) fn object(pairs: Vec<(String, serde_json::Value)>) -> (value: serde_json::Value)
    requires
        distinct_keys(pairs@),
    ensures
        doc_of(value) is Object,
        forall|key: Seq<char>|
            (#[trigger] doc_of(value)->Object_0.dom().contains(key)) <==> has_key(pairs@, key),
        forall|i: int|
            0 <= i < pairs.len() ==> doc_of(value)->Object_0[(#[trigger] pairs@[i]).0@] == doc_of(
                pairs@[i].1,
            ),
{
    serde_json::Value::from_iter(pairs)
}

} // verus!
