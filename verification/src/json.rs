//! The boundary to `serde_json`.
//!
//! JSON text is read and written by `serde_json`. This module gives a parsed
//! value a mathematical model, [`JsonDoc`], and states for each call into
//! `serde_json` what it does in terms of that model. These statements are
//! taken on trust from the `serde_json` sources; everything built on top of
//! them is proved.

use vstd::prelude::*;

verus! {

/// `serde_json::Value`, a parsed JSON value. Nothing is known of what is
/// inside one but through [`doc_of`].
#[verifier::external_type_specification]
#[verifier::external_body]
pub struct ExValue(serde_json::Value);

/// `serde_json::Error`, the report of a failed parse. Nothing is read from
/// it.
#[verifier::external_type_specification]
#[verifier::external_body]
pub struct ExError(serde_json::Error);

/// A JSON document as a mathematical value.
///
/// A number is kept as the literal that `serde_json` prints for it; nothing
/// in this crate looks inside one.
pub enum JsonDoc {
    Null,
    Bool(bool),
    Number(Seq<char>),
    Text(Seq<char>),
    Array(Seq<JsonDoc>),
    Object(Map<Seq<char>, JsonDoc>),
}

/// The document that a `serde_json::Value` holds.
pub uninterp spec fn doc_of(v: serde_json::Value) -> JsonDoc;

/// What `serde_json::from_str` makes of a text: the document it reads, or
/// `None` where it reports an error.
pub uninterp spec fn json_parse(text: Seq<char>) -> Option<JsonDoc>;

/// The compact text that `serde_json` prints for a document.
pub uninterp spec fn json_text(doc: JsonDoc) -> Seq<char>;

/// The documents held by a sequence of values, in order.
pub open spec fn docs_of(items: Seq<serde_json::Value>) -> Seq<JsonDoc> {
    items.map_values(|v: serde_json::Value| doc_of(v))
}

/// The member of an object under `key`; `None` where `doc` is no object or
/// has no such member.
pub open spec fn doc_field(doc: JsonDoc, key: Seq<char>) -> Option<JsonDoc> {
    match doc {
        JsonDoc::Object(members) => if members.contains_key(key) {
            Some(members[key])
        } else {
            None
        },
        _ => None,
    }
}

/// The members that a list of key-value pairs describes.
pub open spec fn members_of(fields: Seq<(String, serde_json::Value)>) -> Map<Seq<char>, JsonDoc>
    decreases fields.len(),
{
    if fields.len() == 0 {
        Map::empty()
    } else {
        members_of(fields.drop_last()).insert(fields.last().0@, doc_of(fields.last().1))
    }
}

/// Whether no key occurs twice in a list of key-value pairs.
pub open spec fn distinct_keys(fields: Seq<(String, serde_json::Value)>) -> bool {
    forall|i: int, j: int|
        0 <= i < j < fields.len() ==> (#[trigger] fields[i]).0@ != (#[trigger] fields[j]).0@
}

/// `serde_json::from_str` at type `Value`: reads `text` as one JSON document.
/// Trusted: the outcome is a function of the text alone, named by
/// [`json_parse`].
#[verifier::external_body]
pub(crate) fn parse_value(text: &str) -> (r: Result<serde_json::Value, serde_json::Error>)
    ensures
        r matches Ok(v) ==> json_parse(text@) == Some(doc_of(v)),
        r is Err ==> json_parse(text@).is_none(),
{
    serde_json::from_str::<serde_json::Value>(text)
}

/// `Value::get` with a string key. Trusted: it yields the member under that
/// key where the value is an object that has one, and nothing otherwise.
#[verifier::external_body]
pub(crate) fn member<'a>(v: &'a serde_json::Value, key: &str) -> (r: Option<&'a serde_json::Value>)
    ensures
        r matches Some(m) ==> doc_field(doc_of(*v), key@) == Some(doc_of(*m)),
        r is None ==> doc_field(doc_of(*v), key@).is_none(),
{
    v.get(key)
}

/// `Value::as_str`. Trusted: it yields the text of a JSON string, and nothing
/// for any other kind of value.
pub assume_specification<'a>[ serde_json::Value::as_str ](v: &'a serde_json::Value) -> (r: Option<
    &'a str,
>)
    ensures
        r matches Some(s) ==> doc_of(*v) == JsonDoc::Text(s@),
        r is None ==> !(doc_of(*v) is Text),
;

/// `Value::as_array`. Trusted: it yields the items of a JSON array, and
/// nothing for any other kind of value.
pub assume_specification<'a>[ serde_json::Value::as_array ](v: &'a serde_json::Value) -> (r: Option<
    &'a Vec<serde_json::Value>,
>)
    ensures
        r matches Some(items) ==> doc_of(*v) == JsonDoc::Array(docs_of(items@)),
        r is None ==> !(doc_of(*v) is Array),
;

/// `Value::is_null`. Trusted: it tells whether the value is JSON `null`.
pub assume_specification[ serde_json::Value::is_null ](v: &serde_json::Value) -> (r: bool)
    ensures
        r == (doc_of(*v) is Null),
;

/// The conversion of `()` into a `Value`. Trusted: it gives JSON `null`.
#[verifier::external_body]
pub(crate) fn null_value() -> (v: serde_json::Value)
    ensures
        doc_of(v) == JsonDoc::Null,
{
    serde_json::Value::from(())
}

/// The conversion of a `String` into a `Value`. Trusted: it gives the JSON
/// string with that text.
#[verifier::external_body]
pub(crate) fn text_value(s: String) -> (v: serde_json::Value)
    ensures
        doc_of(v) == JsonDoc::Text(s@),
{
    serde_json::Value::from(s)
}

/// The conversion of a `Vec<Value>` into a `Value`. Trusted: it gives the
/// JSON array of those items, in order.
#[verifier::external_body]
pub(crate) fn array_value(items: Vec<serde_json::Value>) -> (v: serde_json::Value)
    ensures
        doc_of(v) == JsonDoc::Array(docs_of(items@)),
{
    serde_json::Value::from(items)
}

/// The collection of key-value pairs into a `Value`. Trusted: for pairs with
/// distinct keys it gives the JSON object with exactly those members.
#[verifier::external_body]
pub(crate) fn object_value(fields: Vec<(String, serde_json::Value)>) -> (v: serde_json::Value)
    requires
        distinct_keys(fields@),
    ensures
        doc_of(v) == JsonDoc::Object(members_of(fields@)),
{
    fields.into_iter().collect::<serde_json::Value>()
}

/// The `Display` of a `Value`, through `to_string`. Trusted: it prints the
/// compact JSON text of the value, a function of the document alone, named
/// by [`json_text`]. (The members of an object are kept sorted by key, so
/// the order in which they were put in does not show; printing a `Value`
/// into a string has no way to fail.)
#[verifier::external_body]
pub(crate) fn render(v: &serde_json::Value) -> (s: String)
    ensures
        s@ == json_text(doc_of(*v)),
{
    v.to_string()
}

} // verus!
