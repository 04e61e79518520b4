//! Reading JSON documents through `serde_json`.
//!
//! A document is opaque to the verifier. Its mathematical view is a tree of
//! the six kinds of JSON value; the contracts of the calls into `serde_json`
//! are stated over that view, and the field readers below are proved from
//! them.

use vstd::prelude::*;

verus! {

/// `serde_json::Value`, carried through verified code as an opaque value.
#[verifier::external_type_specification]
#[verifier::external_body]
pub struct ExValue(serde_json::Value);

/// A JSON number as far as it is read here.
pub ghost enum JsonNumber {
    /// A non-negative integer that fits 64 bits.
    Unsigned(u64),
    /// A negative integer that fits 64 bits.
    Negative(i64),
    /// Any other number.
    Real,
}

/// A JSON document as a mathematical value.
pub ghost enum JsonView {
    Null,
    Bool(bool),
    Number(JsonNumber),
    Text(Seq<char>),
    Array(Seq<JsonView>),
    Object(Map<Seq<char>, JsonView>),
}

/// What a `serde_json::Value` holds.
pub uninterp spec fn json_view(doc: serde_json::Value) -> JsonView;

/// The document that `serde_json::from_str` reads from a text; none where it
/// refuses the text, as it does for what is no JSON, for nesting deeper than
/// its bound and for numbers out of its range.
pub uninterp spec fn json_parse(text: Seq<char>) -> Option<JsonView>;

/// The views of a sequence of documents.
pub open spec fn views_of(docs: Seq<serde_json::Value>) -> Seq<JsonView> {
    Seq::new(docs.len(), |i: int| json_view(docs[i]))
}

/// The member of an object under a key; none where the document is no
/// object or lacks the key.
pub open spec fn member_of(doc: JsonView, key: Seq<char>) -> Option<JsonView> {
    match doc {
        JsonView::Object(members) => if members.contains_key(key) {
            Some(members[key])
        } else {
            None
        },
        _ => None,
    }
}

/// The text of a document that is a string.
pub open spec fn text_of(doc: JsonView) -> Option<Seq<char>> {
    match doc {
        JsonView::Text(s) => Some(s),
        _ => None,
    }
}

/// The value of a document that is a non-negative integer of 64 bits.
pub open spec fn unsigned_of(doc: JsonView) -> Option<u64> {
    match doc {
        JsonView::Number(JsonNumber::Unsigned(n)) => Some(n),
        _ => None,
    }
}

/// The elements of a document that is an array.
pub open spec fn items_of(doc: JsonView) -> Option<Seq<JsonView>> {
    match doc {
        JsonView::Array(items) => Some(items),
        _ => None,
    }
}

/// Calls `serde_json::from_str` for a `serde_json::Value`. The result holds
/// the named document of the text; a parse error becomes `None`.
#[verifier::external_body]
pub(crate) fn parse_document(text: &str) -> (r: Option<serde_json::Value>)
    ensures
        match r {
            Some(doc) => json_parse(text@) == Some(json_view(doc)),
            None => json_parse(text@) is None,
        },
{
    match serde_json::from_str::<serde_json::Value>(text) {
        Ok(doc) => Some(doc),
        Err(_) => None,
    }
}

/// Calls `serde_json::Value::get` with a string key. The result is present
/// only where the document is an object that holds the key, and is then the
/// member under it.
#[verifier::external_body]
pub(crate) fn member<'a>(doc: &'a serde_json::Value, key: &str) -> (r: Option<
    &'a serde_json::Value,
>)
    ensures
        match r {
            Some(m) => member_of(json_view(*doc), key@) == Some(json_view(*m)),
            None => member_of(json_view(*doc), key@) is None,
        },
{
    doc.get(key)
}

/// Calls `serde_json::Value::as_str`. The result is present only where the
/// document is a string, and is then its text.
#[verifier::external_body]
pub(crate) fn text<'a>(doc: &'a serde_json::Value) -> (r: Option<&'a str>)
    ensures
        match r {
            Some(s) => text_of(json_view(*doc)) == Some(s@),
            None => text_of(json_view(*doc)) is None,
        },
{
    doc.as_str()
}

/// Calls `serde_json::Value::as_u64`. The result is present only where the
/// document is a non-negative integer that fits 64 bits, and is then its
/// value.
#[verifier::external_body]
pub(crate) fn unsigned(doc: &serde_json::Value) -> (r: Option<u64>)
    ensures
        r == unsigned_of(json_view(*doc)),
{
    doc.as_u64()
}

/// Calls `serde_json::Value::as_array`. The result is present only where the
/// document is an array, and then holds its elements in order.
#[verifier::external_body]
pub(crate) fn items<'a>(doc: &'a serde_json::Value) -> (r: Option<&'a Vec<serde_json::Value>>)
    ensures
        match r {
            Some(v) => items_of(json_view(*doc)) == Some(views_of(v@)),
            None => items_of(json_view(*doc)) is None,
        },
{
    doc.as_array()
}

/// The text under `key` in `doc`: the member must be present and a string.
pub open spec fn text_at(doc: JsonView, key: Seq<char>) -> Option<Seq<char>> {
    match member_of(doc, key) {
        Some(m) => text_of(m),
        None => None,
    }
}

/// The number under `key` in `doc`: the member must be present and a
/// non-negative integer of 64 bits.
pub open spec fn unsigned_at(doc: JsonView, key: Seq<char>) -> Option<u64> {
    match member_of(doc, key) {
        Some(m) => unsigned_of(m),
        None => None,
    }
}

/// The view of an optional string.
pub open spec fn opt_text(o: Option<String>) -> Option<Seq<char>> {
    match o {
        Some(s) => Some(s@),
        None => None,
    }
}

/// Reads the string member `key` of `doc`.
pub fn text_field(doc: &serde_json::Value, key: &str) -> (r: Option<String>)
    ensures
        opt_text(r) == text_at(json_view(*doc), key@),
{
    match member(doc, key) {
        Some(m) => match text(m) {
            Some(s) => Some(s.to_owned()),
            None => None,
        },
        None => None,
    }
}

/// Reads the unsigned integer member `key` of `doc`.
pub fn unsigned_field(doc: &serde_json::Value, key: &str) -> (r: Option<u64>)
    ensures
        r == unsigned_at(json_view(*doc), key@),
{
    match member(doc, key) {
        Some(m) => unsigned(m),
        None => None,
    }
}

} // verus!
