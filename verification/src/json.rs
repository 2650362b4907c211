//! JSON documents as the bridge sees them.
//!
//! A document is held as text. Reading a text as JSON and writing a string as
//! a JSON literal are left to `serde_json`; what this module adds on top is
//! the access to the parts of a document that the protocol reads.

use crate::text::{is_single_line, same_text};
use serde_json::Value;
use vstd::prelude::*;

verus! {

/// JSON text: a document, or a part of one that is a document itself.
#[derive(Debug)]
pub struct Json {
    pub text: String,
}

impl View for Json {
    type V = Seq<char>;

    open spec fn view(&self) -> Seq<char> {
        self.text@
    }
}

/// The outermost form of a JSON document. Numbers are kept as they are
/// written; the items of an array and the values of an object are documents
/// of their own.
#[derive(Debug)]
pub enum JsonShape {
    Null,
    Bool(bool),
    Number(String),
    Text(String),
    Array(Vec<Json>),
    Object(Vec<(String, Json)>),
}

/// Mathematical form of [`JsonShape`].
pub enum JsonShapeView {
    Null,
    Bool(bool),
    Number(Seq<char>),
    Text(Seq<char>),
    Array(Seq<Seq<char>>),
    Object(Seq<(Seq<char>, Seq<char>)>),
}

impl View for JsonShape {
    type V = JsonShapeView;

    open spec fn view(&self) -> JsonShapeView {
        match self {
            JsonShape::Null => JsonShapeView::Null,
            JsonShape::Bool(b) => JsonShapeView::Bool(*b),
            JsonShape::Number(n) => JsonShapeView::Number(n@),
            JsonShape::Text(s) => JsonShapeView::Text(s@),
            JsonShape::Array(items) => JsonShapeView::Array(items@.map_values(|j: Json| j@)),
            JsonShape::Object(members) => JsonShapeView::Object(members_view(members@)),
        }
    }
}

/// The members of an object as pairs of texts.
pub open spec fn members_view(members: Seq<(String, Json)>) -> Seq<(Seq<char>, Seq<char>)> {
    members.map_values(|m: (String, Json)| (m.0@, m.1@))
}

/// A JSON document that was read: its text without insignificant
/// whitespace, and its outermost form.
#[derive(Debug)]
pub struct JsonDocument {
    pub compact: Json,
    pub shape: JsonShape,
}

/// Mathematical form of [`JsonDocument`].
pub struct JsonDocumentView {
    pub compact: Seq<char>,
    pub shape: JsonShapeView,
}

impl View for JsonDocument {
    type V = JsonDocumentView;

    open spec fn view(&self) -> JsonDocumentView {
        JsonDocumentView { compact: self.compact@, shape: self.shape@ }
    }
}

/// Why a text could not be read as JSON.
#[derive(Debug)]
pub struct JsonError {
    pub message: String,
}

/// The error type of `serde_json`.
#[verifier::external_type_specification]
#[verifier::external_body]
pub struct ExJsonError(serde_json::Error);

/// What `serde_json` reads `text` as: `None` where it is no JSON document.
pub uninterp spec fn json_document(text: Seq<char>) -> Option<JsonDocumentView>;

/// The JSON string literal that `serde_json` writes for the string `s`.
pub uninterp spec fn json_string_literal(s: Seq<char>) -> Seq<char>;

/// `serde_json::from_str` into a `serde_json::Value`: fails exactly on the
/// texts that are no JSON document. For one that is, the value is handed back
/// one level deep: its compact text as `Value`'s `Display` writes it, its
/// variant, and the compact text of each item or member. The compact text
/// holds no line break: line breaks in strings are written as escapes, and
/// between the parts of a document only the pretty form puts any.
#[verifier::external_body]
fn parse_document(text: &str) -> (r: Result<JsonDocument, serde_json::Error>)
    ensures
        r is Ok <==> json_document(text@) is Some,
        r matches Ok(d) ==> d@ == json_document(text@)->0,
        r matches Ok(d) ==> is_single_line(d.compact@),
{
    let value: Value = serde_json::from_str(text)?;
    let compact = Json { text: value.to_string() };
    let shape = match value {
        Value::Null => JsonShape::Null,
        Value::Bool(b) => JsonShape::Bool(b),
        Value::Number(n) => JsonShape::Number(n.to_string()),
        Value::String(s) => JsonShape::Text(s),
        Value::Array(a) => JsonShape::Array(a.iter().map(|v| Json { text: v.to_string() }).collect()),
        Value::Object(m) => JsonShape::Object(
            m.iter().map(|(k, v)| (k.clone(), Json { text: v.to_string() })).collect(),
        ),
    };
    Ok(JsonDocument { compact, shape })
}

/// `serde_json::to_string` of a string slice: the JSON string literal for it.
/// It does not fail on a string slice. The function fails only where the
/// value's own way of serializing fails or a map has a key that is no
/// string, and a string slice is neither; and it writes to a vector in
/// memory, to which every write succeeds. The literal holds no line break:
/// a line break in `s` is written as the escape `\n`.
#[verifier::external_body]
fn write_string_literal(s: &str) -> (r: Result<String, serde_json::Error>)
    ensures
        r is Ok,
        r matches Ok(t) ==> t@ == json_string_literal(s@),
        r matches Ok(t) ==> is_single_line(t@),
{
    serde_json::to_string(s)
}

/// The message of a `serde_json` error, as its `Display` writes it.
#[verifier::external_body]
fn error_message(e: &serde_json::Error) -> (message: String) {
    e.to_string()
}

/// Reads `text` as a JSON document.
pub fn inspect(text: &str) -> (r: Result<JsonDocument, JsonError>)
    ensures
        r is Ok <==> json_document(text@) is Some,
        r matches Ok(d) ==> d@ == json_document(text@)->0,
        r matches Ok(d) ==> is_single_line(d.compact@),
{
    match parse_document(text) {
        Ok(d) => Ok(d),
        Err(e) => Err(JsonError { message: error_message(&e) }),
    }
}

/// The first member of `members` whose key is `key`.
pub open spec fn find_member(members: Seq<(Seq<char>, Seq<char>)>, key: Seq<char>) -> Option<
    Seq<char>,
>
    decreases members.len(),
{
    if members.len() == 0 {
        None
    } else if members[0].0 == key {
        Some(members[0].1)
    } else {
        find_member(members.skip(1), key)
    }
}

/// The value of the member `key` of an object whose members are `members`.
pub fn member<'a>(members: &'a Vec<(String, Json)>, key: &str) -> (r: Option<&'a Json>)
    ensures
        r is Some <==> find_member(members_view(members@), key@) is Some,
        r matches Some(j) ==> j@ == find_member(members_view(members@), key@)->0,
{
    let ghost all = members_view(members@);
    assert(all.skip(0) == all);
    let mut i: usize = 0;
    while i < members.len()
        invariant
            i <= members.len(),
            all == members_view(members@),
            find_member(all, key@) == find_member(all.skip(i as int), key@),
        decreases members.len() - i,
    {
        proof {
            assert(all.skip(i as int)[0] == all[i as int]);
            assert(all.skip(i as int).skip(1) == all.skip(i as int + 1));
        }
        if same_text(members[i].0.as_str(), key) {
            return Some(&members[i].1);
        }
        i += 1;
    }
    None
}

impl Json {
    /// The document `null`.
    pub fn null() -> (j: Json)
        ensures
            j@ == "null"@,
    {
        Json { text: String::from_str("null") }
    }

    /// The object without members, `{}`.
    pub fn empty_object() -> (j: Json)
        ensures
            j@ == "{}"@,
    {
        Json { text: String::from_str("{}") }
    }

    /// The JSON string that holds `s`: always `Ok`, with the string literal
    /// that `serde_json` writes for `s`, which is a single line.
    pub fn string(s: &str) -> (r: Result<Json, JsonError>)
        ensures
            r matches Ok(j) && j@ == json_string_literal(s@) && is_single_line(j@),
    {
        match write_string_literal(s) {
            Ok(text) => Ok(Json { text }),
            Err(e) => Err(JsonError { message: error_message(&e) }),
        }
    }

    /// Reads `text` as JSON and keeps it without insignificant whitespace,
    /// as a single line.
    pub fn parse(text: &str) -> (r: Result<Json, JsonError>)
        ensures
            r is Ok <==> json_document(text@) is Some,
            r matches Ok(j) ==> j@ == json_document(text@)->0.compact && is_single_line(j@),
    {
        match inspect(text) {
            Ok(d) => Ok(d.compact),
            Err(e) => Err(e),
        }
    }

    /// The text of the document.
    pub fn as_str(&self) -> (s: &str)
        ensures
            s@ == self@,
    {
        self.text.as_str()
    }

    /// A copy of the document.
    pub fn duplicate(&self) -> (j: Json)
        ensures
            j@ == self@,
    {
        Json { text: self.text.clone() }
    }

    /// Whether the document is a JSON object.
    pub fn is_object(&self) -> (r: bool)
        ensures
            r == (json_document(self@) matches Some(d) && d.shape is Object),
    {
        match inspect(self.text.as_str()) {
            Ok(d) => match d.shape {
                JsonShape::Object(_) => true,
                _ => false,
            },
            Err(_) => false,
        }
    }

    /// The value of the member `key`, where the document is an object that
    /// has one.
    pub fn get(&self, key: &str) -> (r: Option<Json>)
        ensures
            r is Some <==> member_of(self@, key@) is Some,
            r matches Some(j) ==> j@ == member_of(self@, key@)->0,
    {
        match inspect(self.text.as_str()) {
            Ok(d) => match d.shape {
                JsonShape::Object(members) => match member(&members, key) {
                    Some(j) => Some(j.duplicate()),
                    None => None,
                },
                _ => None,
            },
            Err(_) => None,
        }
    }
}

/// The value of the member `key` of the object that `text` is; `None` where
/// `text` is no object or has no such member.
pub open spec fn member_of(text: Seq<char>, key: Seq<char>) -> Option<Seq<char>> {
    match json_document(text) {
        Some(d) => match d.shape {
            JsonShapeView::Object(members) => find_member(members, key),
            _ => None,
        },
        None => None,
    }
}

} // verus!
