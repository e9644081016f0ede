//! A JSON document as plain values, and parsing one from text.

use vstd::prelude::*;

verus! {

/// A JSON document. A number keeps its decimal text; an object keeps its
/// members in the order they were read.
#[derive(Debug, PartialEq, Eq)]
pub enum JsonValue {
    Null,
    Bool(bool),
    Number(String),
    Str(String),
    Array(Vec<JsonValue>),
    Object(Vec<(String, JsonValue)>),
}

/// The value of the first member named `key` at index `i` or after it.
pub open spec fn member_from(fields: Seq<(String, JsonValue)>, key: Seq<char>, i: int) -> Option<
    JsonValue,
>
    decreases fields.len() - i,
{
    if i < 0 || i >= fields.len() {
        None
    } else if fields[i].0@ == key {
        Some(fields[i].1)
    } else {
        member_from(fields, key, i + 1)
    }
}

/// The value of the first member named `key`.
pub open spec fn member_of(fields: Seq<(String, JsonValue)>, key: Seq<char>) -> Option<JsonValue> {
    member_from(fields, key, 0)
}

/// The first member of `fields` named `key`.
pub fn lookup<'a>(fields: &'a Vec<(String, JsonValue)>, key: &String) -> (r: Option<&'a JsonValue>)
    ensures
        match member_of(fields@, key@) {
            Some(v) => r is Some && *r.unwrap() == v,
            None => r is None,
        },
{
    let mut i: usize = 0;
    while i < fields.len()
        invariant
            0 <= i <= fields@.len(),
            member_of(fields@, key@) == member_from(fields@, key@, i as int),
        decreases fields@.len() - i,
    {
        if fields[i].0 == *key {
            return Some(&fields[i].1);
        }
        i = i + 1;
    }
    None
}

impl JsonValue {
    /// The members of an object.
    pub open spec fn fields(self) -> Option<Seq<(String, JsonValue)>> {
        match self {
            JsonValue::Object(fields) => Some(fields@),
            _ => None,
        }
    }

    /// The member named `key` of an object; `None` for any other value.
    pub open spec fn member(self, key: Seq<char>) -> Option<JsonValue> {
        match self {
            JsonValue::Object(fields) => member_of(fields@, key),
            _ => None,
        }
    }

    /// The text of a string.
    pub open spec fn text(self) -> Option<Seq<char>> {
        match self {
            JsonValue::Str(s) => Some(s@),
            _ => None,
        }
    }

    /// The member named `key` of an object; `None` where there is no such
    /// member or the value is not an object.
    pub fn get(&self, key: &String) -> (r: Option<&JsonValue>)
        ensures
            match self.member(key@) {
                Some(v) => r is Some && *r.unwrap() == v,
                None => r is None,
            },
    {
        match self {
            JsonValue::Object(fields) => lookup(fields, key),
            _ => None,
        }
    }

    /// The members of an object.
    pub fn as_object(&self) -> (r: Option<&Vec<(String, JsonValue)>>)
        ensures
            match self.fields() {
                Some(f) => r is Some && r.unwrap()@ == f,
                None => r is None,
            },
    {
        match self {
            JsonValue::Object(fields) => Some(fields),
            _ => None,
        }
    }

    /// The text of a string.
    pub fn as_str(&self) -> (r: Option<&String>)
        ensures
            match self.text() {
                Some(t) => r is Some && r.unwrap()@ == t,
                None => r is None,
            },
    {
        match self {
            JsonValue::Str(s) => Some(s),
            _ => None,
        }
    }
}

/// The document that a text holds, as serde_json reads it; `None` where the
/// text is not one JSON document.
pub uninterp spec fn parsed_json(text: Seq<char>) -> Option<JsonValue>;

#[verifier::external_type_specification]
#[verifier::external_body]
pub struct ExSerdeJsonValue(serde_json::Value);

/// Moves each variant of `serde_json::Value` into the matching variant of
/// `JsonValue`; a number keeps the text that `serde_json::Number` displays.
#[verifier::external_body]
fn json_from_serde(v: serde_json::Value) -> JsonValue {
    match v {
        serde_json::Value::Null => JsonValue::Null,
        serde_json::Value::Bool(b) => JsonValue::Bool(b),
        serde_json::Value::Number(n) => JsonValue::Number(n.to_string()),
        serde_json::Value::String(s) => JsonValue::Str(s),
        serde_json::Value::Array(a) => JsonValue::Array(a.into_iter().map(json_from_serde).collect()),
        serde_json::Value::Object(m) => JsonValue::Object(
            m.into_iter().map(|(k, v)| (k, json_from_serde(v))).collect(),
        ),
    }
}

/// Relies on `serde_json::from_str::<serde_json::Value>`: it reads one JSON
/// document from the text, and fails on anything else; what it reads depends
/// on the text alone.
#[verifier::external_body]
pub(crate) fn parse_json(text: &str) -> (r: Option<JsonValue>)
    ensures
        r == parsed_json(text@),
{
    serde_json::from_str::<serde_json::Value>(text).ok().map(json_from_serde)
}

} // verus!
