//! JSON documents as plain values. `serde_json` parses; its tree is handed
//! over as a [`Json`], which the collectors read with the verified
//! accessors below.
use vstd::prelude::*;
use crate::text::{clone_string, opt_view};

verus! {

#[verifier::external_type_specification]
#[verifier::external_body]
pub struct ExJsonValue(serde_json::Value);

/// A parsed JSON value.
#[derive(Debug)]
pub enum Json {
    Null,
    Bool(bool),
    /// A number, with its value when it is a non-negative integer that fits
    /// in 64 bits.
    Number(Option<u64>),
    Text(String),
    Array(Vec<Json>),
    /// The members of an object in `serde_json`'s order, each key once.
    Object(Vec<(String, Json)>),
}

/// What `serde_json::from_str` makes of a text: the value, or the text of
/// its error.
pub uninterp spec fn parsed_text(text: Seq<char>) -> Result<Json, Seq<char>>;

/// What `serde_json::from_slice` makes of raw bytes.
pub uninterp spec fn parsed_bytes(bytes: Seq<u8>) -> Result<Json, Seq<char>>;

pub open spec fn result_view(r: Result<Json, String>) -> Result<Json, Seq<char>> {
    match r {
        Ok(j) => Ok(j),
        Err(e) => Err(e@),
    }
}

/// `serde_json::from_str::<serde_json::Value>`, converted to a [`Json`];
/// the result is a function of the text alone.
#[verifier::external_body]
pub(crate) fn parse_json(text: &str) -> (r: Result<Json, String>)
    ensures
        result_view(r) == parsed_text(text@),
{
    match serde_json::from_str::<serde_json::Value>(text) {
        Ok(value) => Ok(json_tree(&value)),
        Err(error) => Err(error.to_string()),
    }
}

/// `serde_json::from_slice::<serde_json::Value>`, converted to a [`Json`];
/// the result is a function of the bytes alone.
#[verifier::external_body]
pub(crate) fn parse_json_bytes(bytes: &[u8]) -> (r: Result<Json, String>)
    ensures
        result_view(r) == parsed_bytes(bytes@),
{
    match serde_json::from_slice::<serde_json::Value>(bytes) {
        Ok(value) => Ok(json_tree(&value)),
        Err(error) => Err(error.to_string()),
    }
}

/// The conversion of a `serde_json::Value` for the two parsers above,
/// variant for variant (`Number::as_u64` for numbers).
#[verifier::external_body]
fn json_tree(value: &serde_json::Value) -> Json {
    match value {
        serde_json::Value::Null => Json::Null,
        serde_json::Value::Bool(b) => Json::Bool(*b),
        serde_json::Value::Number(n) => Json::Number(n.as_u64()),
        serde_json::Value::String(s) => Json::Text(s.clone()),
        serde_json::Value::Array(items) => Json::Array(items.iter().map(json_tree).collect()),
        serde_json::Value::Object(map) => Json::Object(map.iter().map(|(k, v)| (k.clone(), json_tree(v))).collect()),
    }
}

/// The member `key` among `entries` from index `i` on.
pub open spec fn member_from(entries: Seq<(String, Json)>, key: Seq<char>, i: int) -> Option<Json>
    decreases entries.len() - i,
{
    if i < 0 || i >= entries.len() {
        None
    } else if entries[i].0@ == key {
        Some(entries[i].1)
    } else {
        member_from(entries, key, i + 1)
    }
}

/// The member `key` of an object; `None` for a missing member or a value
/// that is not an object.
pub open spec fn member(j: Json, key: Seq<char>) -> Option<Json> {
    match j {
        Json::Object(entries) => member_from(entries@, key, 0),
        _ => None,
    }
}

pub open spec fn text_of(j: Json) -> Option<Seq<char>> {
    match j {
        Json::Text(s) => Some(s@),
        _ => None,
    }
}

pub open spec fn u64_of(j: Json) -> Option<u64> {
    match j {
        Json::Number(n) => n,
        _ => None,
    }
}

/// The text of member `key`, when it is a string.
pub open spec fn member_text(j: Option<Json>, key: Seq<char>) -> Option<Seq<char>> {
    match j {
        Some(v) => match member(v, key) {
            Some(m) => text_of(m),
            None => None,
        },
        None => None,
    }
}

/// The value of member `key`, when it is an unsigned integer.
pub open spec fn member_u64(j: Option<Json>, key: Seq<char>) -> Option<u64> {
    match j {
        Some(v) => match member(v, key) {
            Some(m) => u64_of(m),
            None => None,
        },
        None => None,
    }
}

/// An optional borrowed value as a value.
pub open spec fn opt_json(o: Option<&Json>) -> Option<Json> {
    match o {
        Some(v) => Some(*v),
        None => None,
    }
}

/// The member `key` of an optional object.
pub open spec fn member_opt(j: Option<Json>, key: Seq<char>) -> Option<Json> {
    match j {
        Some(v) => member(v, key),
        None => None,
    }
}

/// `Value::get` with a member name.
pub fn json_member<'a>(j: &'a Json, key: &str) -> (r: Option<&'a Json>)
    ensures
        match r {
            Some(v) => member(*j, key@) == Some(*v),
            None => member(*j, key@) is None,
        },
{
    match j {
        Json::Object(entries) => {
            let mut i: usize = 0;
            while i < entries.len()
                invariant
                    i <= entries@.len(),
                    member(*j, key@) == member_from(entries@, key@, 0),
                    member_from(entries@, key@, 0) == member_from(entries@, key@, i as int),
                decreases entries@.len() - i,
            {
                let entry = &entries[i];
                if crate::text::eq_str(entry.0.as_str(), key) {
                    assert(entries@[i as int].0@ == key@);
                    assert(member_from(entries@, key@, i as int) == Some(entries@[i as int].1));
                    return Some(&entry.1);
                }
                i = i + 1;
            }
            None
        },
        _ => None,
    }
}

/// `Value::as_str`, copied.
pub fn json_as_str(j: &Json) -> (r: Option<String>)
    ensures
        opt_view(r) == text_of(*j),
{
    match j {
        Json::Text(s) => Some(clone_string(s)),
        _ => None,
    }
}

/// `Value::as_u64`.
pub fn json_as_u64(j: &Json) -> (r: Option<u64>)
    ensures
        r == u64_of(*j),
{
    match j {
        Json::Number(n) => *n,
        _ => None,
    }
}

/// The text of member `key` of an optional object, when it is a string.
pub fn member_str(j: Option<&Json>, key: &str) -> (r: Option<String>)
    ensures
        opt_view(r) == member_text(opt_json(j), key@),
{
    match j {
        Some(v) => match json_member(v, key) {
            Some(m) => json_as_str(m),
            None => None,
        },
        None => None,
    }
}

/// The value of member `key` of an optional object, when it is an
/// unsigned integer.
pub fn member_number(j: Option<&Json>, key: &str) -> (r: Option<u64>)
    ensures
        r == member_u64(opt_json(j), key@),
{
    match j {
        Some(v) => match json_member(v, key) {
            Some(m) => json_as_u64(m),
            None => None,
        },
        None => None,
    }
}

} // verus!
