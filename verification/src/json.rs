//! JSON documents as the engine reads them.

use crate::error::ScanError;
use vstd::prelude::*;

verus! {

/// `serde_json::Number`: a JSON number, which a `Json` carries as it was
/// read. Nothing is known of what it holds.
#[verifier::external_type_specification]
#[verifier::external_body]
pub struct ExNumber(serde_json::Number);

/// `serde_json::Value`: the form in which serde_json reads and writes a
/// document. Nothing is known of what it holds.
#[verifier::external_type_specification]
#[verifier::external_body]
pub struct ExValue(serde_json::Value);

/// `serde_json::Error`: why serde_json rejected a text. Nothing is known of
/// what it holds.
#[verifier::external_type_specification]
#[verifier::external_body]
pub struct ExError(serde_json::Error);

/// A JSON value.
///
/// An object is a list of members, each a key and a value. Where a key
/// stands more than once, the last member under it is the one that counts.
/// A document that was parsed has each key once.
#[derive(Debug, PartialEq, Eq)]
pub enum Json {
    Null,
    Bool(bool),
    Number(serde_json::Number),
    String(String),
    Array(Vec<Json>),
    Object(Vec<(String, Json)>),
}

/// What `serde_json::from_str` reads from `text` as a `serde_json::Value`,
/// written as a `Json`; `None` where it rejects the text.
pub uninterp spec fn parsed(text: Seq<char>) -> Option<Json>;

/// The compact JSON text that `serde_json::Value` displays for `value`.
pub uninterp spec fn rendered(value: Json) -> Seq<char>;

/// Rewrites a `serde_json::Value` as a `Json`, variant by variant. The
/// members of an object come in the order in which its map yields them.
#[verifier::external_body]
fn import(value: serde_json::Value) -> Json {
    match value {
        serde_json::Value::Null => Json::Null,
        serde_json::Value::Bool(b) => Json::Bool(b),
        serde_json::Value::Number(n) => Json::Number(n),
        serde_json::Value::String(s) => Json::String(s),
        serde_json::Value::Array(items) => Json::Array(items.into_iter().map(import).collect()),
        serde_json::Value::Object(map) => Json::Object(
            map.into_iter().map(|(k, v)| (k, import(v))).collect(),
        ),
    }
}

/// Rewrites a `Json` as a `serde_json::Value`, variant by variant. Where an
/// object repeats a key, the map keeps the last member that carries it.
#[verifier::external_body]
fn export(value: &Json) -> serde_json::Value {
    match value {
        Json::Null => serde_json::Value::Null,
        Json::Bool(b) => serde_json::Value::Bool(*b),
        Json::Number(n) => serde_json::Value::Number(n.clone()),
        Json::String(s) => serde_json::Value::String(s.clone()),
        Json::Array(items) => serde_json::Value::Array(items.iter().map(export).collect()),
        Json::Object(members) => serde_json::Value::Object(
            members.iter().map(|(k, v)| (k.clone(), export(v))).collect(),
        ),
    }
}

/// Calls `serde_json::from_str` for a `serde_json::Value`. The contract
/// claims that the outcome depends on the text alone: the document read, or
/// a refusal.
#[verifier::external_body]
pub(crate) fn parse_document(text: &str) -> (outcome: Result<Json, serde_json::Error>)
    ensures
        match outcome {
            Ok(document) => parsed(text@) == Some(document),
            Err(_) => parsed(text@) is None,
        },
{
    match serde_json::from_str::<serde_json::Value>(text) {
        Ok(value) => Ok(import(value)),
        Err(error) => Err(error),
    }
}

/// Calls `to_string` on the `serde_json::Value` that stands for `value`,
/// which writes compact JSON and does not fail. The contract claims that
/// the text depends on the value alone.
#[verifier::external_body]
pub(crate) fn render(value: &Json) -> (text: String)
    ensures
        text@ == rendered(*value),
{
    export(value).to_string()
}

/// Calls `to_string` on a `serde_json::Error`: the parser's message, with
/// the line and column where it has them. Nothing is claimed of the text.
#[verifier::external_body]
pub(crate) fn describe(error: &serde_json::Error) -> String {
    error.to_string()
}

/// The member that `key` names among `members`: the last one that carries
/// the key, if any does.
pub open spec fn lookup(members: Seq<(String, Json)>, key: Seq<char>) -> Option<Json>
    decreases members.len(),
{
    if members.len() == 0 {
        None
    } else if members.last().0@ == key {
        Some(members.last().1)
    } else {
        lookup(members.drop_last(), key)
    }
}

/// Finds where among `members` the member under `key` stands.
pub fn find_member(members: &Vec<(String, Json)>, key: &str) -> (found: Option<usize>)
    ensures
        match found {
            Some(index) => index < members@.len() && members@[index as int].0@ == key@ && lookup(
                members@,
                key@,
            ) == Some(members@[index as int].1),
            None => lookup(members@, key@) is None,
        },
{
    let wanted = key.to_owned();
    let mut i: usize = members.len();
    assert(members@.take(i as int) == members@);
    while i > 0
        invariant
            i <= members.len(),
            wanted@ == key@,
            lookup(members@, key@) == lookup(members@.take(i as int), key@),
        decreases i,
    {
        i = i - 1;
        assert(members@.take(i + 1).drop_last() == members@.take(i as int));
        if members[i].0 == wanted {
            return Some(i);
        }
    }
    None
}

impl Json {
    /// The member of an object under `key`. Anything but an object has no
    /// members.
    pub open spec fn member(self, key: Seq<char>) -> Option<Json> {
        match self {
            Json::Object(members) => lookup(members@, key),
            _ => None,
        }
    }

    /// Reads a JSON document from `text`.
    pub fn parse(text: &str) -> (outcome: Result<Json, ScanError>)
        ensures
            match outcome {
                Ok(document) => parsed(text@) == Some(document),
                Err(error) => parsed(text@) is None && error is Parse,
            },
    {
        match parse_document(text) {
            Ok(document) => Ok(document),
            Err(error) => Err(ScanError::Parse(describe(&error))),
        }
    }

    /// Writes the value as compact JSON.
    pub fn to_text(&self) -> (text: String)
        ensures
            text@ == rendered(*self),
    {
        render(self)
    }

    /// Looks up the member of an object under `key`.
    pub fn get(&self, key: &str) -> (found: Option<&Json>)
        ensures
            match found {
                Some(value) => self.member(key@) == Some(*value),
                None => self.member(key@) is None,
            },
    {
        match self {
            Json::Object(members) => match find_member(members, key) {
                Some(index) => Some(&members[index].1),
                None => None,
            },
            _ => None,
        }
    }
}

} // verus!
