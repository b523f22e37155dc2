//! One page of a collection, as a response carries it.
//!
//! A response is an object. Its `results` member lists the records of the
//! page; its `paging` member, where the collection goes on, holds a `next`
//! descriptor with the cursor `after` which the next page starts. Either
//! member may be missing.

use crate::json::{find_member, Json};
use vstd::prelude::*;

verus! {

/// What the engine reads from a response.
#[derive(Debug, PartialEq, Eq)]
pub struct Page {
    /// Whether the response describes a next page.
    pub has_next: bool,
    /// The cursor of the next page, where the response gives one.
    pub cursor: Option<String>,
    /// The records of the page, in the order of the response.
    pub records: Vec<Json>,
}

/// The descriptor of the next page in a response.
pub open spec fn next_descriptor(document: Json) -> Option<Json> {
    match document.member("paging"@) {
        Some(paging) => paging.member("next"@),
        None => None,
    }
}

/// Whether a response describes a next page.
pub open spec fn has_next(document: Json) -> bool {
    next_descriptor(document) is Some
}

/// The cursor of the next page: the `after` member of the descriptor, where
/// it is a string.
pub open spec fn next_cursor(document: Json) -> Option<Seq<char>> {
    match next_descriptor(document) {
        Some(next) => match next.member("after"@) {
            Some(Json::String(token)) => Some(token@),
            _ => None,
        },
        None => None,
    }
}

/// The records of a response: the items of its `results` member, where that
/// is an array.
pub open spec fn results(document: Json) -> Seq<Json> {
    match document.member("results"@) {
        Some(Json::Array(items)) => items@,
        _ => Seq::empty(),
    }
}

/// The cursor of a page as the contracts speak of it.
pub open spec fn cursor_view(cursor: Option<String>) -> Option<Seq<char>> {
    match cursor {
        Some(token) => Some(token@),
        None => None,
    }
}

/// Reads the cursor of the next page from a response.
pub fn read_cursor(document: &Json) -> (cursor: Option<String>)
    ensures
        cursor_view(cursor) == next_cursor(*document),
{
    match read_next(document) {
        Some(next) => match next.get("after") {
            Some(Json::String(token)) => Some(token.clone()),
            _ => None,
        },
        None => None,
    }
}

/// Finds the descriptor of the next page in a response.
pub fn read_next(document: &Json) -> (next: Option<&Json>)
    ensures
        match next {
            Some(descriptor) => next_descriptor(*document) == Some(*descriptor),
            None => next_descriptor(*document) is None,
        },
{
    match document.get("paging") {
        Some(paging) => paging.get("next"),
        None => None,
    }
}

/// Takes the records out of a response.
pub fn take_results(document: Json) -> (records: Vec<Json>)
    ensures
        records@ == results(document),
{
    match document {
        Json::Object(members) => {
            let mut members = members;
            match find_member(&members, "results") {
                Some(index) => {
                    let member = members.remove(index);
                    match member.1 {
                        Json::Array(items) => items,
                        _ => Vec::new(),
                    }
                },
                None => Vec::new(),
            }
        },
        _ => Vec::new(),
    }
}

impl Page {
    /// Reads a page from a response.
    pub fn read(document: Json) -> (page: Page)
        ensures
            page.has_next == has_next(document),
            cursor_view(page.cursor) == next_cursor(document),
            page.records@ == results(document),
    {
        let has_next = read_next(&document).is_some();
        let cursor = read_cursor(&document);
        let records = take_results(document);
        Page { has_next, cursor, records }
    }
}

} // verus!
