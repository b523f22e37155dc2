//! Declared columns, typed cells, and the coercion of a JSON value into a
//! cell of a declared kind.

use crate::json::{render, rendered, Json};
use vstd::prelude::*;
use vstd::string::*;

verus! {

/// The kind of cell that a column is declared to hold.
#[derive(Debug, PartialEq, Eq)]
pub enum ColumnKind {
    Bool,
    String,
    Timestamp,
    Json,
    /// Any other kind, under the name that its declaration gives it. A
    /// column of such a kind takes numbers and shows them as text.
    Other(String),
}

/// A column that every row of a scan must fill.
#[derive(Debug, PartialEq, Eq)]
pub struct Column {
    /// A member's name, or a path of names joined by dots.
    pub name: String,
    pub kind: ColumnKind,
}

/// One value of a row.
#[derive(Debug, PartialEq, Eq)]
pub enum Cell {
    Bool(bool),
    String(String),
    /// Microseconds since the Unix epoch.
    Timestamp(i64),
    /// A JSON text.
    Json(String),
}

/// What a `Cell` holds, with its texts as sequences of characters.
pub enum CellView {
    Bool(bool),
    String(Seq<char>),
    Timestamp(i64),
    Json(Seq<char>),
}

impl View for Cell {
    type V = CellView;

    open spec fn view(&self) -> CellView {
        match self {
            Cell::Bool(b) => CellView::Bool(*b),
            Cell::String(text) => CellView::String(text@),
            Cell::Timestamp(instant) => CellView::Timestamp(*instant),
            Cell::Json(text) => CellView::Json(text@),
        }
    }
}

impl ColumnKind {
    /// The name under which a failure reports the kind.
    pub open spec fn label(self) -> Seq<char> {
        match self {
            ColumnKind::Bool => "Bool"@,
            ColumnKind::String => "String"@,
            ColumnKind::Timestamp => "Timestamp"@,
            ColumnKind::Json => "Json"@,
            ColumnKind::Other(name) => name@,
        }
    }

    /// The name under which a failure reports the kind.
    pub fn name(&self) -> (text: String)
        ensures
            text@ == self.label(),
    {
        match self {
            ColumnKind::Bool => String::from_str("Bool"),
            ColumnKind::String => String::from_str("String"),
            ColumnKind::Timestamp => String::from_str("Timestamp"),
            ColumnKind::Json => String::from_str("Json"),
            ColumnKind::Other(name) => name.clone(),
        }
    }
}

/// The cell of kind `kind` that `value` becomes, if it can become one.
///
/// `instant` is what the timestamp parser made of the value's text; it
/// counts only for a timestamp column whose value is a string, and `None`
/// says that the parser refused the text.
pub open spec fn coerced(value: Json, kind: ColumnKind, instant: Option<i64>) -> Option<CellView> {
    match kind {
        ColumnKind::Bool => match value {
            Json::Bool(b) => Some(CellView::Bool(b)),
            _ => None,
        },
        ColumnKind::String => match value {
            Json::String(text) => Some(CellView::String(text@)),
            _ => None,
        },
        ColumnKind::Timestamp => match (value, instant) {
            (Json::String(_), Some(t)) => Some(CellView::Timestamp(t)),
            _ => None,
        },
        ColumnKind::Json => Some(CellView::Json(rendered(value))),
        ColumnKind::Other(_) => match value {
            Json::Number(_) => Some(CellView::String(rendered(value))),
            _ => None,
        },
    }
}

/// Turns `value` into a cell of kind `kind`, or says that it cannot.
pub fn coerce(value: &Json, kind: &ColumnKind, instant: Option<i64>) -> (cell: Option<Cell>)
    ensures
        match cell {
            Some(c) => coerced(*value, *kind, instant) == Some(c@),
            None => coerced(*value, *kind, instant) is None,
        },
{
    match kind {
        ColumnKind::Bool => match value {
            Json::Bool(b) => Some(Cell::Bool(*b)),
            _ => None,
        },
        ColumnKind::String => match value {
            Json::String(text) => Some(Cell::String(text.clone())),
            _ => None,
        },
        ColumnKind::Timestamp => match value {
            Json::String(_) => match instant {
                Some(t) => Some(Cell::Timestamp(t)),
                None => None,
            },
            _ => None,
        },
        ColumnKind::Json => Some(Cell::Json(render(value))),
        ColumnKind::Other(_) => match value {
            Json::Number(_) => Some(Cell::String(render(value))),
            _ => None,
        },
    }
}

} // verus!
