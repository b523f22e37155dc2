//! The ways in which a scan can fail.

use vstd::prelude::*;
use vstd::string::*;

verus! {

/// A failure of the engine. Each one ends the operation that met it.
#[derive(Debug, PartialEq, Eq)]
pub enum ScanError {
    /// A required option was not supplied; holds the option's name.
    Configuration(String),
    /// The object selector names no supported collection; holds the selector.
    UnsupportedSelector(String),
    /// The request failed or was answered with a failure; holds the
    /// transport's message.
    Transport(String),
    /// The response body is not JSON; holds the parser's message.
    Parse(String),
    /// The record has no value for a column; holds the column's full name.
    ColumnNotFound(String),
    /// The record's value cannot become a cell of the declared kind.
    Coercion { column: String, kind: String },
    /// A write was attempted.
    ReadOnly,
}

/// What a `ScanError` says, with its texts as sequences of characters.
pub enum Failure {
    Configuration(Seq<char>),
    UnsupportedSelector(Seq<char>),
    Transport(Seq<char>),
    Parse(Seq<char>),
    ColumnNotFound(Seq<char>),
    Coercion { column: Seq<char>, kind: Seq<char> },
    ReadOnly,
}

impl View for ScanError {
    type V = Failure;

    open spec fn view(&self) -> Failure {
        match self {
            ScanError::Configuration(option) => Failure::Configuration(option@),
            ScanError::UnsupportedSelector(selector) => Failure::UnsupportedSelector(selector@),
            ScanError::Transport(text) => Failure::Transport(text@),
            ScanError::Parse(text) => Failure::Parse(text@),
            ScanError::ColumnNotFound(column) => Failure::ColumnNotFound(column@),
            ScanError::Coercion { column, kind } => Failure::Coercion {
                column: column@,
                kind: kind@,
            },
            ScanError::ReadOnly => Failure::ReadOnly,
        }
    }
}

impl Failure {
    /// The text shown to whoever ran the query.
    pub open spec fn message(self) -> Seq<char> {
        match self {
            Failure::Configuration(option) => "required option '"@ + option
                + "' is not specified"@,
            Failure::UnsupportedSelector(selector) => "Unsupported object type: "@ + selector,
            Failure::Transport(text) => text,
            Failure::Parse(text) => text,
            Failure::ColumnNotFound(column) => "source column '"@ + column + "' not found"@,
            Failure::Coercion { column, kind } => "cannot convert column '"@ + column
                + "' to type "@ + kind,
            Failure::ReadOnly => "This FDW is read-only"@,
        }
    }
}

impl ScanError {
    /// The text shown to whoever ran the query.
    pub fn message(&self) -> (text: String)
        ensures
            text@ == self@.message(),
    {
        match self {
            ScanError::Configuration(option) => {
                let mut text = String::from_str("required option '");
                text.append(option.as_str());
                text.append("' is not specified");
                text
            },
            ScanError::UnsupportedSelector(selector) => {
                let mut text = String::from_str("Unsupported object type: ");
                text.append(selector.as_str());
                text
            },
            ScanError::Transport(reason) => reason.clone(),
            ScanError::Parse(reason) => reason.clone(),
            ScanError::ColumnNotFound(column) => {
                let mut text = String::from_str("source column '");
                text.append(column.as_str());
                text.append("' not found");
                text
            },
            ScanError::Coercion { column, kind } => {
                let mut text = String::from_str("cannot convert column '");
                text.append(column.as_str());
                text.append("' to type ");
                text.append(kind.as_str());
                text
            },
            ScanError::ReadOnly => String::from_str("This FDW is read-only"),
        }
    }
}

} // verus!
