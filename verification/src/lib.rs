//! A read-only scan engine that turns the paginated object collections of a
//! CRM's REST API into rows of typed cells.
//!
//! The engine never sends a request itself. It says which request is due,
//! takes the response that the caller obtained, buffers the records of every
//! page and projects each record onto the columns that the caller declared.
//!
//! - [`engine`] holds the engine and the calls that drive a scan;
//! - [`state`] describes the state of a scan and its transitions;
//! - [`request`] builds the request for a page, [`page`] reads a response;
//! - [`resolve`] finds the value of a column in a record, [`column`] turns
//!   it into a cell of the declared kind, and [`project`] builds the row;
//! - [`json`] holds the documents, [`error`] the failures;
//! - [`laws`] states what holds over a whole scan.

pub mod column;
pub mod engine;
pub mod error;
pub mod json;
pub mod laws;
pub mod page;
pub mod project;
pub mod request;
pub mod resolve;
pub mod state;
