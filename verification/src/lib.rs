//! Rendering engine for package reports.
//!
//! Given the metadata of a registry package, the functions here build the
//! text of a report: single fields, keyword and feature lists, an aligned
//! table of the most recent releases, or the full labelled summary. Nothing
//! here fetches data or prints; every function maps values to text.

pub mod driver;
pub mod history;
pub mod instant;
pub mod package;
pub mod report;
pub mod table;
pub mod text;
