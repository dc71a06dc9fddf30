//! Error taxonomy of the polling pipeline.

use vstd::prelude::*;

verus! {

/// The mandatory field whose extraction failed. A missing price is not an
/// error: the extractor substitutes the fixed sentinel instead.
#[derive(Clone, Copy, Debug, PartialEq, Eq, Structural)]
pub enum FieldKind {
    Href,
    Title,
    Category,
    Image,
}

/// Extraction failure: the mandatory field that was missing, and the index of
/// the item it was missing from. A single malformed item invalidates the
/// whole poll; no partial listing is ever produced.
#[derive(Clone, Copy, Debug, PartialEq, Eq, Structural)]
pub struct ExtractionError {
    pub field: FieldKind,
    pub index: usize,
}

/// A poll failure. `Fetch` carries the transport's own message; it is raised
/// by the fetching shell, never by the library. `Extraction` propagates a
/// mandatory-field failure. Both are non-fatal to the poll loop.
#[derive(Debug)]
pub enum ScrapeError {
    Fetch(String),
    Extraction(ExtractionError),
}

} // verus!
