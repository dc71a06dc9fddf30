//! Watches a single for-sale listing page and reports only the items that are
//! new since the last successful check.
//!
//! The crate holds the change-detection core: the field extractor that turns
//! one fetched page into an ordered listing, the watermark-based diff that
//! decides which items are new, the baseline tracker that keeps the watermark,
//! the result cache that keeps the last published batch, and the decision rule
//! the poll scheduler follows on each tick. Fetching the page, the timer, and
//! the notification shell live outside the library and hand it plain values.

pub mod cache;
pub mod detector;
pub mod errors;
pub mod extractor;
pub mod product;
pub mod scheduler;
pub mod text;
pub mod tracker;

pub use product::Product;
