//! The poll scheduler's decision rule: what one tick's outcome does to the
//! result cache and what the shell must do next.
//!
//! The shell runs the fixed-interval loop itself — it waits one full interval
//! before the very first check, fetches, calls the update check, then applies
//! the action decided here — because the timer and the transport live outside
//! the library. The decision below is the whole of the tick's logic.

use vstd::prelude::*;

use crate::cache::ResultCache;
use crate::errors::ScrapeError;
use crate::product::{clone_products, views_of, Product};

verus! {

/// What the shell must do after one tick's update check.
pub enum TickAction {
    /// Nothing changed: wait for the next tick.
    Idle,
    /// New items: they are already in the cache; forward this batch, in
    /// order, to the notification sink.
    Notify(Vec<Product>),
    /// The poll failed: record the error and wait for the next tick. A
    /// failure never stops the loop and never touches cache or watermark.
    Report(ScrapeError),
}

/// The scheduler's decision on one tick. A new batch replaces the cache
/// wholesale and goes to the sink with its order kept; "no change" and
/// failures leave the cache exactly as it was.
pub fn on_tick(cache: &mut ResultCache, outcome: Result<Option<Vec<Product>>, ScrapeError>) -> (act:
    TickAction)
    ensures
        match outcome {
            Ok(Some(items)) => final(cache)@ == Some(views_of(items@)) && (act matches
                TickAction::Notify(v) && v@ == items@),
            Ok(None) => final(cache)@ == old(cache)@ && act is Idle,
            Err(e) => final(cache)@ == old(cache)@ && (act matches TickAction::Report(e2) && e2
                == e),
        },
{
    match outcome {
        Ok(Some(items)) => {
            cache.store_products(clone_products(&items));
            TickAction::Notify(items)
        },
        Ok(None) => TickAction::Idle,
        Err(e) => TickAction::Report(e),
    }
}

} // verus!
