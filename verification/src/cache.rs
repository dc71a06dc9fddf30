//! The shared result cache: the most recently published batch of new items,
//! kept for on-demand retrieval by the query shell.

use vstd::prelude::*;

use crate::product::{clone_products, views_of, Product, ProductView};

verus! {

/// Holds the last published new-item batch, wholesale-replaced on each
/// publish; `None` until an update first produces new items. The shell wraps
/// one long-lived instance in its own mutual-exclusion guard, so external
/// readers always see either the previous complete batch or the new one,
/// never a partial write.
pub struct ResultCache {
    batch: Option<Vec<Product>>,
}

impl View for ResultCache {
    type V = Option<Seq<ProductView>>;

    closed spec fn view(&self) -> Option<Seq<ProductView>> {
        match self.batch {
            None => None,
            Some(v) => Some(views_of(v@)),
        }
    }
}

impl ResultCache {
    /// A cache that has seen no update yet.
    pub fn new() -> (r: Self)
        ensures
            r@ is None,
    {
        ResultCache { batch: None }
    }

    /// Stores the given batch, replacing whatever was there.
    pub fn store_products(&mut self, products: Vec<Product>)
        ensures
            final(self)@ == Some(views_of(products@)),
    {
        self.batch = Some(products);
    }

    /// A snapshot copy of the last published batch, or `None` when no update
    /// has produced new items yet. Does not trigger a poll.
    pub fn retrieve_products(&self) -> (r: Option<Vec<Product>>)
        ensures
            match r {
                None => self@ is None,
                Some(v) => self@ == Some(views_of(v@)),
            },
    {
        match &self.batch {
            None => None,
            Some(v) => Some(clone_products(v)),
        }
    }
}

} // verus!
