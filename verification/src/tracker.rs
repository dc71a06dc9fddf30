//! The baseline tracker: holds the watermark, the `href` of the most-recent
//! item as of the last successful poll.

use vstd::prelude::*;

verus! {

/// Holds the single optional watermark value. Unset at process start; set by
/// the first successful poll; replaced whenever a poll detects a change. No
/// history is kept. The shell wraps one long-lived instance in its own
/// mutual-exclusion guard, held only for the instant of each read or write,
/// never across a fetch: `peek` runs before the fetch, `commit` after.
pub struct BaselineTracker {
    value: Option<String>,
}

impl View for BaselineTracker {
    type V = Option<Seq<char>>;

    closed spec fn view(&self) -> Option<Seq<char>> {
        match self.value {
            None => None,
            Some(s) => Some(s@),
        }
    }
}

impl BaselineTracker {
    /// A tracker with the watermark unset.
    pub fn new() -> (r: Self)
        ensures
            r@ is None,
    {
        BaselineTracker { value: None }
    }

    /// A snapshot copy of the current watermark.
    pub fn peek(&self) -> (r: Option<String>)
        ensures
            match r {
                None => self@ is None,
                Some(s) => self@ == Some(s@),
            },
    {
        match &self.value {
            None => None,
            Some(s) => Some(s.clone()),
        }
    }

    /// Replaces the watermark; the old value is discarded.
    pub fn commit(&mut self, value: String)
        ensures
            final(self)@ == Some(value@),
    {
        self.value = Some(value);
    }
}

} // verus!
