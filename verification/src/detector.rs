//! The update detector: the watermark-based diff at the heart of the system.
//!
//! A poll compares the fetched listing against the single watermark — the
//! `href` of the lead item of the last successful poll. Items above the
//! watermark are new; a first poll and an unchanged lead report nothing; a
//! watermark that has scrolled off the page makes the whole visible listing
//! count as new (deliberately over-reporting rather than under-reporting).

use vstd::prelude::*;

use crate::errors::ScrapeError;
use crate::extractor::{extract_products, listing_view};
use crate::product::{views_of, Product, ProductView};
use crate::tracker::BaselineTracker;

verus! {

/// Index of the first item in `l` whose `href` equals `w`.
pub open spec fn first_match(l: Seq<ProductView>, w: Seq<char>) -> Option<int>
    decreases l.len(),
{
    if l.len() == 0 {
        None
    } else if l[0].href == w {
        Some(0)
    } else {
        match first_match(l.drop_first(), w) {
            None => None,
            Some(i) => Some(i + 1),
        }
    }
}

/// A found index carries the watermark's `href` and nothing earlier does.
pub proof fn lemma_first_match_some(l: Seq<ProductView>, w: Seq<char>, i: int)
    requires
        first_match(l, w) == Some(i),
    ensures
        0 <= i < l.len(),
        l[i].href == w,
        forall|j: int| 0 <= j < i ==> l[j].href != w,
    decreases l.len(),
{
    if l.len() == 0 {
    } else if l[0].href == w {
    } else {
        if let Some(k) = first_match(l.drop_first(), w) {
            lemma_first_match_some(l.drop_first(), w, k);
            assert forall|j: int| 0 <= j < i implies l[j].href != w by {
                if j > 0 {
                    assert(l.drop_first()[j - 1] == l[j]);
                }
            }
        }
    }
}

/// The earliest index whose `href` equals `w` is what the search finds.
pub proof fn lemma_first_match_found(l: Seq<ProductView>, w: Seq<char>, i: int)
    requires
        0 <= i < l.len(),
        l[i].href == w,
        forall|j: int| 0 <= j < i ==> l[j].href != w,
    ensures
        first_match(l, w) == Some(i),
    decreases i,
{
    if i > 0 {
        lemma_first_match_found(l.drop_first(), w, i - 1);
    }
}

/// When no item carries `w`, the search comes back empty.
pub proof fn lemma_first_match_none(l: Seq<ProductView>, w: Seq<char>)
    requires
        forall|j: int| 0 <= j < l.len() ==> l[j].href != w,
    ensures
        first_match(l, w) is None,
    decreases l.len(),
{
    if l.len() > 0 {
        lemma_first_match_none(l.drop_first(), w);
    }
}

/// What one poll reports and the watermark it leaves, as a pair, over the
/// watermark before the poll and the listing's views.
pub open spec fn check_spec(w: Option<Seq<char>>, l: Seq<ProductView>) -> (
    Option<Seq<ProductView>>,
    Option<Seq<char>>,
) {
    if l.len() == 0 {
        (None::<Seq<ProductView>>, w)
    } else {
        let lead = l[0].href;
        match w {
            None => (None::<Seq<ProductView>>, Some(lead)),
            Some(wv) => {
                if lead == wv {
                    (None::<Seq<ProductView>>, Some(wv))
                } else {
                    match first_match(l, wv) {
                        Some(i) => (Some(l.take(i)), Some(lead)),
                        None => (Some(l), Some(lead)),
                    }
                }
            },
        }
    }
}

/// Position of the watermark in the listing, scanning from the lead item.
fn position_of(listing: &Vec<Product>, w: &String) -> (r: Option<usize>)
    ensures
        match r {
            Some(i) => first_match(views_of(listing@), w@) == Some(i as int),
            None => first_match(views_of(listing@), w@) is None,
        },
{
    let n = listing.len();
    let mut k: usize = 0;
    while k < n
        invariant
            n == listing@.len(),
            k <= n,
            forall|j: int| 0 <= j < k ==> views_of(listing@)[j].href != w@,
        decreases n - k,
    {
        if listing[k].href == *w {
            proof {
                lemma_first_match_found(views_of(listing@), w@, k as int);
            }
            return Some(k);
        }
        k += 1;
    }
    proof {
        lemma_first_match_none(views_of(listing@), w@);
    }
    None
}

/// One watermark comparison: decides which items of the listing are new and
/// updates the tracker accordingly. Reports a batch exactly when the
/// watermark was set before the poll and differs from the new lead `href`;
/// an empty listing and a first poll report nothing, and only a non-empty
/// listing moves the watermark.
pub fn check(tracker: &mut BaselineTracker, listing: Vec<Product>) -> (r: Option<Vec<Product>>)
    ensures
        ({
            let sc = check_spec(old(tracker)@, views_of(listing@));
            &&& final(tracker)@ == sc.1
            &&& match r {
                Some(v) => sc.0 == Some(views_of(v@)),
                None => sc.0 is None,
            }
        }),
{
    if listing.len() == 0 {
        return None;
    }
    let lead = listing[0].href.clone();
    match tracker.peek() {
        None => {
            tracker.commit(lead);
            None
        },
        Some(w) => {
            if lead == w {
                None
            } else {
                let idx = position_of(&listing, &w);
                let mut items = listing;
                let ghost all = views_of(items@);
                match idx {
                    Some(i) => {
                        proof {
                            lemma_first_match_some(all, w@, i as int);
                        }
                        items.truncate(i);
                        proof {
                            assert(views_of(items@) =~= all.take(i as int));
                        }
                    },
                    None => {},
                }
                tracker.commit(lead);
                Some(items)
            }
        },
    }
}

/// One full update check on a fetched page body: extraction, then the
/// watermark diff. `Ok` exactly when every item extracts; the watermark and
/// the reported batch then follow [`check_spec`]; on extraction failure the
/// error names the field and item index and the watermark is untouched. The
/// fetch itself happens outside the library; its failures become
/// [`ScrapeError::Fetch`] there and never reach this function.
pub fn get_update(tracker: &mut BaselineTracker, page: &str) -> (r: Result<
    Option<Vec<Product>>,
    ScrapeError,
>)
    ensures
        match listing_view(page@) {
            Ok(l) => {
                let sc = check_spec(old(tracker)@, l);
                &&& final(tracker)@ == sc.1
                &&& match r {
                    Ok(Some(v)) => sc.0 == Some(views_of(v@)),
                    Ok(None) => sc.0 is None,
                    Err(_) => false,
                }
            },
            Err(ie) => {
                &&& final(tracker)@ == old(tracker)@
                &&& match r {
                    Err(ScrapeError::Extraction(e)) => e.index as int == ie.0 && e.field == ie.1,
                    _ => false,
                }
            },
        },
{
    match extract_products(page) {
        Ok(items) => Ok(check(tracker, items)),
        Err(e) => Err(ScrapeError::Extraction(e)),
    }
}

// --- the laws of the detector ---

/// First successful poll: with the watermark unset, any non-empty listing is
/// absorbed silently — nothing is reported, whatever the listing holds, and
/// the watermark becomes the lead `href`.
pub proof fn law_first_poll_silent(l: Seq<ProductView>)
    requires
        l.len() > 0,
    ensures
        check_spec(None, l).0 is None,
        check_spec(None, l).1 == Some(l[0].href),
{
}

/// A poll whose lead item carries the watermark reports nothing and leaves
/// the watermark unchanged.
pub proof fn law_unchanged_lead(w: Seq<char>, l: Seq<ProductView>)
    requires
        l.len() > 0,
        l[0].href == w,
    ensures
        check_spec(Some(w), l).0 is None,
        check_spec(Some(w), l).1 == Some(w),
{
}

/// When the watermark sits at index `i > 0` and nowhere earlier, the poll
/// reports exactly the items above it, `l[0 .. i)`, and the watermark becomes
/// the new lead `href`. (At `i == 0` the lead is the watermark itself and
/// [`law_unchanged_lead`] governs: nothing is reported.)
pub proof fn law_new_items_above_watermark(w: Seq<char>, l: Seq<ProductView>, i: int)
    requires
        0 < i < l.len(),
        l[i].href == w,
        forall|j: int| 0 <= j < i ==> l[j].href != w,
    ensures
        check_spec(Some(w), l).0 == Some(l.take(i)),
        check_spec(Some(w), l).1 == Some(l[0].href),
{
    lemma_first_match_found(l, w, i);
}

/// When the watermark appears nowhere in the listing, the entire listing is
/// reported as new and the watermark becomes the new lead `href`.
pub proof fn law_watermark_gone(w: Seq<char>, l: Seq<ProductView>)
    requires
        l.len() > 0,
        forall|j: int| 0 <= j < l.len() ==> l[j].href != w,
    ensures
        check_spec(Some(w), l).0 == Some(l),
        check_spec(Some(w), l).1 == Some(l[0].href),
{
    lemma_first_match_none(l, w);
}

/// An empty listing reports nothing and leaves the watermark exactly as it
/// was — even on the first poll, when it stays unset.
pub proof fn law_empty_listing(w: Option<Seq<char>>)
    ensures
        check_spec(w, Seq::<ProductView>::empty()).0 is None,
        check_spec(w, Seq::<ProductView>::empty()).1 == w,
{
}

/// Re-polling is idempotent: whatever one poll did, an immediate second poll
/// of the same listing reports nothing and leaves the watermark where the
/// first poll put it — no item is ever reported twice while the page holds
/// still.
pub proof fn law_repoll_idempotent(w: Option<Seq<char>>, l: Seq<ProductView>)
    ensures
        check_spec(check_spec(w, l).1, l).0 is None,
        check_spec(check_spec(w, l).1, l).1 == check_spec(w, l).1,
{
}

/// A batch is reported if and only if the watermark was set before the poll
/// and differs from the new lead `href`; a reported batch is never empty; and
/// whenever a batch is reported the watermark moves to the new lead `href`.
pub proof fn law_report_iff_lead_changed(w: Option<Seq<char>>, l: Seq<ProductView>)
    ensures
        check_spec(w, l).0 is Some <==> (l.len() > 0 && (w matches Some(wv) && l[0].href != wv)),
        check_spec(w, l).0 matches Some(b) ==> b.len() > 0,
        check_spec(w, l).0 is Some ==> check_spec(w, l).1 == Some(l[0].href),
{
    if l.len() > 0 {
        if let Some(wv) = w {
            if l[0].href != wv {
                if let Some(i) = first_match(l, wv) {
                    lemma_first_match_some(l, wv, i);
                }
            }
        }
    }
}

} // verus!
