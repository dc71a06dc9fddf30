//! The field extractor: turns one fetched page into the ordered listing of
//! products it shows.
//!
//! The markup contract is brittle and versioned to the target site. A product
//! block starts at each occurrence of the container marker and runs to the
//! next occurrence, or to the end of the page. Within a block the extractor
//! takes, in this order: the value of the first `href="..."` attribute
//! (mandatory), the trimmed text of the first anchor after the title marker
//! (mandatory), the trimmed text after the category marker (mandatory), the
//! trimmed text of the price element (optional: the fixed sentinel stands in
//! when the element is missing or its text is blank, so the price is never
//! empty), and the values of the first two `src="..."` attributes (both
//! mandatory, obverse then reverse), each with the thumbnail-size token
//! removed once. Any missing mandatory field aborts the whole page with an
//! [`ExtractionError`] naming the field and the item index.

use vstd::prelude::*;
use vstd::slice::slice_subrange;

use crate::errors::{ExtractionError, FieldKind};
use crate::product::{views_of, Product, ProductView};
use crate::text::{
    chars_of, copy_range, find_from, first_occurrence, lemma_first_occurrence_some,
    remove_token_once, string_of, strip_token_once, trim, trimmed,
};

verus! {

// --- the markers of the site's markup contract ---

/// Start of one product container.
pub open spec fn product_mark() -> Seq<char> {
    "class=\"product\""@
}

/// Start of the product-link attribute.
pub open spec fn href_mark() -> Seq<char> {
    "href=\""@
}

/// Start of the title element.
pub open spec fn box_mark() -> Seq<char> {
    "class=\"box-text\""@
}

/// Start of the title anchor.
pub open spec fn anchor_mark() -> Seq<char> {
    "<a"@
}

/// Start of the category element.
pub open spec fn category_mark() -> Seq<char> {
    "class=\"category\""@
}

/// Start of the price element.
pub open spec fn price_mark() -> Seq<char> {
    "<bdi>"@
}

/// Start of an image-source attribute.
pub open spec fn src_mark() -> Seq<char> {
    "src=\""@
}

/// Closing quote of an attribute value.
pub open spec fn quote_mark() -> Seq<char> {
    "\""@
}

/// End of an opening tag.
pub open spec fn gt_mark() -> Seq<char> {
    ">"@
}

/// Start of the next tag.
pub open spec fn lt_mark() -> Seq<char> {
    "<"@
}

/// The thumbnail-size token stripped from image URLs.
pub open spec fn thumb_token() -> Seq<char> {
    "-247x296"@
}

/// The sentinel standing in for a missing or blank price.
pub open spec fn sentinel_price() -> Seq<char> {
    "OUT OF STOCK"@
}

/// The markers' lengths, fixed by their literals.
pub proof fn lemma_mark_lengths()
    ensures
        product_mark().len() > 0,
        href_mark().len() > 0,
        box_mark().len() > 0,
        anchor_mark().len() > 0,
        category_mark().len() > 0,
        price_mark().len() > 0,
        src_mark().len() > 0,
        quote_mark().len() == 1,
        gt_mark().len() == 1,
        lt_mark().len() == 1,
        thumb_token().len() > 0,
        sentinel_price().len() > 0,
{
    reveal_strlit("class=\"product\"");
    reveal_strlit("href=\"");
    reveal_strlit("class=\"box-text\"");
    reveal_strlit("<a");
    reveal_strlit("class=\"category\"");
    reveal_strlit("<bdi>");
    reveal_strlit("src=\"");
    reveal_strlit("\"");
    reveal_strlit(">");
    reveal_strlit("<");
    reveal_strlit("-247x296");
    reveal_strlit("OUT OF STOCK");
}

fn product_mark_chars() -> (r: Vec<char>)
    ensures
        r@ == product_mark(),
{
    chars_of("class=\"product\"")
}

fn href_mark_chars() -> (r: Vec<char>)
    ensures
        r@ == href_mark(),
{
    chars_of("href=\"")
}

fn box_mark_chars() -> (r: Vec<char>)
    ensures
        r@ == box_mark(),
{
    chars_of("class=\"box-text\"")
}

fn anchor_mark_chars() -> (r: Vec<char>)
    ensures
        r@ == anchor_mark(),
{
    chars_of("<a")
}

fn category_mark_chars() -> (r: Vec<char>)
    ensures
        r@ == category_mark(),
{
    chars_of("class=\"category\"")
}

fn price_mark_chars() -> (r: Vec<char>)
    ensures
        r@ == price_mark(),
{
    chars_of("<bdi>")
}

fn src_mark_chars() -> (r: Vec<char>)
    ensures
        r@ == src_mark(),
{
    chars_of("src=\"")
}

fn quote_chars() -> (r: Vec<char>)
    ensures
        r@ == quote_mark(),
{
    chars_of("\"")
}

fn gt_chars() -> (r: Vec<char>)
    ensures
        r@ == gt_mark(),
{
    chars_of(">")
}

fn lt_chars() -> (r: Vec<char>)
    ensures
        r@ == lt_mark(),
{
    chars_of("<")
}

fn thumb_token_chars() -> (r: Vec<char>)
    ensures
        r@ == thumb_token(),
{
    chars_of("-247x296")
}

fn sentinel_chars() -> (r: Vec<char>)
    ensures
        r@ == sentinel_price(),
{
    chars_of("OUT OF STOCK")
}

// --- what one block yields, at the specification level ---

/// The value span of the first `mark ... "` attribute at or after `from`:
/// start and end of the value between the marker and the closing quote.
pub open spec fn attr_span(b: Seq<char>, mark: Seq<char>, from: int) -> Option<(int, int)> {
    match first_occurrence(b, mark, from) {
        None => None,
        Some(i) => match first_occurrence(b, quote_mark(), i + mark.len()) {
            None => None,
            Some(j) => Some((i + mark.len(), j)),
        },
    }
}

/// The value of the first `mark ... "` attribute at or after `from`.
pub open spec fn attr_value(b: Seq<char>, mark: Seq<char>, from: int) -> Option<Seq<char>> {
    match attr_span(b, mark, from) {
        None => None,
        Some(sp) => Some(b.subrange(sp.0, sp.1)),
    }
}

/// The trimmed text of the first `> ... <` run at or after `from`.
pub open spec fn tag_text(b: Seq<char>, from: int) -> Option<Seq<char>> {
    match first_occurrence(b, gt_mark(), from) {
        None => None,
        Some(i) => match first_occurrence(b, lt_mark(), i + 1) {
            None => None,
            Some(j) => Some(trimmed(b.subrange(i + 1, j))),
        },
    }
}

/// The block's title: the text of the first anchor after the title marker.
pub open spec fn title_view(b: Seq<char>) -> Option<Seq<char>> {
    match first_occurrence(b, box_mark(), 0) {
        None => None,
        Some(i) => match first_occurrence(b, anchor_mark(), i + box_mark().len()) {
            None => None,
            Some(j) => tag_text(b, j),
        },
    }
}

/// The block's category: the text after the category marker.
pub open spec fn category_view(b: Seq<char>) -> Option<Seq<char>> {
    match first_occurrence(b, category_mark(), 0) {
        None => None,
        Some(i) => tag_text(b, i + category_mark().len()),
    }
}

/// The block's price: the trimmed text of the price element, or the sentinel
/// when the element is missing, unterminated, or blank. Never an error.
pub open spec fn price_view(b: Seq<char>) -> Seq<char> {
    match first_occurrence(b, price_mark(), 0) {
        None => sentinel_price(),
        Some(i) => match first_occurrence(b, lt_mark(), i + price_mark().len()) {
            None => sentinel_price(),
            Some(j) => {
                let t = trimmed(b.subrange(i + price_mark().len(), j));
                if t.len() == 0 {
                    sentinel_price()
                } else {
                    t
                }
            },
        },
    }
}

/// The block's two image URLs, obverse then reverse, each with the
/// thumbnail-size token removed once.
pub open spec fn images_view(b: Seq<char>) -> Option<(Seq<char>, Seq<char>)> {
    match attr_span(b, src_mark(), 0) {
        None => None,
        Some(sp1) => match attr_value(b, src_mark(), sp1.1 + 1) {
            None => None,
            Some(v2) => Some(
                (
                    strip_token_once(b.subrange(sp1.0, sp1.1), thumb_token()),
                    strip_token_once(v2, thumb_token()),
                ),
            ),
        },
    }
}

/// What one product block yields: the product, or the mandatory field that
/// was missing.
pub open spec fn block_view(b: Seq<char>) -> Result<ProductView, FieldKind> {
    match attr_value(b, href_mark(), 0) {
        None => Err(FieldKind::Href),
        Some(h) => match title_view(b) {
            None => Err(FieldKind::Title),
            Some(t) => match category_view(b) {
                None => Err(FieldKind::Category),
                Some(c) => match images_view(b) {
                    None => Err(FieldKind::Image),
                    Some(imgs) => Ok(
                        ProductView {
                            href: h,
                            title: t,
                            category: c,
                            price: price_view(b),
                            obverse_img_href: imgs.0,
                            reverse_img_href: imgs.1,
                        },
                    ),
                },
            },
        },
    }
}

/// What the whole page yields from scan position `from` on, the first item
/// carrying index `idx`: the listing in document order, or the index and
/// field of the first malformed item.
pub open spec fn listing_view_from(s: Seq<char>, from: int, idx: int) -> Result<
    Seq<ProductView>,
    (int, FieldKind),
>
    recommends
        from >= 0,
    decreases s.len() + 1 - from,
{
    match first_occurrence(s, product_mark(), from) {
        None => Ok(Seq::<ProductView>::empty()),
        Some(i) => {
            proof {
                lemma_mark_lengths();
                lemma_first_occurrence_some(s, product_mark(), from, i);
                if let Some(j) = first_occurrence(s, product_mark(), i + 1) {
                    lemma_first_occurrence_some(s, product_mark(), i + 1, j);
                }
            }
            let hi = match first_occurrence(s, product_mark(), i + 1) {
                None => s.len() as int,
                Some(j) => j,
            };
            match block_view(s.subrange(i, hi)) {
                Err(f) => Err((idx, f)),
                Ok(p) => match listing_view_from(s, hi, idx + 1) {
                    Err(e) => Err(e),
                    Ok(rest) => Ok(seq![p] + rest),
                },
            }
        },
    }
}

/// What the whole page yields.
pub open spec fn listing_view(s: Seq<char>) -> Result<Seq<ProductView>, (int, FieldKind)> {
    listing_view_from(s, 0, 0)
}

/// A block without a price element always yields the fixed sentinel, never
/// an error or an empty string; and the price of any extracted block is never
/// empty — a present but blank price element falls back to the sentinel too.
pub proof fn law_price_sentinel(b: Seq<char>)
    ensures
        first_occurrence(b, price_mark(), 0) is None ==> price_view(b) == sentinel_price(),
        price_view(b).len() > 0,
{
    lemma_mark_lengths();
}

/// Every product of a successfully extracted listing carries a non-empty
/// price: the sentinel where the page offered none.
pub proof fn law_listing_prices_nonempty(s: Seq<char>, from: int, idx: int)
    requires
        from >= 0,
    ensures
        listing_view_from(s, from, idx) matches Ok(l) ==> forall|k: int|
            0 <= k < l.len() ==> (#[trigger] l[k].price).len() > 0,
    decreases s.len() + 1 - from,
{
    lemma_mark_lengths();
    if let Some(i) = first_occurrence(s, product_mark(), from) {
        lemma_first_occurrence_some(s, product_mark(), from, i);
        let hi = match first_occurrence(s, product_mark(), i + 1) {
            None => s.len() as int,
            Some(j) => j,
        };
        if let Some(j) = first_occurrence(s, product_mark(), i + 1) {
            lemma_first_occurrence_some(s, product_mark(), i + 1, j);
        }
        law_price_sentinel(s.subrange(i, hi));
        law_listing_prices_nonempty(s, hi, idx + 1);
    }
}

// --- executable extraction, verified against the views above ---

fn attr_span_exec(b: &[char], mark: &[char], from: usize) -> (r: Option<(usize, usize)>)
    ensures
        match r {
            Some(sp) => attr_span(b@, mark@, from as int) == Some((sp.0 as int, sp.1 as int))
                && sp.0 <= sp.1 < b@.len(),
            None => attr_span(b@, mark@, from as int) is None,
        },
{
    let n = b.len();
    match find_from(b, mark, from) {
        None => None,
        Some(i) => {
            proof {
                lemma_first_occurrence_some(b@, mark@, from as int, i as int);
            }
            let q = quote_chars();
            let start = i + mark.len();
            match find_from(b, q.as_slice(), start) {
                None => None,
                Some(j) => {
                    proof {
                        lemma_first_occurrence_some(b@, quote_mark(), start as int, j as int);
                        lemma_mark_lengths();
                    }
                    Some((start, j))
                },
            }
        },
    }
}

fn tag_text_exec(b: &[char], from: usize) -> (r: Option<Vec<char>>)
    ensures
        match r {
            Some(t) => tag_text(b@, from as int) == Some(t@),
            None => tag_text(b@, from as int) is None,
        },
{
    let n = b.len();
    let g = gt_chars();
    match find_from(b, g.as_slice(), from) {
        None => None,
        Some(i) => {
            proof {
                lemma_first_occurrence_some(b@, gt_mark(), from as int, i as int);
                lemma_mark_lengths();
            }
            let l = lt_chars();
            match find_from(b, l.as_slice(), i + 1) {
                None => None,
                Some(j) => {
                    proof {
                        lemma_first_occurrence_some(b@, lt_mark(), i + 1, j as int);
                    }
                    Some(trim(copy_range(b, i + 1, j).as_slice()))
                },
            }
        },
    }
}

/// One product block, extracted and verified against [`block_view`].
fn extract_block(b: &[char]) -> (r: Result<Product, FieldKind>)
    ensures
        match r {
            Ok(p) => block_view(b@) == Ok::<ProductView, FieldKind>(p@),
            Err(f) => block_view(b@) == Err::<ProductView, FieldKind>(f),
        },
{
    let n = b.len();
    proof {
        lemma_mark_lengths();
    }
    // product link
    let hm = href_mark_chars();
    let hsp = match attr_span_exec(b, hm.as_slice(), 0) {
        None => {
            return Err(FieldKind::Href);
        },
        Some(sp) => sp,
    };
    let href = string_of(copy_range(b, hsp.0, hsp.1).as_slice());
    // title
    let bm = box_mark_chars();
    let title_chars = match find_from(b, bm.as_slice(), 0) {
        None => {
            return Err(FieldKind::Title);
        },
        Some(i) => {
            proof {
                lemma_first_occurrence_some(b@, box_mark(), 0, i as int);
            }
            let am = anchor_mark_chars();
            match find_from(b, am.as_slice(), i + bm.len()) {
                None => {
                    return Err(FieldKind::Title);
                },
                Some(j) => match tag_text_exec(b, j) {
                    None => {
                        return Err(FieldKind::Title);
                    },
                    Some(t) => t,
                },
            }
        },
    };
    let title = string_of(title_chars.as_slice());
    // category
    let cm = category_mark_chars();
    let category_chars = match find_from(b, cm.as_slice(), 0) {
        None => {
            return Err(FieldKind::Category);
        },
        Some(i) => {
            proof {
                lemma_first_occurrence_some(b@, category_mark(), 0, i as int);
            }
            match tag_text_exec(b, i + cm.len()) {
                None => {
                    return Err(FieldKind::Category);
                },
                Some(t) => t,
            }
        },
    };
    let category = string_of(category_chars.as_slice());
    // price: never an error; the sentinel stands in
    let pm = price_mark_chars();
    let lt = lt_chars();
    let price_chars = match find_from(b, pm.as_slice(), 0) {
        None => sentinel_chars(),
        Some(i) => {
            proof {
                lemma_first_occurrence_some(b@, price_mark(), 0, i as int);
            }
            match find_from(b, lt.as_slice(), i + pm.len()) {
                None => sentinel_chars(),
                Some(j) => {
                    proof {
                        lemma_first_occurrence_some(b@, lt_mark(), i + pm.len(), j as int);
                    }
                    let t = trim(copy_range(b, i + pm.len(), j).as_slice());
                    if t.len() == 0 {
                        sentinel_chars()
                    } else {
                        t
                    }
                },
            }
        },
    };
    let price = string_of(price_chars.as_slice());
    // the two images, obverse then reverse
    let sm = src_mark_chars();
    let tok = thumb_token_chars();
    let sp1 = match attr_span_exec(b, sm.as_slice(), 0) {
        None => {
            return Err(FieldKind::Image);
        },
        Some(sp) => sp,
    };
    let sp2 = match attr_span_exec(b, sm.as_slice(), sp1.1 + 1) {
        None => {
            return Err(FieldKind::Image);
        },
        Some(sp) => sp,
    };
    let obverse = string_of(
        remove_token_once(copy_range(b, sp1.0, sp1.1).as_slice(), tok.as_slice()).as_slice(),
    );
    let reverse = string_of(
        remove_token_once(copy_range(b, sp2.0, sp2.1).as_slice(), tok.as_slice()).as_slice(),
    );
    Ok(
        Product {
            href,
            title,
            category,
            price,
            obverse_img_href: obverse,
            reverse_img_href: reverse,
        },
    )
}

/// Extracts the ordered listing from one fetched page, or reports the first
/// item whose mandatory field is missing. Pure: the result is a function of
/// the page text alone, pinned by [`listing_view`].
pub fn extract_products(page: &str) -> (r: Result<Vec<Product>, ExtractionError>)
    ensures
        match r {
            Ok(v) => listing_view(page@) == Ok::<Seq<ProductView>, (int, FieldKind)>(
                views_of(v@),
            ),
            Err(e) => listing_view(page@) == Err::<Seq<ProductView>, (int, FieldKind)>(
                (e.index as int, e.field),
            ),
        },
{
    let chars = chars_of(page);
    let s = chars.as_slice();
    let n = s.len();
    let pm = product_mark_chars();
    proof {
        lemma_mark_lengths();
    }
    let mut out: Vec<Product> = Vec::new();
    let mut cur = find_from(s, pm.as_slice(), 0);
    let ghost mut pos: int = 0;
    proof {
        assert(views_of(out@) =~= Seq::<ProductView>::empty());
        match listing_view_from(s@, 0, 0) {
            Ok(rest) => {
                assert(views_of(out@) + rest =~= rest);
            },
            Err(_) => {},
        }
    }
    while cur.is_some()
        invariant
            s@ == page@,
            n == s@.len(),
            pm@ == product_mark(),
            0 <= pos <= s@.len(),
            match cur {
                Some(i) => first_occurrence(s@, pm@, pos) == Some(i as int),
                None => first_occurrence(s@, pm@, pos) is None,
            },
            match listing_view_from(s@, pos, out@.len() as int) {
                Ok(rest) => listing_view(page@) == Ok::<Seq<ProductView>, (int, FieldKind)>(
                    views_of(out@) + rest,
                ),
                Err(e) => listing_view(page@) == Err::<Seq<ProductView>, (int, FieldKind)>(e),
            },
        decreases s@.len() + 1 - pos,
    {
        let i = cur.unwrap();
        proof {
            lemma_mark_lengths();
            lemma_first_occurrence_some(s@, pm@, pos, i as int);
        }
        let next = find_from(s, pm.as_slice(), i + 1);
        let hi = match next {
            Some(j) => {
                proof {
                    lemma_first_occurrence_some(s@, pm@, i + 1, j as int);
                }
                j
            },
            None => n,
        };
        let block = slice_subrange(s, i, hi);
        match extract_block(block) {
            Err(f) => {
                return Err(ExtractionError { field: f, index: out.len() });
            },
            Ok(p) => {
                let ghost prevout = out@;
                let ghost pv = p@;
                out.push(p);
                proof {
                    assert(views_of(out@) =~= views_of(prevout).push(pv));
                    match listing_view_from(s@, hi as int, prevout.len() as int + 1) {
                        Ok(rest2) => {
                            assert(listing_view_from(s@, pos, prevout.len() as int) == Ok::<
                                Seq<ProductView>,
                                (int, FieldKind),
                            >(seq![pv] + rest2));
                            assert(views_of(prevout) + (seq![pv] + rest2) =~= views_of(out@)
                                + rest2);
                        },
                        Err(e2) => {
                            assert(listing_view_from(s@, pos, prevout.len() as int) == Err::<
                                Seq<ProductView>,
                                (int, FieldKind),
                            >(e2));
                        },
                    }
                    pos = hi as int;
                    if let Some(j) = next {
                        assert(first_occurrence(s@, pm@, j as int) == Some(j as int));
                    } else {
                        assert(first_occurrence(s@, pm@, n as int) is None);
                    }
                }
                cur = next;
            },
        }
    }
    proof {
        assert(views_of(out@) + Seq::<ProductView>::empty() =~= views_of(out@));
    }
    Ok(out)
}

} // verus!
