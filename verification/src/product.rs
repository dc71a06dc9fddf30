//! The `Product` record: one listed item as extracted from the page.

use vstd::prelude::*;

verus! {

/// The mathematical value of a [`Product`]: each field as a character sequence.
pub ghost struct ProductView {
    pub href: Seq<char>,
    pub title: Seq<char>,
    pub category: Seq<char>,
    pub price: Seq<char>,
    pub obverse_img_href: Seq<char>,
    pub reverse_img_href: Seq<char>,
}

/// One listed product. Immutable once extracted; `href` is the item's
/// identifier and the sole key used for diffing.
#[derive(Debug)]
pub struct Product {
    /// Product store page URL.
    pub href: String,
    /// Product title.
    pub title: String,
    /// Product category.
    pub category: String,
    /// Product price: a formatted string, or the fixed sentinel when the page
    /// carries no price. Never empty.
    pub price: String,
    /// Product image URL (obverse side).
    pub obverse_img_href: String,
    /// Product image URL (reverse side).
    pub reverse_img_href: String,
}

impl View for Product {
    type V = ProductView;

    open spec fn view(&self) -> ProductView {
        ProductView {
            href: self.href@,
            title: self.title@,
            category: self.category@,
            price: self.price@,
            obverse_img_href: self.obverse_img_href@,
            reverse_img_href: self.reverse_img_href@,
        }
    }
}

impl Clone for Product {
    fn clone(&self) -> (r: Self)
        ensures
            r == *self,
    {
        Product {
            href: self.href.clone(),
            title: self.title.clone(),
            category: self.category.clone(),
            price: self.price.clone(),
            obverse_img_href: self.obverse_img_href.clone(),
            reverse_img_href: self.reverse_img_href.clone(),
        }
    }
}

/// The views of a sequence of products, in order.
pub open spec fn views_of(l: Seq<Product>) -> Seq<ProductView> {
    l.map_values(|p: Product| p@)
}

/// A fresh copy of a product list, field for field.
pub fn clone_products(v: &Vec<Product>) -> (r: Vec<Product>)
    ensures
        r@ == v@,
{
    let n = v.len();
    let mut r: Vec<Product> = Vec::new();
    let mut k: usize = 0;
    while k < n
        invariant
            n == v@.len(),
            k <= n,
            r@ == v@.subrange(0, k as int),
        decreases n - k,
    {
        r.push(v[k].clone());
        assert(v@.subrange(0, k + 1) =~= v@.subrange(0, k as int).push(v@[k as int]));
        k += 1;
    }
    assert(v@.subrange(0, n as int) =~= v@);
    r
}

} // verus!
