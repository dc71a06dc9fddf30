use numis_watch::detector::check;
use numis_watch::product::Product;
use numis_watch::tracker::BaselineTracker;

fn item(href: &str) -> Product {
    Product {
        href: href.to_string(),
        title: format!("title of {}", href),
        category: "Coins".to_string(),
        price: "12,00 zl".to_string(),
        obverse_img_href: format!("{}/obverse.jpg", href),
        reverse_img_href: format!("{}/reverse.jpg", href),
    }
}

fn listing(hrefs: &[&str]) -> Vec<Product> {
    hrefs.iter().map(|h| item(h)).collect()
}

fn hrefs_of(items: &[Product]) -> Vec<String> {
    items.iter().map(|p| p.href.clone()).collect()
}

#[test]
fn first_poll_returns_none_and_sets_watermark() {
    let mut tracker = BaselineTracker::new();
    assert!(tracker.peek().is_none());
    let r = check(&mut tracker, listing(&["a", "b", "c"]));
    assert!(r.is_none());
    assert_eq!(tracker.peek().unwrap(), "a");
}

#[test]
fn empty_listing_leaves_watermark_unset_on_first_poll() {
    let mut tracker = BaselineTracker::new();
    let r = check(&mut tracker, Vec::new());
    assert!(r.is_none());
    assert!(tracker.peek().is_none());
}

#[test]
fn empty_listing_leaves_set_watermark_unchanged() {
    let mut tracker = BaselineTracker::new();
    tracker.commit("a".to_string());
    let r = check(&mut tracker, Vec::new());
    assert!(r.is_none());
    assert_eq!(tracker.peek().unwrap(), "a");
}

#[test]
fn unchanged_lead_returns_none() {
    let mut tracker = BaselineTracker::new();
    tracker.commit("a".to_string());
    let r = check(&mut tracker, listing(&["a", "b", "c"]));
    assert!(r.is_none());
    assert_eq!(tracker.peek().unwrap(), "a");
}

#[test]
fn watermark_mid_listing_returns_items_above_it() {
    let mut tracker = BaselineTracker::new();
    tracker.commit("c".to_string());
    let r = check(&mut tracker, listing(&["x", "y", "c", "d"])).unwrap();
    assert_eq!(hrefs_of(&r), vec!["x".to_string(), "y".to_string()]);
    assert_eq!(tracker.peek().unwrap(), "x");
}

#[test]
fn watermark_found_twice_first_occurrence_governs() {
    let mut tracker = BaselineTracker::new();
    tracker.commit("c".to_string());
    let r = check(&mut tracker, listing(&["x", "c", "y", "c"])).unwrap();
    assert_eq!(hrefs_of(&r), vec!["x".to_string()]);
    assert_eq!(tracker.peek().unwrap(), "x");
}

#[test]
fn watermark_absent_returns_entire_listing() {
    let mut tracker = BaselineTracker::new();
    tracker.commit("gone".to_string());
    let r = check(&mut tracker, listing(&["e", "f", "g"])).unwrap();
    assert_eq!(
        hrefs_of(&r),
        vec!["e".to_string(), "f".to_string(), "g".to_string()]
    );
    assert_eq!(tracker.peek().unwrap(), "e");
}

#[test]
fn reported_batch_keeps_all_fields() {
    let mut tracker = BaselineTracker::new();
    tracker.commit("b".to_string());
    let r = check(&mut tracker, listing(&["a", "b"])).unwrap();
    assert_eq!(r.len(), 1);
    assert_eq!(r[0].href, "a");
    assert_eq!(r[0].title, "title of a");
    assert_eq!(r[0].category, "Coins");
    assert_eq!(r[0].price, "12,00 zl");
    assert_eq!(r[0].obverse_img_href, "a/obverse.jpg");
    assert_eq!(r[0].reverse_img_href, "a/reverse.jpg");
}

#[test]
fn end_to_end_four_polls() {
    let mut tracker = BaselineTracker::new();

    // poll 1: [A, B, C] -> nothing reported, watermark = A
    let r1 = check(&mut tracker, listing(&["A", "B", "C"]));
    assert!(r1.is_none());
    assert_eq!(tracker.peek().unwrap(), "A");

    // poll 2: [D, A, B, C] -> [D], watermark = D
    let r2 = check(&mut tracker, listing(&["D", "A", "B", "C"])).unwrap();
    assert_eq!(hrefs_of(&r2), vec!["D".to_string()]);
    assert_eq!(tracker.peek().unwrap(), "D");

    // poll 3: unchanged -> nothing reported, watermark = D
    let r3 = check(&mut tracker, listing(&["D", "A", "B", "C"]));
    assert!(r3.is_none());
    assert_eq!(tracker.peek().unwrap(), "D");

    // poll 4: [E, F, G], no overlap -> everything reported, watermark = E
    let r4 = check(&mut tracker, listing(&["E", "F", "G"])).unwrap();
    assert_eq!(
        hrefs_of(&r4),
        vec!["E".to_string(), "F".to_string(), "G".to_string()]
    );
    assert_eq!(tracker.peek().unwrap(), "E");
}
