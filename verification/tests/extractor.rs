use numis_watch::errors::FieldKind;
use numis_watch::extractor::extract_products;
use numis_watch::text::{remove_token_once, trim};

/// One well-formed product block in the site's markup shape.
fn block(href: &str, title: &str, category: &str, price: Option<&str>, img1: &str, img2: &str) -> String {
    let price_part = match price {
        Some(p) => format!("<div class=\"price\"><bdi>{}</bdi></div>", p),
        None => String::new(),
    };
    format!(
        "<li class=\"product\"><a href=\"{}\"><img src=\"{}\" /><img src=\"{}\" /></a>\
         <div class=\"box-text\"><a href=\"{}\">{}</a></div>\
         <div class=\"category\">{}</div>{}</li>",
        href, img1, img2, href, title, category, price_part
    )
}

fn page(blocks: &[String]) -> String {
    format!("<html><body><ul>{}</ul></body></html>", blocks.join("\n"))
}

#[test]
fn extracts_single_item() {
    let p = page(&[block(
        "https://shop.example/coin-1",
        " Silver Denarius ",
        "  Ancient Coins ",
        Some(" 150,00 zl "),
        "https://shop.example/i/coin-1-obv.jpg",
        "https://shop.example/i/coin-1-rev.jpg",
    )]);
    let items = extract_products(&p).unwrap();
    assert_eq!(items.len(), 1);
    assert_eq!(items[0].href, "https://shop.example/coin-1");
    assert_eq!(items[0].title, "Silver Denarius");
    assert_eq!(items[0].category, "Ancient Coins");
    assert_eq!(items[0].price, "150,00 zl");
    assert_eq!(items[0].obverse_img_href, "https://shop.example/i/coin-1-obv.jpg");
    assert_eq!(items[0].reverse_img_href, "https://shop.example/i/coin-1-rev.jpg");
}

#[test]
fn extracts_items_in_document_order() {
    let p = page(&[
        block("h1", "One", "C", Some("1"), "a.jpg", "b.jpg"),
        block("h2", "Two", "C", Some("2"), "c.jpg", "d.jpg"),
        block("h3", "Three", "C", Some("3"), "e.jpg", "f.jpg"),
    ]);
    let items = extract_products(&p).unwrap();
    let hrefs: Vec<&str> = items.iter().map(|p| p.href.as_str()).collect();
    assert_eq!(hrefs, vec!["h1", "h2", "h3"]);
}

#[test]
fn empty_page_yields_empty_listing() {
    let items = extract_products("<html><body>no products here</body></html>").unwrap();
    assert!(items.is_empty());
}

#[test]
fn missing_price_gives_sentinel() {
    let p = page(&[block("h", "T", "C", None, "a.jpg", "b.jpg")]);
    let items = extract_products(&p).unwrap();
    assert_eq!(items[0].price, "OUT OF STOCK");
}

#[test]
fn blank_price_gives_sentinel_not_empty_string() {
    let p = page(&[block("h", "T", "C", Some("   "), "a.jpg", "b.jpg")]);
    let items = extract_products(&p).unwrap();
    assert_eq!(items[0].price, "OUT OF STOCK");
}

#[test]
fn thumbnail_token_removed_when_present() {
    let p = page(&[block(
        "h",
        "T",
        "C",
        Some("1"),
        "https://x/y-247x296.jpg",
        "https://x/z.jpg",
    )]);
    let items = extract_products(&p).unwrap();
    assert_eq!(items[0].obverse_img_href, "https://x/y.jpg");
    assert_eq!(items[0].reverse_img_href, "https://x/z.jpg");
}

#[test]
fn thumbnail_token_removed_exactly_once() {
    let p = page(&[block(
        "h",
        "T",
        "C",
        Some("1"),
        "https://x/y-247x296-247x296.jpg",
        "https://x/z-247x296-b-247x296.jpg",
    )]);
    let items = extract_products(&p).unwrap();
    assert_eq!(items[0].obverse_img_href, "https://x/y-247x296.jpg");
    assert_eq!(items[0].reverse_img_href, "https://x/z-b-247x296.jpg");
}

#[test]
fn missing_href_fails_extraction() {
    let bad = "<li class=\"product\"><img src=\"a.jpg\" /><img src=\"b.jpg\" />\
               <div class=\"box-text\"><a>T</a></div><div class=\"category\">C</div></li>";
    let e = extract_products(&page(&[bad.to_string()])).unwrap_err();
    assert_eq!(e.field, FieldKind::Href);
    assert_eq!(e.index, 0);
}

#[test]
fn missing_title_fails_extraction() {
    let bad = "<li class=\"product\"><a href=\"h\"><img src=\"a.jpg\" /><img src=\"b.jpg\" /></a>\
               <div class=\"category\">C</div></li>";
    let e = extract_products(&page(&[bad.to_string()])).unwrap_err();
    assert_eq!(e.field, FieldKind::Title);
    assert_eq!(e.index, 0);
}

#[test]
fn missing_category_fails_extraction() {
    let bad = "<li class=\"product\"><a href=\"h\"><img src=\"a.jpg\" /><img src=\"b.jpg\" /></a>\
               <div class=\"box-text\"><a href=\"h\">T</a></div></li>";
    let e = extract_products(&page(&[bad.to_string()])).unwrap_err();
    assert_eq!(e.field, FieldKind::Category);
    assert_eq!(e.index, 0);
}

#[test]
fn single_image_fails_extraction() {
    let bad = "<li class=\"product\"><a href=\"h\"><img src=\"a.jpg\" /></a>\
               <div class=\"box-text\"><a href=\"h\">T</a></div>\
               <div class=\"category\">C</div></li>";
    let e = extract_products(&page(&[bad.to_string()])).unwrap_err();
    assert_eq!(e.field, FieldKind::Image);
    assert_eq!(e.index, 0);
}

#[test]
fn one_malformed_item_invalidates_whole_page_with_its_index() {
    let good = block("h1", "One", "C", Some("1"), "a.jpg", "b.jpg");
    let bad = "<li class=\"product\"><a href=\"h2\"><img src=\"c.jpg\" /><img src=\"d.jpg\" /></a>\
               <div class=\"category\">C</div></li>"
        .to_string();
    let e = extract_products(&page(&[good, bad])).unwrap_err();
    assert_eq!(e.field, FieldKind::Title);
    assert_eq!(e.index, 1);
}

#[test]
fn trim_strips_leading_and_trailing_whitespace() {
    let chars: Vec<char> = " \t hello world \n ".chars().collect();
    let trimmed: String = trim(&chars).into_iter().collect();
    assert_eq!(trimmed, "hello world");
    let all_space: Vec<char> = " \t\r\n".chars().collect();
    assert!(trim(&all_space).is_empty());
}

#[test]
fn remove_token_once_removes_only_first_occurrence() {
    let s: Vec<char> = "ab-tok-cd-tok-ef".chars().collect();
    let tok: Vec<char> = "-tok".chars().collect();
    let out: String = remove_token_once(&s, &tok).into_iter().collect();
    assert_eq!(out, "ab-cd-tok-ef");
    let untouched: Vec<char> = "abcdef".chars().collect();
    let out2: String = remove_token_once(&untouched, &tok).into_iter().collect();
    assert_eq!(out2, "abcdef");
}
