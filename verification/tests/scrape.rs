use stock_checker::scrape::{found_element, scrape, MAX_BODY};

const NO_ELEMENT: &str =
    "No elements with id or unique class in page\nDid you specify the id or class with '#' or '.'?";

#[test]
fn element_is_found_by_id() {
    let body = "<html><body><p>Price:</p><span id=\"price\">10</span></body></html>";
    assert_eq!(scrape(body, "#price").unwrap(), "<span id=\"price\">10</span>");
}

#[test]
fn markup_holds_the_whole_subtree() {
    let body = "<div class=\"box\"><b>in</b> stock<br></div><div class=\"other\"></div>";
    assert_eq!(scrape(body, ".box").unwrap(), "<div class=\"box\"><b>in</b> stock<br></div>");
}

#[test]
fn first_of_several_matches_is_taken() {
    let body = "<ul><li class=\"a\">1</li><li class=\"a\">2</li></ul>";
    assert_eq!(scrape(body, ".a").unwrap(), "<li class=\"a\">1</li>");
    assert_eq!(scrape(body, "li").unwrap(), "<li class=\"a\">1</li>");
}

#[test]
fn markup_is_the_serializers_not_the_pages() {
    let body = "<P ID=price >10";
    assert_eq!(scrape(body, "#price").unwrap(), "<p id=\"price\">10</p>");
}

#[test]
fn scraping_twice_gives_the_same_markup() {
    let body = "<a href=\"/x\" id=\"l\" class=\"c\" title=\"t\">go</a>";
    let first = scrape(body, "#l").unwrap();
    let second = scrape(body, "#l").unwrap();
    assert_eq!(first, second);
}

#[test]
fn selector_without_match_fails() {
    let body = "<html><body><span id=\"price\">10</span></body></html>";
    assert_eq!(scrape(body, "#foo").unwrap_err().message(), NO_ELEMENT);
    assert_eq!(scrape(body, "price").unwrap_err().message(), NO_ELEMENT);
    assert_eq!(scrape("", "#foo").unwrap_err().message(), NO_ELEMENT);
}

#[test]
fn selector_that_does_not_parse_fails() {
    let body = "<html><body><span id=\"price\">10</span></body></html>";
    assert_eq!(scrape(body, "!!").unwrap_err().message(), "Invalid selector");
    assert_eq!(scrape(body, "").unwrap_err().message(), "Invalid selector");
}

#[test]
fn found_markup_is_the_outcome() {
    assert_eq!(found_element(Ok(Some("<b>1</b>".to_string()))).unwrap(), "<b>1</b>");
}

#[test]
fn nothing_found_is_a_failure() {
    assert_eq!(found_element(Ok(None)).unwrap_err().message(), NO_ELEMENT);
}

#[test]
fn rejected_selector_is_a_failure() {
    assert_eq!(found_element(Err(())).unwrap_err().message(), "Invalid selector");
}

#[test]
fn bound_on_a_page_is_sixteen_mebi_characters() {
    assert_eq!(MAX_BODY, 16_777_216);
}

#[test]
fn page_beyond_the_bound_is_not_searched() {
    let mut body = String::from("<p id=\"a\">x</p>");
    let element = body.len();
    body.push_str(&" ".repeat(MAX_BODY + 1 - element));
    assert_eq!(body.chars().count(), MAX_BODY + 1);
    assert_eq!(scrape(&body, "#a").unwrap_err().message(), "Page too large");
    assert_eq!(scrape(&body, "!!").unwrap_err().message(), "Page too large");
}

#[test]
fn page_at_the_bound_is_searched() {
    let mut body = String::from("<p id=\"a\">x</p>");
    let element = body.len();
    body.push_str(&" ".repeat(MAX_BODY - element));
    assert_eq!(body.chars().count(), MAX_BODY);
    assert_eq!(scrape(&body, "#a").unwrap(), "<p id=\"a\">x</p>");
}

#[test]
fn bound_counts_characters_not_bytes() {
    let mut body = String::from("<p id=\"a\">x</p>");
    body.push_str(&"\u{e9}".repeat(MAX_BODY / 2));
    assert!(body.len() > MAX_BODY);
    assert_eq!(scrape(&body, "#a").unwrap(), "<p id=\"a\">x</p>");
}
