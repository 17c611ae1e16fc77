use stock_checker::expect_pretty::Fatal;
use stock_checker::pass::{check, Action, Event, Pass};
use stock_checker::scrape::MAX_BODY;
use stock_checker::target::Target;
use stock_checker::url::ParsedUrl;

fn entry(url: &str, id: &str, check: &str) -> Target {
    Target { url: url.to_string(), id: id.to_string(), check: check.to_string() }
}

fn price_page(price: &str) -> String {
    format!("<html><body><h1>Shop</h1><span id=\"price\">{}</span></body></html>", price)
}

/// Runs a whole pass. Every page has the body `page`; the stored list is `stored`, and the
/// messages sent are added to `sent`. Returns the action that ended the pass.
fn run_pass(stored: &mut Vec<Target>, page: &str, sent: &mut Vec<String>) -> Action {
    let mut step = check(Pass::Idle, Event::Start);
    loop {
        let (pass, action) = step;
        let event = match action {
            Action::Load => Event::Loaded(stored.clone()),
            Action::Fetch(_) => Event::Page(page.to_string()),
            Action::Notify(message) => {
                sent.push(message);
                Event::Sent
            }
            Action::Save(targets) => {
                *stored = targets;
                Event::Saved
            }
            Action::Finish => return Action::Finish,
            Action::Abort(fatal) => return Action::Abort(fatal),
        };
        step = check(pass, event);
    }
}

#[test]
fn change_is_reported_once_and_recorded() {
    let old = "<span id=\"price\">10</span>";
    let new = "<span id=\"price\">12</span>";
    let targets = vec![entry("https://example.com/", "#price", old)];

    let (pass, action) = check(Pass::Idle, Event::Start);
    assert_eq!(action, Action::Load);
    let (pass, action) = check(pass, Event::Loaded(targets.clone()));
    assert_eq!(action, Action::Fetch(ParsedUrl::parse("https://example.com/").unwrap()));
    let (pass, action) = check(pass, Event::Page(price_page("12")));
    assert_eq!(
        action,
        Action::Notify("Stock Checker: tag #price has been updated at https://example.com/".to_string())
    );
    let (pass, action) = check(pass, Event::Sent);
    assert_eq!(action, Action::Load);
    let (pass, action) = check(pass, Event::Loaded(targets));
    assert_eq!(action, Action::Save(vec![entry("https://example.com/", "#price", new)]));
    let (pass, action) = check(pass, Event::Saved);
    assert_eq!(action, Action::Finish);
    assert_eq!(pass, Pass::Finished);
}

#[test]
fn unchanged_page_asks_for_nothing_but_the_page() {
    let targets = vec![entry("https://example.com/", "#price", "<span id=\"price\">10</span>")];
    let (pass, _) = check(Pass::Idle, Event::Start);
    let (pass, action) = check(pass, Event::Loaded(targets));
    assert_eq!(action, Action::Fetch(ParsedUrl::parse("https://example.com/").unwrap()));
    let (pass, action) = check(pass, Event::Page(price_page("10")));
    assert_eq!(action, Action::Finish);
    assert_eq!(pass, Pass::Finished);
}

#[test]
fn empty_list_ends_the_pass_at_once() {
    let (pass, action) = check(Pass::Idle, Event::Start);
    assert_eq!(pass, Pass::Loading);
    assert_eq!(action, Action::Load);
    let (pass, action) = check(pass, Event::Loaded(Vec::new()));
    assert_eq!(pass, Pass::Finished);
    assert_eq!(action, Action::Finish);
}

#[test]
fn second_pass_over_unchanged_pages_is_quiet() {
    let mut stored = vec![
        entry("https://a.test/", "#price", "<span id=\"price\">10</span>"),
        entry("https://b.test/", "h1", "<h1>Shop</h1>"),
        entry("https://c.test/", "span", ""),
    ];
    let mut sent = Vec::new();
    assert_eq!(run_pass(&mut stored, &price_page("12"), &mut sent), Action::Finish);
    assert_eq!(
        sent,
        vec![
            "Stock Checker: tag #price has been updated at https://a.test/".to_string(),
            "Stock Checker: tag span has been updated at https://c.test/".to_string(),
        ]
    );
    let after_first = vec![
        entry("https://a.test/", "#price", "<span id=\"price\">12</span>"),
        entry("https://b.test/", "h1", "<h1>Shop</h1>"),
        entry("https://c.test/", "span", "<span id=\"price\">12</span>"),
    ];
    assert_eq!(stored, after_first);

    let mut sent_again = Vec::new();
    assert_eq!(run_pass(&mut stored, &price_page("12"), &mut sent_again), Action::Finish);
    assert!(sent_again.is_empty());
    assert_eq!(stored, after_first);
}

#[test]
fn targets_are_fetched_in_stored_order() {
    let targets = vec![
        entry("https://a.test/", "h1", "<h1>Shop</h1>"),
        entry("https://b.test", "h1", "<h1>Shop</h1>"),
    ];
    let (pass, _) = check(Pass::Idle, Event::Start);
    let (pass, action) = check(pass, Event::Loaded(targets));
    assert_eq!(action, Action::Fetch(ParsedUrl::parse("https://a.test/").unwrap()));
    let (pass, action) = check(pass, Event::Page(price_page("1")));
    assert_eq!(action, Action::Fetch(ParsedUrl::parse("https://b.test/").unwrap()));
    let (_, action) = check(pass, Event::Page(price_page("1")));
    assert_eq!(action, Action::Finish);
}

#[test]
fn stored_address_that_does_not_parse_aborts_the_pass() {
    let mut stored = vec![
        entry("https://a.test/", "#price", "old"),
        entry("b.test", "#price", "old"),
        entry("https://c.test/", "#price", "old"),
    ];
    let mut sent = Vec::new();
    let end = run_pass(&mut stored, &price_page("12"), &mut sent);
    assert_eq!(end, Action::Abort(Fatal::new("Error when parsing url: b.test")));
    assert_eq!(sent.len(), 1);
    assert_eq!(
        stored,
        vec![
            entry("https://a.test/", "#price", "<span id=\"price\">12</span>"),
            entry("b.test", "#price", "old"),
            entry("https://c.test/", "#price", "old"),
        ]
    );
}

#[test]
fn missing_element_aborts_the_pass() {
    let mut stored = vec![entry("https://a.test/", "#foo", "old")];
    let mut sent = Vec::new();
    let end = run_pass(&mut stored, &price_page("12"), &mut sent);
    assert_eq!(
        end,
        Action::Abort(Fatal::new(
            "No elements with id or unique class in page\nDid you specify the id or class with '#' or '.'?"
        ))
    );
    assert!(sent.is_empty());
    assert_eq!(stored, vec![entry("https://a.test/", "#foo", "old")]);
}

#[test]
fn selector_that_does_not_parse_aborts_the_pass() {
    let mut stored = vec![entry("https://a.test/", "!!", "old")];
    let mut sent = Vec::new();
    let end = run_pass(&mut stored, &price_page("12"), &mut sent);
    assert_eq!(end, Action::Abort(Fatal::new("Invalid selector")));
    assert!(sent.is_empty());
}

#[test]
fn target_gone_from_the_list_aborts_the_pass() {
    let targets = vec![entry("https://example.com/", "#price", "old")];
    let (pass, _) = check(Pass::Idle, Event::Start);
    let (pass, _) = check(pass, Event::Loaded(targets));
    let (pass, _) = check(pass, Event::Page(price_page("12")));
    let (pass, action) = check(pass, Event::Sent);
    assert_eq!(action, Action::Load);
    let (pass, action) = check(pass, Event::Loaded(Vec::new()));
    assert_eq!(action, Action::Abort(Fatal::new("Target not in targets")));
    assert_eq!(pass, Pass::Finished);
}

#[test]
fn event_out_of_turn_aborts_the_pass() {
    let unexpected = Action::Abort(Fatal::new("Unexpected event"));
    assert_eq!(check(Pass::Idle, Event::Saved).1, unexpected);
    assert_eq!(check(Pass::Loading, Event::Start).1, unexpected);
    assert_eq!(check(Pass::Finished, Event::Start).1, unexpected);
    let targets = vec![entry("https://example.com/", "#price", "old")];
    let (pass, _) = check(Pass::Loading, Event::Loaded(targets.clone()));
    assert_eq!(check(pass, Event::Sent), (Pass::Finished, Action::Abort(Fatal::new("Unexpected event"))));
    let beyond = Pass::Fetching { targets, index: 1 };
    assert_eq!(check(beyond, Event::Page(price_page("1"))).1, unexpected);
}

#[test]
fn page_beyond_the_bound_aborts_the_pass() {
    let mut stored = vec![entry("https://a.test/", "#price", "old")];
    let mut sent = Vec::new();
    let mut page = price_page("12");
    page.push_str(&" ".repeat(MAX_BODY));
    let end = run_pass(&mut stored, &page, &mut sent);
    assert_eq!(end, Action::Abort(Fatal::new("Page too large")));
    assert!(sent.is_empty());
    assert_eq!(stored, vec![entry("https://a.test/", "#price", "old")]);
}
