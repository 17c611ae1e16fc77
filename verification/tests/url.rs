use stock_checker::url::ParsedUrl;

#[test]
fn root_path_is_added() {
    let url = ParsedUrl::parse("https://example.com").unwrap();
    assert_eq!(url.as_str(), "https://example.com/");
}

#[test]
fn default_port_is_dropped() {
    let url = ParsedUrl::parse("http://example.com:80/a").unwrap();
    assert_eq!(url.as_str(), "http://example.com/a");
}

#[test]
fn scheme_and_host_are_lowered() {
    let url = ParsedUrl::parse("HTTPS://EXAMPLE.com/Path?q=1#top").unwrap();
    assert_eq!(url.as_str(), "https://example.com/Path?q=1#top");
}

#[test]
fn address_without_scheme_is_rejected() {
    assert!(ParsedUrl::parse("example.com").is_none());
    assert!(ParsedUrl::parse("").is_none());
    assert!(ParsedUrl::parse("/only/a/path").is_none());
}

#[test]
fn addresses_compare_by_serialization() {
    let plain = ParsedUrl::parse("https://example.com").unwrap();
    let slashed = ParsedUrl::parse("https://example.com/").unwrap();
    let ported = ParsedUrl::parse("https://example.com:443/").unwrap();
    let other = ParsedUrl::parse("https://example.com/a").unwrap();
    assert!(plain == slashed);
    assert!(plain == ported);
    assert!(plain != other);
}
