use bookmark_bridge::errors::FeedError;
use bookmark_bridge::feed::parse_feed;

fn feed_with_items(items: &str) -> String {
    format!(
        "<rss version=\"2.0\" xmlns:dc=\"http://purl.org/dc/elements/1.1/\">\
         <channel><title>bookmarks</title><link>https://example.com</link>\
         <description>feed</description>{items}</channel></rss>"
    )
}

#[test]
fn parses_entries_with_tags() {
    let xml = feed_with_items(
        "<item><title>Page One</title><link>https://example.com/1</link>\
         <description>memo</description>\
         <dc:subject>rust</dc:subject><dc:subject>verify</dc:subject></item>\
         <item><title>Page Two</title><link>https://example.com/2</link></item>",
    );
    let entries = parse_feed(xml.as_bytes()).expect("feed should parse");
    assert_eq!(entries.len(), 2);
    assert_eq!(entries[0].title, "Page One");
    assert_eq!(entries[0].url, "https://example.com/1");
    assert_eq!(entries[0].description.as_deref(), Some("memo"));
    assert_eq!(entries[0].tags, vec!["rust".to_string(), "verify".to_string()]);
    assert_eq!(entries[1].title, "Page Two");
    assert!(entries[1].description.is_none());
    assert!(entries[1].tags.is_empty());
}

#[test]
fn malformed_document_fails_the_feed() {
    let r = parse_feed(b"this is not a feed document");
    assert!(matches!(r, Err(FeedError::Malformed)));
}

#[test]
fn item_without_title_fails_the_feed() {
    let xml = feed_with_items("<item><link>https://example.com/1</link></item>");
    let r = parse_feed(xml.as_bytes());
    assert!(matches!(r, Err(FeedError::ItemWithoutTitle)));
}

#[test]
fn item_without_link_fails_the_feed() {
    let xml = feed_with_items("<item><title>Orphan</title></item>");
    let r = parse_feed(xml.as_bytes());
    assert!(matches!(r, Err(FeedError::ItemWithoutLink)));
}
