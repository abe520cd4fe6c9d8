use bookmark_bridge::feed::Entry;
use bookmark_bridge::text::text_and_facets;

fn entry(title: &str, description: Option<&str>, tags: &[&str]) -> Entry {
    Entry {
        title: title.to_string(),
        url: "https://example.com/page".to_string(),
        description: description.map(|d| d.to_string()),
        tags: tags.iter().map(|t| t.to_string()).collect(),
    }
}

#[test]
fn facet_byte_accuracy() {
    let e = entry("T", None, &["a", "bb"]);
    let (text, facets) = text_and_facets(&e);
    assert_eq!(text, "T\n#a #bb");
    assert_eq!(facets.len(), 2);
    assert_eq!(facets[0].byte_start, 2);
    assert_eq!(facets[0].byte_end, 4);
    assert_eq!(facets[0].tag, "a");
    assert_eq!(facets[1].byte_start, 5);
    assert_eq!(facets[1].byte_end, 8);
    assert_eq!(facets[1].tag, "bb");
    assert_eq!(&text.as_bytes()[2..4], b"#a");
    assert_eq!(&text.as_bytes()[5..8], b"#bb");
}

#[test]
fn text_without_description() {
    let e = entry("Hi", None, &[]);
    let (text, facets) = text_and_facets(&e);
    assert_eq!(text, "Hi");
    assert!(facets.is_empty());
}

#[test]
fn text_with_description() {
    let e = entry("Hi", Some("Sub"), &[]);
    let (text, facets) = text_and_facets(&e);
    assert_eq!(text, "Sub / Hi");
    assert!(facets.is_empty());
}

#[test]
fn facets_with_multibyte_text() {
    // The title and the first tag are multi-byte in UTF-8: offsets must
    // count bytes, not characters.
    let e = entry("\u{65e5}\u{8a18}", Some("\u{30e1}\u{30e2}"), &["\u{65e5}\u{672c}", "x"]);
    let (text, facets) = text_and_facets(&e);
    assert_eq!(text, "\u{30e1}\u{30e2} / \u{65e5}\u{8a18}\n#\u{65e5}\u{672c} #x");
    assert_eq!(facets.len(), 2);
    for f in &facets {
        let covered = &text.as_bytes()[f.byte_start..f.byte_end];
        let expected = format!("#{}", f.tag);
        assert_eq!(covered, expected.as_bytes());
    }
    assert!(facets[0].byte_end <= facets[1].byte_start);
}

#[test]
fn facets_with_description_and_tags() {
    let e = entry("Title", Some("Note"), &["one", "two", "three"]);
    let (text, facets) = text_and_facets(&e);
    assert_eq!(text, "Note / Title\n#one #two #three");
    assert_eq!(facets.len(), 3);
    for f in &facets {
        let covered = &text.as_bytes()[f.byte_start..f.byte_end];
        let expected = format!("#{}", f.tag);
        assert_eq!(covered, expected.as_bytes());
    }
}
