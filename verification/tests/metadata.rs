use bookmark_bridge::errors::MetadataError;
use bookmark_bridge::feed::Entry;
use bookmark_bridge::metadata::PageSummary;
use bookmark_bridge::metadata::external_embed;
use bookmark_bridge::metadata::resolve_image_url;
use bookmark_bridge::metadata::thumbnail_request;
use bookmark_bridge::post::compose_entry_post;

fn entry() -> Entry {
    Entry {
        title: "Bookmark".to_string(),
        url: "https://example.com/posts/1".to_string(),
        description: None,
        tags: Vec::new(),
    }
}

fn page() -> PageSummary {
    PageSummary {
        title: Some("Doc title".to_string()),
        description: Some("Doc description".to_string()),
        og_title: None,
        og_description: None,
        og_images: Vec::new(),
    }
}

#[test]
fn relative_thumbnail_resolution() {
    let r = resolve_image_url("/img.png", "https://example.com/posts/1");
    assert_eq!(r.unwrap(), "https://example.com/img.png");
}

#[test]
fn absolute_thumbnail_stays() {
    let r = resolve_image_url("https://cdn.example.net/a.png", "https://example.com/posts/1");
    assert_eq!(r.unwrap(), "https://cdn.example.net/a.png");
}

#[test]
fn relative_resolution_resets_path_to_root() {
    // The base's own path must not take part: the reference is resolved
    // against the origin with the path reset to the root.
    let r = resolve_image_url("img.png", "https://example.com/deep/nested/page");
    assert_eq!(r.unwrap(), "https://example.com/img.png");
}

#[test]
fn unresolvable_image_is_a_metadata_error() {
    let r = resolve_image_url("/img.png", "not a base url");
    assert!(matches!(r, Err(MetadataError::BadImageUrl)));
}

#[test]
fn thumbnail_skipped_without_image() {
    let r = thumbnail_request(&entry(), &page());
    assert_eq!(r.unwrap(), None);
}

#[test]
fn thumbnail_uses_first_image() {
    let mut p = page();
    p.og_images = vec!["/one.png".to_string(), "/two.png".to_string()];
    let r = thumbnail_request(&entry(), &p);
    assert_eq!(r.unwrap().as_deref(), Some("https://example.com/one.png"));
}

#[test]
fn embed_prefers_social_preview_properties() {
    let mut p = page();
    p.og_title = Some("OG title".to_string());
    p.og_description = Some("OG description".to_string());
    let e = external_embed(&entry(), &p);
    assert_eq!(e.title, "OG title");
    assert_eq!(e.description, "OG description");
    assert_eq!(e.uri, "https://example.com/posts/1");
}

#[test]
fn embed_falls_back_to_document_fields() {
    let e = external_embed(&entry(), &page());
    assert_eq!(e.title, "Doc title");
    assert_eq!(e.description, "Doc description");
}

#[test]
fn embed_empty_when_nothing_known() {
    let p = PageSummary {
        title: None,
        description: None,
        og_title: None,
        og_description: None,
        og_images: Vec::new(),
    };
    let e = external_embed(&entry(), &p);
    assert_eq!(e.title, "");
    assert_eq!(e.description, "");
}

#[test]
fn composed_draft_carries_everything() {
    let mut e = entry();
    e.description = Some("Note".to_string());
    e.tags = vec!["tag".to_string()];
    let mut p = page();
    p.og_images = vec!["/shot.png".to_string()];
    let d = compose_entry_post(&e, &p).expect("draft expected");
    assert_eq!(d.text, "Note / Bookmark\n#tag");
    assert_eq!(d.facets.len(), 1);
    assert_eq!(&d.text.as_bytes()[d.facets[0].byte_start..d.facets[0].byte_end], b"#tag");
    assert_eq!(d.embed.uri, "https://example.com/posts/1");
    assert_eq!(d.thumbnail_url.as_deref(), Some("https://example.com/shot.png"));
    assert_eq!(d.lang, "ja");
}

#[test]
fn composed_draft_fails_on_bad_image() {
    let mut p = page();
    p.og_images = vec!["/img.png".to_string()];
    let mut e = entry();
    e.url = "no scheme here".to_string();
    let r = compose_entry_post(&e, &p);
    assert!(matches!(r, Err(MetadataError::BadImageUrl)));
}
