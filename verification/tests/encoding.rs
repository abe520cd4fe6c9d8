use bookmark_bridge::encoding::MarkupElement;
use bookmark_bridge::encoding::decode_document;
use bookmark_bridge::encoding::extract_charset;

fn meta(attrs: &[(&str, &str)]) -> MarkupElement {
    MarkupElement {
        name: "meta".to_string(),
        attrs: attrs.iter().map(|(k, v)| (k.to_string(), v.to_string())).collect(),
    }
}

#[test]
fn encoding_fallback_meta_charset() {
    // content-type without a charset; the embedded meta charset must win
    // over the UTF-8 fallback. 0x82 0xA0 is Shift_JIS for U+3042.
    let elements = vec![meta(&[("charset", "shift_jis")])];
    let mut bytes = b"ab".to_vec();
    bytes.extend_from_slice(&[0x82, 0xA0]);
    let decoded = decode_document(Some("text/html"), &elements, &bytes);
    assert_eq!(decoded, "ab\u{3042}");
}

#[test]
fn header_charset_param_wins() {
    // The charset parameter of the content-type header is used even with
    // no markup hint at all.
    let elements: Vec<MarkupElement> = Vec::new();
    let mut bytes = b"ok ".to_vec();
    bytes.extend_from_slice(&[0x82, 0xA0]);
    let decoded = decode_document(Some("text/html; charset=shift_jis"), &elements, &bytes);
    assert_eq!(decoded, "ok \u{3042}");
}

#[test]
fn http_equiv_content_type_charset() {
    let elements = vec![
        meta(&[("http-equiv", "Content-Type"), ("content", "text/html; charset=shift_jis")]),
    ];
    let found = extract_charset(&elements).expect("charset hint expected");
    assert_eq!(found, "shift_jis");
    let mut bytes = b"x".to_vec();
    bytes.extend_from_slice(&[0x82, 0xA0]);
    let decoded = decode_document(None, &elements, &bytes);
    assert_eq!(decoded, "x\u{3042}");
}

#[test]
fn first_meta_charset_wins() {
    let elements = vec![
        MarkupElement { name: "head".to_string(), attrs: vec![("charset".to_string(), "latin1".to_string())] },
        meta(&[("charset", "utf-8")]),
        meta(&[("charset", "shift_jis")]),
    ];
    // A non-meta element yields nothing even with a charset attribute; the
    // first meta element decides.
    assert_eq!(extract_charset(&elements).as_deref(), Some("utf-8"));
}

#[test]
fn unknown_charset_falls_back_to_lossy_utf8() {
    let elements = vec![meta(&[("charset", "no-such-encoding")])];
    let bytes = vec![b'h', b'i', 0xFF];
    let decoded = decode_document(None, &elements, &bytes);
    // 0xFF is invalid UTF-8: lossy decoding substitutes the replacement
    // character rather than failing.
    assert_eq!(decoded, "hi\u{fffd}");
}

#[test]
fn no_hint_decodes_utf8() {
    let elements: Vec<MarkupElement> = Vec::new();
    let decoded = decode_document(None, &elements, "plain \u{65e5}".as_bytes());
    assert_eq!(decoded, "plain \u{65e5}");
}

#[test]
fn no_charset_hint_in_unrelated_meta() {
    let elements = vec![meta(&[("name", "viewport"), ("content", "width=device-width")])];
    assert!(extract_charset(&elements).is_none());
}
