use bookmark_bridge::identity::ClientInfo;
use bookmark_bridge::identity::DidDoc;
use bookmark_bridge::identity::FetchClient;
use bookmark_bridge::identity::Service;
use bookmark_bridge::identity::apply_session;
use bookmark_bridge::identity::get_pds_endpoint;
use bookmark_bridge::identity::validate_url;

fn doc_with_endpoint(endpoint: &str) -> DidDoc {
    DidDoc {
        id: "did:plc:alice".to_string(),
        service: Some(vec![Service {
            id: "#atproto_pds".to_string(),
            service_type: "AtprotoPersonalDataServer".to_string(),
            service_endpoint: endpoint.to_string(),
        }]),
    }
}

#[test]
fn endpoint_validation_rejects_ftp() {
    let doc = doc_with_endpoint("ftp://pds.example.com");
    assert!(get_pds_endpoint(&doc).is_none());
    let mut info = ClientInfo {
        access_jwt: None,
        base_uri: "https://bsky.social".to_string(),
    };
    apply_session(&mut info, "jwt-token".to_string(), Some(&doc));
    // The default base URI is retained; the token is stored regardless.
    assert_eq!(info.base_uri, "https://bsky.social");
    assert_eq!(info.access_jwt.as_deref(), Some("jwt-token"));
}

#[test]
fn endpoint_validation_rejects_missing_host() {
    let doc = doc_with_endpoint("https:///nohost");
    assert!(get_pds_endpoint(&doc).is_none());
}

#[test]
fn valid_endpoint_overrides_default() {
    let doc = doc_with_endpoint("https://pds.example.com");
    assert_eq!(get_pds_endpoint(&doc).as_deref(), Some("https://pds.example.com"));
    let mut info = ClientInfo {
        access_jwt: None,
        base_uri: "https://bsky.social".to_string(),
    };
    apply_session(&mut info, "jwt".to_string(), Some(&doc));
    assert_eq!(info.base_uri, "https://pds.example.com");
}

#[test]
fn full_id_form_matches() {
    let doc = DidDoc {
        id: "did:plc:alice".to_string(),
        service: Some(vec![Service {
            id: "did:plc:alice#atproto_pds".to_string(),
            service_type: "AtprotoPersonalDataServer".to_string(),
            service_endpoint: "http://pds.example.com".to_string(),
        }]),
    };
    assert_eq!(get_pds_endpoint(&doc).as_deref(), Some("http://pds.example.com"));
}

#[test]
fn wrong_service_type_is_ignored() {
    let doc = DidDoc {
        id: "did:plc:alice".to_string(),
        service: Some(vec![Service {
            id: "#atproto_pds".to_string(),
            service_type: "SomethingElse".to_string(),
            service_endpoint: "https://pds.example.com".to_string(),
        }]),
    };
    assert!(get_pds_endpoint(&doc).is_none());
}

#[test]
fn no_services_no_endpoint() {
    let doc = DidDoc { id: "did:plc:alice".to_string(), service: None };
    assert!(get_pds_endpoint(&doc).is_none());
    let mut info = ClientInfo {
        access_jwt: None,
        base_uri: "https://bsky.social".to_string(),
    };
    apply_session(&mut info, "jwt".to_string(), None);
    assert_eq!(info.base_uri, "https://bsky.social");
}

#[test]
fn validate_url_schemes() {
    assert!(validate_url("https://example.com"));
    assert!(validate_url("http://example.com/path"));
    assert!(!validate_url("ftp://example.com"));
    assert!(!validate_url("example.com"));
    assert!(!validate_url("not a url at all \u{0000}"));
}

#[test]
fn client_carries_session() {
    let client = FetchClient::new(ClientInfo {
        access_jwt: Some("jwt".to_string()),
        base_uri: "https://pds.example.com".to_string(),
    });
    assert_eq!(client.auth().as_deref(), Some("jwt"));
    assert_eq!(client.base_uri(), "https://pds.example.com");
    let fresh = FetchClient::new(ClientInfo {
        access_jwt: None,
        base_uri: "https://bsky.social".to_string(),
    });
    assert!(fresh.auth().is_none());
}
