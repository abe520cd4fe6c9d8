//! The authenticated session: the bearer credential, the data-service base
//! URI, and the validated service-endpoint discovery from the account's
//! identity document.

use vstd::prelude::*;
use vstd::string::StringExecFns;
use crate::strutil::str_eq;

verus! {

/// One service declaration inside an identity document.
pub struct Service {
    pub id: String,
    pub service_type: String,
    pub service_endpoint: String,
}

/// An identity document: the account's identifier and its declared
/// services.
pub struct DidDoc {
    pub id: String,
    pub service: Option<Vec<Service>>,
}

/// The session state shared by all calls within a run: the bearer token
/// once logged in, and the base URI of the data service.
#[derive(Clone)]
pub struct ClientInfo {
    pub access_jwt: Option<String>,
    pub base_uri: String,
}

/// The HTTP client's view of the session.
pub struct FetchClient {
    pub info: ClientInfo,
}

impl FetchClient {
    /// A client over the given session state.
    pub fn new(info: ClientInfo) -> (r: Self)
        ensures
            r.info == info,
    {
        Self { info }
    }

    /// The bearer token to authenticate a call with, if logged in.
    pub fn auth(&self) -> (r: Option<String>)
        ensures
            match self.info.access_jwt {
                Some(jwt) => r == Some(jwt),
                None => r is None,
            },
    {
        match &self.info.access_jwt {
            Some(jwt) => Some(jwt.clone()),
            None => None,
        }
    }

    /// The base URI that every call is addressed to.
    pub fn base_uri(&self) -> (r: String)
        ensures
            r == self.info.base_uri,
    {
        self.info.base_uri.clone()
    }
}

/// The scheme and the presence of a host that the URI grammar reads out of
/// a string, or nothing when the string is no URI.
pub uninterp spec fn spec_uri_parts(s: Seq<char>) -> Option<(Option<Seq<char>>, bool)>;

/// Relies on http::Uri's parser and on its scheme_str and host accessors;
/// all depend on the string alone.
#[verifier::external_body]
fn uri_parts(s: &str) -> (r: Option<(Option<String>, bool)>)
    ensures
        match r {
            Some(parts) => spec_uri_parts(s@) == Some(
                (
                    match parts.0 {
                        Some(scheme) => Some(scheme@),
                        None => None::<Seq<char>>,
                    },
                    parts.1,
                ),
            ),
            None => spec_uri_parts(s@) is None,
        },
{
    match s.parse::<http::Uri>() {
        Ok(uri) => Some((uri.scheme_str().map(|x| x.to_string()), uri.host().is_some())),
        Err(_) => None,
    }
}

/// A service endpoint may be trusted only when it parses as a URI whose
/// scheme is `https` or `http` and which names a host.
pub open spec fn spec_valid_url(s: Seq<char>) -> bool {
    match spec_uri_parts(s) {
        Some(parts) => match parts.0 {
            Some(scheme) => (scheme == "https"@ || scheme == "http"@) && parts.1,
            None => false,
        },
        None => false,
    }
}

/// Validates a declared service endpoint: wrong schemes and missing hosts
/// are rejected rather than trusted.
pub fn validate_url(url: &str) -> (r: bool)
    ensures
        r == spec_valid_url(url@),
{
    match uri_parts(url) {
        Some((Some(scheme), has_host)) => (str_eq(scheme.as_str(), "https") || str_eq(
            scheme.as_str(),
            "http",
        )) && has_host,
        _ => false,
    }
}

/// The first declared service whose id is `id` or `full_id`, scanning from
/// `j`.
pub open spec fn find_service(
    services: Seq<Service>,
    id: Seq<char>,
    full_id: Seq<char>,
    j: int,
) -> Option<Service>
    decreases services.len() - j,
{
    if j < 0 || j >= services.len() {
        None
    } else if services[j].id@ == id || services[j].id@ == full_id {
        Some(services[j])
    } else {
        find_service(services, id, full_id, j + 1)
    }
}

/// The endpoint the identity document declares under the given service id
/// (bare, or prefixed with the document's id) and type — but only when its
/// URL is valid; an invalid one yields nothing.
pub open spec fn spec_service_endpoint(doc: &DidDoc, id: Seq<char>, service_type: Seq<char>) -> Option<
    Seq<char>,
> {
    match doc.service {
        Some(services) => match find_service(services@, id, doc.id@ + id, 0) {
            Some(s) => {
                if s.service_type@ == service_type && spec_valid_url(s.service_endpoint@) {
                    Some(s.service_endpoint@)
                } else {
                    None
                }
            },
            None => None,
        },
        None => None,
    }
}

/// Looks up a service endpoint in the identity document by id and type,
/// rejecting one whose URL is not a valid http or https URL with a host.
pub fn get_service_endpoint(doc: &DidDoc, id: &str, service_type: &str) -> (r: Option<String>)
    ensures
        match r {
            Some(e) => spec_service_endpoint(doc, id@, service_type@) == Some(e@),
            None => spec_service_endpoint(doc, id@, service_type@) is None,
        },
{
    let full_id = doc.id.clone().concat(id);
    match &doc.service {
        Some(services) => {
            let n = services.len();
            for j in 0..n
                invariant
                    doc.service == Some(*services),
                    n == services@.len(),
                    full_id@ == doc.id@ + id@,
                    find_service(services@, id@, doc.id@ + id@, 0) == find_service(
                        services@,
                        id@,
                        doc.id@ + id@,
                        j as int,
                    ),
            {
                let s = &services[j];
                if str_eq(s.id.as_str(), id) || str_eq(s.id.as_str(), full_id.as_str()) {
                    proof {
                        assert(find_service(services@, id@, doc.id@ + id@, j as int) == Some(
                            services@[j as int],
                        ));
                        assert(find_service(services@, id@, doc.id@ + id@, 0) == Some(
                            services@[j as int],
                        ));
                    }
                    if str_eq(s.service_type.as_str(), service_type) && validate_url(
                        s.service_endpoint.as_str(),
                    ) {
                        return Some(s.service_endpoint.clone());
                    }
                    return None;
                }
                proof {
                    assert(find_service(services@, id@, doc.id@ + id@, j as int) == find_service(
                        services@,
                        id@,
                        doc.id@ + id@,
                        j as int + 1,
                    ));
                }
            }
            None
        },
        None => None,
    }
}

/// The personal-data-service endpoint of the identity document, when one
/// is declared and valid.
pub open spec fn spec_pds_endpoint(doc: &DidDoc) -> Option<Seq<char>> {
    spec_service_endpoint(doc, "#atproto_pds"@, "AtprotoPersonalDataServer"@)
}

/// Looks up the account's personal-data-service endpoint in its identity
/// document.
pub fn get_pds_endpoint(doc: &DidDoc) -> (r: Option<String>)
    ensures
        match r {
            Some(e) => spec_pds_endpoint(doc) == Some(e@),
            None => spec_pds_endpoint(doc) is None,
        },
{
    get_service_endpoint(doc, "#atproto_pds", "AtprotoPersonalDataServer")
}

/// Applies a successful login to the session: the bearer token is stored,
/// and the base URI is overridden only by a declared personal-data-service
/// endpoint that is valid — otherwise the default base URI is retained.
pub fn apply_session(info: &mut ClientInfo, access_jwt: String, did_doc: Option<&DidDoc>)
    ensures
        final (info).access_jwt == Some(access_jwt),
        final (info).base_uri@ == (match did_doc {
            Some(doc) => match spec_pds_endpoint(doc) {
                Some(e) => e,
                None => old(info).base_uri@,
            },
            None => old(info).base_uri@,
        }),
{
    info.access_jwt = Some(access_jwt);
    match did_doc {
        Some(doc) => {
            match get_pds_endpoint(doc) {
                Some(endpoint) => {
                    info.base_uri = endpoint;
                },
                None => {},
            }
        },
        None => {},
    }
}

} // verus!
