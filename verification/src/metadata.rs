//! Page metadata for one entry: the normalized title and description
//! chosen from the social-preview properties with document fallbacks, and
//! the social-preview image URL, resolved to an absolute URL.

use vstd::prelude::*;
use crate::errors::MetadataError;
use crate::feed::Entry;

verus! {

/// What a fetched page's markup yields, already decoded: the document's
/// own title and description, the social-preview title and description
/// properties, and the social-preview image URLs in document order.
pub struct PageSummary {
    pub title: Option<String>,
    pub description: Option<String>,
    pub og_title: Option<String>,
    pub og_description: Option<String>,
    pub og_images: Vec<String>,
}

/// The embed's title: the social-preview title, else the document title,
/// else empty.
pub open spec fn chosen_title(page: &PageSummary) -> Seq<char> {
    match page.og_title {
        Some(t) => t@,
        None => match page.title {
            Some(t) => t@,
            None => Seq::empty(),
        },
    }
}

/// The embed's description: the social-preview description, else the
/// document description, else empty.
pub open spec fn chosen_description(page: &PageSummary) -> Seq<char> {
    match page.og_description {
        Some(d) => d@,
        None => match page.description {
            Some(d) => d@,
            None => Seq::empty(),
        },
    }
}

/// The external-link embed attached beside the post text.
pub struct ExternalEmbed {
    pub uri: String,
    pub title: String,
    pub description: String,
}

/// Builds the external-link embed for an entry: the bookmark's URL, and
/// the page's chosen title and description.
pub fn external_embed(entry: &Entry, page: &PageSummary) -> (r: ExternalEmbed)
    ensures
        r.uri@ == entry.url@,
        r.title@ == chosen_title(page),
        r.description@ == chosen_description(page),
{
    let title = match &page.og_title {
        Some(t) => t.clone(),
        None => match &page.title {
            Some(t) => t.clone(),
            None => String::new(),
        },
    };
    let description = match &page.og_description {
        Some(d) => d.clone(),
        None => match &page.description {
            Some(d) => d.clone(),
            None => String::new(),
        },
    };
    ExternalEmbed { uri: entry.url.clone(), title, description }
}

/// Outcome of parsing a string as an absolute URL.
enum UrlParse {
    Absolute(String),
    Relative,
    Invalid,
}

/// What the URL grammar makes of a string: the normalized absolute URL on
/// success; on failure, whether the string was a relative URL without a
/// base (true) or invalid outright (false).
pub uninterp spec fn spec_parse_url(s: Seq<char>) -> Result<Seq<char>, bool>;

/// Relies on url::Url::parse, which depends on the string alone: a
/// successful parse yields the normalized URL, and the error for a
/// relative URL without a base is distinguished from every other.
#[verifier::external_body]
fn parse_url(s: &str) -> (r: UrlParse)
    ensures
        match r {
            UrlParse::Absolute(u) => spec_parse_url(s@) == Ok::<Seq<char>, bool>(u@),
            UrlParse::Relative => spec_parse_url(s@) == Err::<Seq<char>, bool>(true),
            UrlParse::Invalid => spec_parse_url(s@) == Err::<Seq<char>, bool>(false),
        },
{
    match s.parse::<url::Url>() {
        Ok(u) => UrlParse::Absolute(String::from(u)),
        Err(url::ParseError::RelativeUrlWithoutBase) => UrlParse::Relative,
        Err(_) => UrlParse::Invalid,
    }
}

/// What resolving a relative reference against a base URL, with the
/// base's path reset to the root, yields — nothing when the base does not
/// parse or the join fails.
pub uninterp spec fn spec_join_from_root(base: Seq<char>, rel: Seq<char>) -> Option<Seq<char>>;

/// Relies on url::Url::parse, Url::set_path and Url::join: the relative
/// reference is resolved against the base URL with its path reset to the
/// root; all depend on the two strings alone.
#[verifier::external_body]
fn join_from_root(base: &str, rel: &str) -> (r: Option<String>)
    ensures
        match r {
            Some(u) => spec_join_from_root(base@, rel@) == Some(u@),
            None => spec_join_from_root(base@, rel@) is None,
        },
{
    match base.parse::<url::Url>() {
        Ok(mut b) => {
            b.set_path("/");
            match b.join(rel) {
                Ok(u) => Some(String::from(u)),
                Err(_) => None,
            }
        },
        Err(_) => None,
    }
}

/// Where the social-preview image URL resolves to: an absolute URL stands
/// as it is; a relative one is resolved against the page's URL with the
/// path reset to the root; anything else resolves to nothing.
pub open spec fn spec_resolve_image(image: Seq<char>, page: Seq<char>) -> Option<Seq<char>> {
    match spec_parse_url(image) {
        Ok(u) => Some(u),
        Err(relative) => {
            if relative {
                spec_join_from_root(page, image)
            } else {
                None
            }
        },
    }
}

/// Resolves a social-preview image URL against the page it was found on;
/// a URL that cannot be resolved fails the entry's metadata extraction.
pub fn resolve_image_url(image: &str, page: &str) -> (r: Result<String, MetadataError>)
    ensures
        match r {
            Ok(u) => spec_resolve_image(image@, page@) == Some(u@),
            Err(e) => spec_resolve_image(image@, page@) is None && e == MetadataError::BadImageUrl,
        },
{
    match parse_url(image) {
        UrlParse::Absolute(u) => Ok(u),
        UrlParse::Relative => match join_from_root(page, image) {
            Some(u) => Ok(u),
            None => Err(MetadataError::BadImageUrl),
        },
        UrlParse::Invalid => Err(MetadataError::BadImageUrl),
    }
}

/// The thumbnail to fetch and upload for an entry, if any: the first
/// social-preview image, resolved to an absolute URL. No image means no
/// thumbnail and no upload; an image that cannot be resolved fails the
/// entry.
pub fn thumbnail_request(entry: &Entry, page: &PageSummary) -> (r: Result<
    Option<String>,
    MetadataError,
>)
    ensures
        match r {
            Ok(req) => match req {
                Some(u) => page.og_images@.len() > 0 && spec_resolve_image(
                    page.og_images@[0]@,
                    entry.url@,
                ) == Some(u@),
                None => page.og_images@.len() == 0,
            },
            Err(e) => page.og_images@.len() > 0 && spec_resolve_image(
                page.og_images@[0]@,
                entry.url@,
            ) is None && e == MetadataError::BadImageUrl,
        },
{
    if page.og_images.len() == 0 {
        Ok(None)
    } else {
        match resolve_image_url(page.og_images[0].as_str(), entry.url.as_str()) {
            Ok(u) => Ok(Some(u)),
            Err(e) => Err(e),
        }
    }
}

} // verus!
