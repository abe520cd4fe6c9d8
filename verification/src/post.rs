//! Assembly of one post: everything about the record that is a pure
//! function of the bookmark entry and the fetched page's summary.

use vstd::prelude::*;
use vstd::string::StringExecFns;
use crate::errors::MetadataError;
use crate::feed::Entry;
use crate::metadata::PageSummary;
use crate::metadata::ExternalEmbed;
use crate::metadata::chosen_title;
use crate::metadata::chosen_description;
use crate::metadata::external_embed;
use crate::metadata::spec_resolve_image;
use crate::metadata::thumbnail_request;
use crate::text::FacetSpan;
use crate::text::byte_len;
use crate::text::composed_text;
use crate::text::facet_ok;
use crate::text::text_and_facets;

verus! {

/// A post ready to submit, still free of anything the service adds at
/// submission time: the text, its hashtag facets, the external-link
/// embed, the thumbnail to upload first (if any), and the fixed language
/// tag.
pub struct DraftPost {
    pub text: String,
    pub facets: Vec<FacetSpan>,
    pub embed: ExternalEmbed,
    pub thumbnail_url: Option<String>,
    pub lang: String,
}

/// Everything `compose_entry_post` promises of a draft it returns.
pub open spec fn draft_ok(d: DraftPost, entry: &Entry, page: &PageSummary) -> bool {
    &&& d.text@ == composed_text(
        entry.title@,
        entry.description.deep_view(),
        entry.tags.deep_view(),
    )
    &&& d.facets@.len() == entry.tags@.len()
    &&& forall|k: int|
        0 <= k < entry.tags@.len() ==> facet_ok(
            #[trigger] d.facets@[k],
            entry.title@,
            entry.description.deep_view(),
            entry.tags.deep_view(),
            k,
        )
    &&& d.embed.uri@ == entry.url@
    &&& d.embed.title@ == chosen_title(page)
    &&& d.embed.description@ == chosen_description(page)
    &&& match d.thumbnail_url {
        Some(u) => page.og_images@.len() > 0 && spec_resolve_image(page.og_images@[0]@, entry.url@)
            == Some(u@),
        None => page.og_images@.len() == 0,
    }
    &&& d.lang@ == "ja"@
}

/// Composes the full draft for one entry: the text with its byte-accurate
/// facets, the external embed from the page's metadata, and the resolved
/// thumbnail URL. Fails only when a social-preview image URL cannot be
/// resolved.
pub fn compose_entry_post(entry: &Entry, page: &PageSummary) -> (r: Result<
    DraftPost,
    MetadataError,
>)
    requires
        byte_len(
            composed_text(entry.title@, entry.description.deep_view(), entry.tags.deep_view()),
        ) <= usize::MAX,
    ensures
        match r {
            Ok(d) => draft_ok(d, entry, page),
            Err(e) => page.og_images@.len() > 0 && spec_resolve_image(
                page.og_images@[0]@,
                entry.url@,
            ) is None && e == MetadataError::BadImageUrl,
        },
{
    let thumbnail_url = match thumbnail_request(entry, page) {
        Ok(req) => req,
        Err(e) => {
            return Err(e);
        },
    };
    let (text, facets) = text_and_facets(entry);
    let embed = external_embed(entry, page);
    Ok(
        DraftPost {
            text,
            facets,
            embed,
            thumbnail_url,
            lang: String::from_str("ja"),
        },
    )
}

} // verus!
