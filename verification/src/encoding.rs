//! Character-encoding resolution for fetched documents: a charset from the
//! content-type header, else a charset hint scraped from the document's
//! `meta` elements, else UTF-8 with lossy substitution. Resolution never
//! fails: lossy decoding is the guaranteed fallback.

use vstd::prelude::*;
use vstd::string::StrSliceExecFns;
use crate::strutil::first_found;
use crate::strutil::found_at;
use crate::strutil::lower;
use crate::strutil::str_eq;
use crate::strutil::str_eq_lower;
use crate::strutil::find_in_lower;

verus! {

/// One element of the parsed markup, in document order: its local name and
/// its attributes (name, value), in their order of appearance.
pub struct MarkupElement {
    pub name: String,
    pub attrs: Vec<(String, String)>,
}

impl MarkupElement {
    /// The attributes as a sequence of (name, value) character sequences.
    pub open spec fn attrs_view(&self) -> Seq<(Seq<char>, Seq<char>)> {
        Seq::new(self.attrs@.len(), |i: int| (self.attrs@[i].0@, self.attrs@[i].1@))
    }

    /// The charset hint this element yields, if any.
    pub open spec fn charset_view(&self) -> Option<Seq<char>> {
        element_charset(self.name@, self.attrs_view())
    }
}

/// Value of the first attribute named `key`, scanning from index `j`.
pub open spec fn attr_from(
    attrs: Seq<(Seq<char>, Seq<char>)>,
    key: Seq<char>,
    j: int,
) -> Option<Seq<char>>
    decreases attrs.len() - j,
{
    if j < 0 || j >= attrs.len() {
        None
    } else if attrs[j].0 == key {
        Some(attrs[j].1)
    } else {
        attr_from(attrs, key, j + 1)
    }
}

/// Some attribute declares `http-equiv` equal, ignoring ASCII case, to
/// `content-type`.
pub open spec fn has_content_type_equiv(attrs: Seq<(Seq<char>, Seq<char>)>) -> bool {
    exists|i: int|
        0 <= i < attrs.len() && (#[trigger] attrs[i]).0 == "http-equiv"@ && lower(attrs[i].1)
            == lower("content-type"@)
}

/// The charset named inside a `content` attribute value: everything after
/// the first occurrence of `charset=` in its ASCII case folding, if any.
pub open spec fn content_charset_value(v: Seq<char>) -> Option<Seq<char>> {
    if first_found(lower(v), "charset="@, 0) >= 0 {
        Some(v.subrange(first_found(lower(v), "charset="@, 0) + "charset="@.len(), v.len() as int))
    } else {
        None
    }
}

/// The charset named by the first `content` attribute, scanning from `j`,
/// whose value contains `charset=`.
pub open spec fn content_charset_from(attrs: Seq<(Seq<char>, Seq<char>)>, j: int) -> Option<
    Seq<char>,
>
    decreases attrs.len() - j,
{
    if j < 0 || j >= attrs.len() {
        None
    } else if attrs[j].0 == "content"@ && content_charset_value(attrs[j].1) is Some {
        content_charset_value(attrs[j].1)
    } else {
        content_charset_from(attrs, j + 1)
    }
}

/// The charset hint one element yields: only `meta` elements count; a
/// `charset` attribute wins, else a `meta http-equiv=content-type` element
/// is searched for a `content` attribute naming a charset.
pub open spec fn element_charset(name: Seq<char>, attrs: Seq<(Seq<char>, Seq<char>)>) -> Option<
    Seq<char>,
> {
    if name == "meta"@ {
        match attr_from(attrs, "charset"@, 0) {
            Some(v) => Some(v),
            None => {
                if has_content_type_equiv(attrs) {
                    content_charset_from(attrs, 0)
                } else {
                    None
                }
            },
        }
    } else {
        None
    }
}

/// The charset hint of the first element, in document order, that yields
/// one, scanning from `j`.
pub open spec fn elements_charset(elems: Seq<MarkupElement>, j: int) -> Option<Seq<char>>
    decreases elems.len() - j,
{
    if j < 0 || j >= elems.len() {
        None
    } else if elems[j].charset_view() is Some {
        elems[j].charset_view()
    } else {
        elements_charset(elems, j + 1)
    }
}

/// Value of the first attribute named `key`, executable.
fn find_attr(attrs: &Vec<(String, String)>, key: &str) -> (r: Option<String>)
    ensures
        ({
            let av = Seq::new(attrs@.len(), |i: int| (attrs@[i].0@, attrs@[i].1@));
            match r {
                Some(v) => attr_from(av, key@, 0) == Some(v@),
                None => attr_from(av, key@, 0) is None,
            }
        }),
{
    let ghost av = Seq::new(attrs@.len(), |i: int| (attrs@[i].0@, attrs@[i].1@));
    let n = attrs.len();
    for j in 0..n
        invariant
            n == attrs@.len(),
            av == Seq::new(attrs@.len(), |i: int| (attrs@[i].0@, attrs@[i].1@)),
            attr_from(av, key@, 0) == attr_from(av, key@, j as int),
    {
        if str_eq(attrs[j].0.as_str(), key) {
            return Some(attrs[j].1.clone());
        }
    }
    None
}

/// Whether some attribute declares `http-equiv` as `content-type`,
/// executable.
fn has_content_type_equiv_exec(attrs: &Vec<(String, String)>) -> (r: bool)
    ensures
        r == has_content_type_equiv(Seq::new(attrs@.len(), |i: int| (attrs@[i].0@, attrs@[i].1@))),
{
    let ghost av = Seq::new(attrs@.len(), |i: int| (attrs@[i].0@, attrs@[i].1@));
    let n = attrs.len();
    for j in 0..n
        invariant
            n == attrs@.len(),
            av == Seq::new(attrs@.len(), |i: int| (attrs@[i].0@, attrs@[i].1@)),
            forall|i: int|
                0 <= i < j ==> !((#[trigger] av[i]).0 == "http-equiv"@ && lower(av[i].1) == lower(
                    "content-type"@,
                )),
    {
        if str_eq(attrs[j].0.as_str(), "http-equiv") && str_eq_lower(
            attrs[j].1.as_str(),
            "content-type",
        ) {
            proof {
                assert(av[j as int].0 == "http-equiv"@ && lower(av[j as int].1) == lower(
                    "content-type"@,
                ));
            }
            return true;
        }
    }
    false
}

/// The charset named after `charset=` inside one attribute value,
/// executable.
fn content_charset_value_exec(v: &str) -> (r: Option<String>)
    ensures
        match r {
            Some(s) => content_charset_value(v@) == Some(s@),
            None => content_charset_value(v@) is None,
        },
{
    match find_in_lower(v, "charset=") {
        Some(pos) => {
            let vlen = v.unicode_len();
            let plen = "charset=".unicode_len();
            proof {
                assert(lower(v@).len() == v@.len());
                crate::strutil::lemma_first_found_is_hit(lower(v@), "charset="@, 0);
                assert(found_at(lower(v@), "charset="@, pos as int));
            }
            let rest = v.substring_char(pos + plen, vlen);
            Some(rest.to_owned())
        },
        None => None,
    }
}

/// The charset named by the first matching `content` attribute,
/// executable.
fn content_charset_exec(attrs: &Vec<(String, String)>) -> (r: Option<String>)
    ensures
        ({
            let av = Seq::new(attrs@.len(), |i: int| (attrs@[i].0@, attrs@[i].1@));
            match r {
                Some(v) => content_charset_from(av, 0) == Some(v@),
                None => content_charset_from(av, 0) is None,
            }
        }),
{
    let ghost av = Seq::new(attrs@.len(), |i: int| (attrs@[i].0@, attrs@[i].1@));
    let n = attrs.len();
    for j in 0..n
        invariant
            n == attrs@.len(),
            av == Seq::new(attrs@.len(), |i: int| (attrs@[i].0@, attrs@[i].1@)),
            content_charset_from(av, 0) == content_charset_from(av, j as int),
    {
        if str_eq(attrs[j].0.as_str(), "content") {
            match content_charset_value_exec(attrs[j].1.as_str()) {
                Some(v) => {
                    return Some(v);
                },
                None => {},
            }
        }
    }
    None
}

/// The charset hint one element yields, executable.
fn element_charset_exec(e: &MarkupElement) -> (r: Option<String>)
    ensures
        match r {
            Some(v) => e.charset_view() == Some(v@),
            None => e.charset_view() is None,
        },
{
    if !str_eq(e.name.as_str(), "meta") {
        return None;
    }
    match find_attr(&e.attrs, "charset") {
        Some(v) => Some(v),
        None => {
            if has_content_type_equiv_exec(&e.attrs) {
                content_charset_exec(&e.attrs)
            } else {
                None
            }
        },
    }
}

/// What decoding the given bytes under the encoding that the given charset
/// label names yields, or nothing when no known encoding has that label.
pub uninterp spec fn spec_decode_with_label(label: Seq<char>, bytes: Seq<u8>) -> Option<Seq<char>>;

/// Relies on encoding_rs::Encoding::for_label to recognise the charset
/// label, and on encoding_rs::Encoding::decode to decode the bytes under
/// the named encoding with replacement of malformed sequences; both depend
/// on their arguments alone.
#[verifier::external_body]
fn decode_with_label(label: &str, bytes: &[u8]) -> (r: Option<String>)
    ensures
        match r {
            Some(s) => spec_decode_with_label(label@, bytes@) == Some(s@),
            None => spec_decode_with_label(label@, bytes@) is None,
        },
{
    match encoding_rs::Encoding::for_label(label.as_bytes()) {
        Some(encoding) => Some(encoding.decode(bytes).0.into_owned()),
        None => None,
    }
}

/// What decoding the given bytes as UTF-8 with lossy substitution of
/// invalid sequences yields.
pub uninterp spec fn spec_utf8_lossy(bytes: Seq<u8>) -> Seq<char>;

/// Relies on String::from_utf8_lossy: invalid UTF-8 sequences are replaced
/// with the replacement character, and valid UTF-8 input decodes to
/// exactly the characters it encodes.
#[verifier::external_body]
fn utf8_lossy(bytes: &[u8]) -> (r: String)
    ensures
        r@ == spec_utf8_lossy(bytes@),
        vstd::utf8::valid_utf8(bytes@) ==> r@ == vstd::utf8::decode_utf8(bytes@),
{
    String::from_utf8_lossy(bytes).into_owned()
}

/// The charset parameter of a content-type header value, if the value
/// parses as a media type that carries one.
pub uninterp spec fn spec_charset_param(content_type: Seq<char>) -> Option<Seq<char>>;

/// Relies on mime::Mime's parser and on Mime::get_param to read the
/// charset parameter out of a content-type header value; both depend on
/// the value alone.
#[verifier::external_body]
fn charset_param(content_type: &str) -> (r: Option<String>)
    ensures
        match r {
            Some(s) => spec_charset_param(content_type@) == Some(s@),
            None => spec_charset_param(content_type@) is None,
        },
{
    match content_type.parse::<mime::Mime>() {
        Ok(m) => match m.get_param("charset") {
            Some(c) => Some(c.as_str().to_string()),
            None => None,
        },
        Err(_) => None,
    }
}

/// Scrapes a charset hint from the parsed markup: the first element, in
/// document order, that is a `meta` element declaring one.
pub fn extract_charset(elements: &Vec<MarkupElement>) -> (r: Option<String>)
    ensures
        match r {
            Some(v) => elements_charset(elements@, 0) == Some(v@),
            None => elements_charset(elements@, 0) is None,
        },
{
    let n = elements.len();
    for j in 0..n
        invariant
            n == elements@.len(),
            elements_charset(elements@, 0) == elements_charset(elements@, j as int),
    {
        match element_charset_exec(&elements[j]) {
            Some(v) => {
                return Some(v);
            },
            None => {},
        }
    }
    None
}

/// The view of an optional header value.
pub open spec fn opt_str_view(s: Option<&str>) -> Option<Seq<char>> {
    match s {
        Some(x) => Some(x@),
        None => None,
    }
}

/// Which charset label the resolution order settles on: the content-type
/// header's charset parameter first, else the first hint in the markup.
pub open spec fn charset_hint(
    content_type: Option<Seq<char>>,
    elems: Seq<MarkupElement>,
) -> Option<Seq<char>> {
    match content_type {
        Some(ct) => match spec_charset_param(ct) {
            Some(c) => Some(c),
            None => elements_charset(elems, 0),
        },
        None => elements_charset(elems, 0),
    }
}

/// What the document decodes to: the hinted encoding when the hint names a
/// known one, else UTF-8 with lossy substitution.
pub open spec fn decoded_document(
    content_type: Option<Seq<char>>,
    elems: Seq<MarkupElement>,
    bytes: Seq<u8>,
) -> Seq<char> {
    match charset_hint(content_type, elems) {
        Some(label) => match spec_decode_with_label(label, bytes) {
            Some(s) => s,
            None => spec_utf8_lossy(bytes),
        },
        None => spec_utf8_lossy(bytes),
    }
}

/// Decodes a fetched document's bytes: a charset from the content-type
/// header wins, else a hint scraped from the markup's `meta` elements,
/// else — or when the hint names no known encoding — UTF-8 with lossy
/// substitution. Never fails.
pub fn decode_document(
    content_type: Option<&str>,
    elements: &Vec<MarkupElement>,
    bytes: &[u8],
) -> (r: String)
    ensures
        r@ == decoded_document(opt_str_view(content_type), elements@, bytes@),
{
    let hint: Option<String> = match content_type {
        Some(ct) => match charset_param(ct) {
            Some(c) => Some(c),
            None => extract_charset(elements),
        },
        None => extract_charset(elements),
    };
    match hint {
        Some(label) => match decode_with_label(label.as_str(), bytes) {
            Some(s) => s,
            None => utf8_lossy(bytes),
        },
        None => utf8_lossy(bytes),
    }
}

} // verus!
