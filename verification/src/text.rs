//! Post composition: the post's text and the hashtag facets, with
//! byte-accurate offsets into the UTF-8 encoding of the text.

use vstd::prelude::*;
use vstd::string::StringExecFns;
use vstd::utf8::encode_utf8;
use vstd::utf8::encode_scalar;
use vstd::utf8::leading_byte_width_1;
use vstd::utf8::has_width_1_encoding;
use crate::feed::Entry;

verus! {

/// A rich-text annotation: the half-open byte range `[byte_start, byte_end)`
/// of the post text covers exactly `#` followed by `tag`.
pub struct FacetSpan {
    pub byte_start: usize,
    pub byte_end: usize,
    pub tag: String,
}

/// Length in bytes of the UTF-8 encoding of `s`.
pub open spec fn byte_len(s: Seq<char>) -> nat {
    encode_utf8(s).len()
}

/// The post's base text: `"{description} / {title}"` when a description is
/// present, else the title alone.
pub open spec fn base_text(title: Seq<char>, description: Option<Seq<char>>) -> Seq<char> {
    match description {
        Some(d) => d + " / "@ + title,
        None => title,
    }
}

/// The hashtag run `"#t0 #t1 ... #tn"`: every tag in its original order,
/// prefixed with `#` and separated by single spaces.
pub open spec fn tag_run(tags: Seq<Seq<char>>) -> Seq<char>
    decreases tags.len(),
{
    if tags.len() == 0 {
        Seq::empty()
    } else if tags.len() == 1 {
        seq!['#'] + tags[0]
    } else {
        tag_run(tags.drop_last()) + seq![' ', '#'] + tags.last()
    }
}

/// The whole post text: the base text, and, when there are tags, a newline
/// followed by the hashtag run.
pub open spec fn composed_text(
    title: Seq<char>,
    description: Option<Seq<char>>,
    tags: Seq<Seq<char>>,
) -> Seq<char> {
    if tags.len() == 0 {
        base_text(title, description)
    } else {
        base_text(title, description) + seq!['\n'] + tag_run(tags)
    }
}

/// Byte offset at which the facet of tag `k` starts: the bytes of everything
/// before it (base text, newline, earlier hashtags) plus one separating
/// space when it is not the first tag.
pub open spec fn facet_start(
    title: Seq<char>,
    description: Option<Seq<char>>,
    tags: Seq<Seq<char>>,
    k: int,
) -> int {
    byte_len(base_text(title, description) + seq!['\n'] + tag_run(tags.take(k)))
        + if k > 0 { 1int } else { 0int }
}

/// Byte offset just past the facet of tag `k`: its start, plus the byte
/// for `#`, plus the tag's own bytes.
pub open spec fn facet_end(
    title: Seq<char>,
    description: Option<Seq<char>>,
    tags: Seq<Seq<char>>,
    k: int,
) -> int {
    facet_start(title, description, tags, k) + 1 + byte_len(tags[k])
}

/// What the composer promises of the facet for tag `k`.
pub open spec fn facet_ok(
    f: FacetSpan,
    title: Seq<char>,
    description: Option<Seq<char>>,
    tags: Seq<Seq<char>>,
    k: int,
) -> bool {
    &&& f.tag@ == tags[k]
    &&& f.byte_start == facet_start(title, description, tags, k)
    &&& f.byte_end == facet_start(title, description, tags, k) + 1 + byte_len(tags[k])
}

/// UTF-8 encoding distributes over concatenation.
pub proof fn lemma_encode_utf8_concat(a: Seq<char>, b: Seq<char>)
    ensures
        encode_utf8(a + b) == encode_utf8(a) + encode_utf8(b),
    decreases a.len(),
{
    if a.len() == 0 {
        assert(a + b =~= b);
        assert(encode_utf8(a) + encode_utf8(b) =~= encode_utf8(b));
    } else {
        assert((a + b).drop_first() =~= a.drop_first() + b);
        lemma_encode_utf8_concat(a.drop_first(), b);
        assert(encode_utf8(a + b) =~= encode_utf8(a) + encode_utf8(b));
    }
}

/// An ASCII character encodes to the single byte of its code point.
pub proof fn lemma_ascii_encoding(c: char)
    requires
        (c as u32) < 128,
    ensures
        encode_utf8(seq![c]) == seq![c as u8],
        byte_len(seq![c]) == 1,
{
    let c0 = c as u32;
    assert(has_width_1_encoding(c0));
    assert(c0 as u8 == leading_byte_width_1(c0)) by (bit_vector)
        requires
            has_width_1_encoding(c0),
    ;
    let s = seq![c];
    assert(s.drop_first() =~= Seq::<char>::empty());
    assert(encode_utf8(s.drop_first()) =~= Seq::<u8>::empty());
    assert(encode_scalar(c0) =~= seq![leading_byte_width_1(c0)]);
    assert(encode_utf8(s) =~= seq![c as u8]);
}

/// Unfolding `tag_run` one tag at a time, in the order the composer
/// appends them: the run over the first `k + 1` tags is the run over the
/// first `k`, a separating space when `k > 0`, then `#` and the tag.
pub proof fn lemma_tag_run_snoc(tags: Seq<Seq<char>>, k: int)
    requires
        0 <= k < tags.len(),
    ensures
        tag_run(tags.take(k + 1)) == tag_run(tags.take(k)) + (if k > 0 {
            seq![' ']
        } else {
            Seq::<char>::empty()
        }) + seq!['#'] + tags[k],
{
    let t1 = tags.take(k + 1);
    assert(t1.len() == k + 1);
    assert(t1.last() == tags[k]);
    assert(t1.drop_last() =~= tags.take(k));
    if k == 0 {
        assert(tag_run(t1) == seq!['#'] + t1[0]);
        assert(tag_run(tags.take(0)) == Seq::<char>::empty());
        assert(tag_run(tags.take(k)) + Seq::<char>::empty() + seq!['#'] + tags[k] =~= seq![
            '#',
        ] + tags[k]);
    } else {
        assert(tag_run(t1) == tag_run(tags.take(k)) + seq![' ', '#'] + t1.last());
        assert(tag_run(tags.take(k)) + seq![' '] + seq!['#'] + tags[k] =~= tag_run(tags.take(k))
            + seq![' ', '#'] + tags[k]);
    }
}

/// Byte length distributes over concatenation.
pub proof fn lemma_byte_len_concat(a: Seq<char>, b: Seq<char>)
    ensures
        byte_len(a + b) == byte_len(a) + byte_len(b),
{
    lemma_encode_utf8_concat(a, b);
}

/// What follows the first `k` hashtags inside the hashtag run: the
/// separating space when `k > 0`, then `#`, tag `k`, and the rest.
pub open spec fn run_tail(tags: Seq<Seq<char>>, k: int) -> Seq<char>
    decreases tags.len() - k,
{
    if k < 0 || k >= tags.len() {
        Seq::empty()
    } else {
        (if k > 0 {
            seq![' ']
        } else {
            Seq::<char>::empty()
        }) + seq!['#'] + tags[k] + run_tail(tags, k + 1)
    }
}

/// The whole hashtag run splits at any tag index: the run over the first
/// `k` tags, followed by everything from tag `k` on.
pub proof fn lemma_tag_run_decompose(tags: Seq<Seq<char>>, k: int)
    requires
        0 <= k <= tags.len(),
    ensures
        tag_run(tags) == tag_run(tags.take(k)) + run_tail(tags, k),
    decreases tags.len() - k,
{
    if k == tags.len() {
        assert(tags.take(k) =~= tags);
        assert(tag_run(tags.take(k)) + run_tail(tags, k) =~= tag_run(tags.take(k)));
    } else {
        lemma_tag_run_decompose(tags, k + 1);
        lemma_tag_run_snoc(tags, k);
        let sep: Seq<char> = if k > 0 {
            seq![' ']
        } else {
            Seq::<char>::empty()
        };
        assert(run_tail(tags, k) == sep + seq!['#'] + tags[k] + run_tail(tags, k + 1));
        assert(tag_run(tags.take(k)) + run_tail(tags, k) =~= (tag_run(tags.take(k)) + sep + seq![
            '#',
        ] + tags[k]) + run_tail(tags, k + 1));
    }
}

/// Composes the post for a bookmark entry: the text, and one facet per tag
/// covering exactly the `#tag` token, byte-addressed into the UTF-8 text.
pub fn text_and_facets(entry: &Entry) -> (r: (String, Vec<FacetSpan>))
    requires
        byte_len(
            composed_text(entry.title@, entry.description.deep_view(), entry.tags.deep_view()),
        ) <= usize::MAX,
    ensures
        r.0@ == composed_text(entry.title@, entry.description.deep_view(), entry.tags.deep_view()),
        r.1@.len() == entry.tags@.len(),
        forall|k: int|
            0 <= k < entry.tags@.len() ==> facet_ok(
                #[trigger] r.1@[k],
                entry.title@,
                entry.description.deep_view(),
                entry.tags.deep_view(),
                k,
            ),
{
    let ghost title = entry.title@;
    let ghost desc = entry.description.deep_view();
    let ghost tags = entry.tags.deep_view();
    let mut facets: Vec<FacetSpan> = Vec::new();
    let mut text: String = match &entry.description {
        Some(d) => {
            let mut t = d.clone();
            t.append(" / ");
            t.append(entry.title.as_str());
            t
        },
        None => entry.title.clone(),
    };
    assert(text@ == base_text(title, desc));
    let num_tags = entry.tags.len();
    if num_tags > 0 {
        text.append("\n");
        proof {
            reveal_strlit("\n");
            assert(text@ =~= base_text(title, desc) + seq!['\n'] + tag_run(tags.take(0)));
        }
        for i in 0..num_tags
            invariant
                num_tags == tags.len(),
                tags == entry.tags.deep_view(),
                title == entry.title@,
                desc == entry.description.deep_view(),
                byte_len(composed_text(title, desc, tags)) <= usize::MAX,
                text@ == base_text(title, desc) + seq!['\n'] + tag_run(tags.take(i as int)),
                facets@.len() == i,
                forall|k: int|
                    0 <= k < i ==> facet_ok(#[trigger] facets@[k], title, desc, tags, k),
        {
            let ghost prefix = base_text(title, desc) + seq!['\n'] + tag_run(tags.take(i as int));
            proof {
                lemma_prefix_fits(title, desc, tags, i as int);
            }
            if i > 0 {
                text.append(" ");
                proof {
                    reveal_strlit(" ");
                    assert(text@ =~= prefix + seq![' ']);
                }
            }
            let start = text.as_str().len();
            proof {
                lemma_ascii_encoding(' ');
                if i > 0 {
                    lemma_encode_utf8_concat(prefix, seq![' ']);
                }
                assert(byte_len(text@) == facet_start(title, desc, tags, i as int));
            }
            let tag = &entry.tags[i];
            let tag_bytes = tag.as_str().len();
            proof {
                assert(byte_len(tag@) == tag_bytes);
            }
            facets.push(
                FacetSpan { byte_start: start, byte_end: start + 1 + tag_bytes, tag: tag.clone() },
            );
            text.append("#");
            text.append(tag.as_str());
            proof {
                reveal_strlit("#");
                lemma_tag_run_snoc(tags, i as int);
                assert(text@ =~= base_text(title, desc) + seq!['\n'] + tag_run(
                    tags.take(i as int + 1),
                ));
                assert(facet_ok(facets@[i as int], title, desc, tags, i as int));
            }
        }
        proof {
            assert(tags.take(num_tags as int) =~= tags);
        }
    }
    (text, facets)
}

/// The facet of tag `k` ends no later than the composed text itself does.
proof fn lemma_prefix_fits(
    title: Seq<char>,
    description: Option<Seq<char>>,
    tags: Seq<Seq<char>>,
    k: int,
)
    requires
        0 <= k < tags.len(),
    ensures
        facet_start(title, description, tags, k) + 1 + byte_len(tags[k]) <= byte_len(
            composed_text(title, description, tags),
        ),
{
    let base_nl = base_text(title, description) + seq!['\n'];
    let sep: Seq<char> = if k > 0 {
        seq![' ']
    } else {
        Seq::<char>::empty()
    };
    lemma_tag_run_decompose(tags, k);
    lemma_ascii_encoding(' ');
    lemma_ascii_encoding('#');
    assert(run_tail(tags, k) == sep + seq!['#'] + tags[k] + run_tail(tags, k + 1));
    lemma_byte_len_concat(base_nl, tag_run(tags));
    lemma_byte_len_concat(tag_run(tags.take(k)), run_tail(tags, k));
    assert(run_tail(tags, k) =~= ((sep + seq!['#']) + tags[k]) + run_tail(tags, k + 1));
    lemma_byte_len_concat((sep + seq!['#']) + tags[k], run_tail(tags, k + 1));
    lemma_byte_len_concat(sep + seq!['#'], tags[k]);
    lemma_byte_len_concat(sep, seq!['#']);
    lemma_byte_len_concat(base_nl, tag_run(tags.take(k)));
    assert(composed_text(title, description, tags) =~= base_nl + tag_run(tags));
    assert(byte_len(sep) == if k > 0 {
        1nat
    } else {
        0nat
    });
}

/// Well-formedness of the facet spans, for every entry and every tag: each
/// span lies inside the text's UTF-8 bytes, starts before it ends, the
/// bytes it covers are exactly `#` followed by the tag's bytes, and the
/// next span begins one byte (the separating space) after it ends — so the
/// spans are non-overlapping and ordered by their start.
pub proof fn lemma_facet_spans_exact(
    title: Seq<char>,
    description: Option<Seq<char>>,
    tags: Seq<Seq<char>>,
    k: int,
)
    requires
        0 <= k < tags.len(),
    ensures
        0 <= facet_start(title, description, tags, k),
        facet_start(title, description, tags, k) < facet_end(title, description, tags, k),
        facet_end(title, description, tags, k) <= byte_len(composed_text(title, description, tags)),
        encode_utf8(composed_text(title, description, tags)).subrange(
            facet_start(title, description, tags, k),
            facet_end(title, description, tags, k),
        ) == encode_utf8(seq!['#'] + tags[k]),
        k + 1 < tags.len() ==> facet_start(title, description, tags, k + 1) == facet_end(
            title,
            description,
            tags,
            k,
        ) + 1,
{
    let base_nl = base_text(title, description) + seq!['\n'];
    let sep: Seq<char> = if k > 0 {
        seq![' ']
    } else {
        Seq::<char>::empty()
    };
    let text = composed_text(title, description, tags);
    let start = facet_start(title, description, tags, k);
    let end = facet_end(title, description, tags, k);
    lemma_prefix_fits(title, description, tags, k);
    lemma_ascii_encoding(' ');
    lemma_ascii_encoding('#');
    lemma_tag_run_decompose(tags, k);
    assert(run_tail(tags, k) == sep + seq!['#'] + tags[k] + run_tail(tags, k + 1));
    let pre = base_nl + tag_run(tags.take(k)) + sep;
    let mid = seq!['#'] + tags[k];
    let post = run_tail(tags, k + 1);
    assert(text =~= pre + mid + post);
    lemma_byte_len_concat(base_nl, tag_run(tags.take(k)));
    lemma_byte_len_concat(base_nl + tag_run(tags.take(k)), sep);
    assert(byte_len(pre) == start);
    lemma_encode_utf8_concat(pre + mid, post);
    lemma_encode_utf8_concat(pre, mid);
    lemma_byte_len_concat(seq!['#'], tags[k]);
    assert(byte_len(mid) == 1 + byte_len(tags[k]));
    assert(encode_utf8(text) =~= (encode_utf8(pre) + encode_utf8(mid)) + encode_utf8(post));
    assert(encode_utf8(text).subrange(start, end) =~= encode_utf8(mid));
    if k + 1 < tags.len() {
        lemma_tag_run_snoc(tags, k);
        assert(tags.take(k + 1).take(k) =~= tags.take(k));
        lemma_byte_len_concat(tag_run(tags.take(k)) + sep + seq!['#'], tags[k]);
        lemma_byte_len_concat(tag_run(tags.take(k)) + sep, seq!['#']);
        lemma_byte_len_concat(tag_run(tags.take(k)), sep);
        lemma_byte_len_concat(base_nl, tag_run(tags.take(k + 1)));
        assert(tag_run(tags.take(k + 1)) =~= ((tag_run(tags.take(k)) + sep) + seq!['#'])
            + tags[k]);
    }
}

} // verus!
