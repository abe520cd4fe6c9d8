//! Bookmark entries, and how they are read out of the feed document that
//! the bookmark feed collaborator delivers.

use vstd::prelude::*;
use crate::errors::FeedError;

verus! {

/// One bookmark from the feed: the page's title, its URL (the unique key
/// that the dedupe ledger is keyed by), an optional comment, and the
/// user's tags in their original order.
#[derive(Debug, Clone)]
pub struct Entry {
    pub title: String,
    pub url: String,
    pub description: Option<String>,
    pub tags: Vec<String>,
}

/// The mathematical view of an entry.
pub ghost struct EntryView {
    pub title: Seq<char>,
    pub url: Seq<char>,
    pub description: Option<Seq<char>>,
    pub tags: Seq<Seq<char>>,
}

impl View for Entry {
    type V = EntryView;

    open spec fn view(&self) -> EntryView {
        EntryView {
            title: self.title@,
            url: self.url@,
            description: self.description.deep_view(),
            tags: self.tags.deep_view(),
        }
    }
}

impl Entry {
    /// The tag list as a sequence of character sequences.
    pub open spec fn tags_view(&self) -> Seq<Seq<char>> {
        self.tags.deep_view()
    }
}

/// One item as the feed document carries it: every field still optional,
/// the tags from the document's subject elements.
pub struct RawItem {
    pub title: Option<String>,
    pub link: Option<String>,
    pub description: Option<String>,
    pub subjects: Vec<String>,
}

impl RawItem {
    /// The item's fields as plain values.
    pub open spec fn item_view(&self) -> (
        Option<Seq<char>>,
        Option<Seq<char>>,
        Option<Seq<char>>,
        Seq<Seq<char>>,
    ) {
        (
            self.title.deep_view(),
            self.link.deep_view(),
            self.description.deep_view(),
            self.subjects.deep_view(),
        )
    }
}

/// The items of a sequence of raw items, as plain values.
pub open spec fn items_view(items: Seq<RawItem>) -> Seq<
    (Option<Seq<char>>, Option<Seq<char>>, Option<Seq<char>>, Seq<Seq<char>>),
> {
    Seq::new(items.len(), |i: int| items[i].item_view())
}

/// What the feed parser makes of a document: its items' titles, links,
/// descriptions and subjects in order, or nothing when the document is no
/// feed.
pub uninterp spec fn spec_feed_items(bytes: Seq<u8>) -> Option<
    Seq<(Option<Seq<char>>, Option<Seq<char>>, Option<Seq<char>>, Seq<Seq<char>>)>,
>;

/// Relies on rss::Channel::read_from to parse a feed document, and on the
/// items' title, link, description and Dublin Core subject fields; the
/// parse depends on the bytes alone.
#[verifier::external_body]
fn read_channel_items(bytes: &[u8]) -> (r: Option<Vec<RawItem>>)
    ensures
        match r {
            Some(items) => spec_feed_items(bytes@) == Some(items_view(items@)),
            None => spec_feed_items(bytes@) is None,
        },
{
    match rss::Channel::read_from(bytes) {
        Ok(channel) => Some(
            channel.items.into_iter().map(
                |item| RawItem {
                    title: item.title,
                    link: item.link,
                    description: item.description,
                    subjects: item.dublin_core_ext.map(|ext| ext.subjects).unwrap_or_default(),
                },
            ).collect(),
        ),
        Err(_) => None,
    }
}

/// The entries a sequence of feed items yields: every item must carry a
/// title and a link (the first one missing either decides the error), the
/// description is kept as it is, and the subjects become the tags.
pub open spec fn entries_of_items(
    items: Seq<(Option<Seq<char>>, Option<Seq<char>>, Option<Seq<char>>, Seq<Seq<char>>)>,
) -> Result<Seq<EntryView>, FeedError>
    decreases items.len(),
{
    if items.len() == 0 {
        Ok(Seq::empty())
    } else if items.first().0 is None {
        Err(FeedError::ItemWithoutTitle)
    } else if items.first().1 is None {
        Err(FeedError::ItemWithoutLink)
    } else {
        match entries_of_items(items.drop_first()) {
            Ok(rest) => Ok(
                seq![
                    EntryView {
                        title: items.first().0->0,
                        url: items.first().1->0,
                        description: items.first().2,
                        tags: items.first().3,
                    },
                ] + rest,
            ),
            Err(e) => Err(e),
        }
    }
}

/// The views of a sequence of entries.
pub open spec fn entries_view(es: Seq<Entry>) -> Seq<EntryView> {
    Seq::new(es.len(), |i: int| es[i]@)
}

/// Copies a list of strings.
fn clone_strings(v: &Vec<String>) -> (r: Vec<String>)
    ensures
        r@ == v@,
{
    let mut r: Vec<String> = Vec::new();
    let n = v.len();
    for i in 0..n
        invariant
            n == v@.len(),
            r@ =~= v@.subrange(0, i as int),
    {
        r.push(v[i].clone());
    }
    proof {
        assert(v@.subrange(0, n as int) =~= v@);
    }
    r
}

/// Turns one feed item into an entry; an item without a title, or without
/// a link, is the whole feed's failure.
fn entry_of_item(item: &RawItem) -> (r: Result<Entry, FeedError>)
    ensures
        match r {
            Ok(e) => {
                &&& item.title is Some
                &&& item.link is Some
                &&& e@ == (EntryView {
                    title: item.title->0@,
                    url: item.link->0@,
                    description: item.description.deep_view(),
                    tags: item.subjects.deep_view(),
                })
            },
            Err(e) => match e {
                FeedError::ItemWithoutTitle => item.title is None,
                FeedError::ItemWithoutLink => item.title is Some && item.link is None,
                FeedError::Malformed => false,
            },
        },
{
    let title = match &item.title {
        Some(t) => t.clone(),
        None => {
            return Err(FeedError::ItemWithoutTitle);
        },
    };
    let url = match &item.link {
        Some(l) => l.clone(),
        None => {
            return Err(FeedError::ItemWithoutLink);
        },
    };
    let description = match &item.description {
        Some(d) => Some(d.clone()),
        None => None,
    };
    let tags = clone_strings(&item.subjects);
    Ok(Entry { title, url, description, tags })
}

/// Turns the feed's items into entries, in order; the first item missing
/// a title or a link fails the whole feed.
pub fn entries_from_items(items: &Vec<RawItem>) -> (r: Result<Vec<Entry>, FeedError>)
    ensures
        match r {
            Ok(es) => entries_of_items(items_view(items@)) == Ok::<Seq<EntryView>, FeedError>(
                entries_view(es@),
            ),
            Err(e) => entries_of_items(items_view(items@)) == Err::<Seq<EntryView>, FeedError>(e),
        },
{
    let ghost iv = items_view(items@);
    let mut built: Vec<Entry> = Vec::new();
    let n = items.len();
    proof {
        assert(iv.skip(0) =~= iv);
        assert(entries_view(built@) =~= Seq::<EntryView>::empty());
        if entries_of_items(iv) is Ok {
            assert(entries_view(built@) + entries_of_items(iv)->Ok_0 =~= entries_of_items(
                iv,
            )->Ok_0);
        }
    }
    for i in 0..n
        invariant
            n == items@.len(),
            iv == items_view(items@),
            entries_of_items(iv) == (match entries_of_items(iv.skip(i as int)) {
                Ok(rest) => Ok::<Seq<EntryView>, FeedError>(entries_view(built@) + rest),
                Err(e) => Err::<Seq<EntryView>, FeedError>(e),
            }),
    {
        let ghost tail = iv.skip(i as int);
        proof {
            assert(tail.first() == items@[i as int].item_view());
            assert(tail.drop_first() =~= iv.skip(i as int + 1));
        }
        match entry_of_item(&items[i]) {
            Ok(entry) => {
                let ghost ev = entry@;
                let ghost prev = built@;
                built.push(entry);
                proof {
                    assert(entries_view(built@) =~= entries_view(prev) + seq![ev]);
                    if entries_of_items(iv.skip(i as int + 1)) is Ok {
                        let rest = entries_of_items(iv.skip(i as int + 1))->Ok_0;
                        assert(entries_of_items(tail) == Ok::<Seq<EntryView>, FeedError>(
                            seq![ev] + rest,
                        ));
                        assert((entries_view(prev) + seq![ev]) + rest =~= entries_view(prev) + (
                        seq![ev] + rest));
                    } else {
                        let e = entries_of_items(iv.skip(i as int + 1))->Err_0;
                        assert(entries_of_items(tail) == Err::<Seq<EntryView>, FeedError>(e));
                    }
                }
            },
            Err(e) => {
                proof {
                    assert(entries_of_items(tail) == Err::<Seq<EntryView>, FeedError>(e));
                }
                return Err(e);
            },
        }
    }
    proof {
        assert(iv.skip(n as int) =~= Seq::<
            (Option<Seq<char>>, Option<Seq<char>>, Option<Seq<char>>, Seq<Seq<char>>),
        >::empty());
        assert(entries_view(built@) + Seq::<EntryView>::empty() =~= entries_view(built@));
    }
    Ok(built)
}

/// Parses the feed document and yields its entries: a document that is no
/// feed, or an item without a title or link, fails the whole feed — and
/// with it the run.
pub fn parse_feed(bytes: &[u8]) -> (r: Result<Vec<Entry>, FeedError>)
    ensures
        match spec_feed_items(bytes@) {
            Some(items) => match entries_of_items(items) {
                Ok(views) => r is Ok && entries_view(r->Ok_0@) == views,
                Err(e) => r == Err::<Vec<Entry>, FeedError>(e),
            },
            None => r == Err::<Vec<Entry>, FeedError>(FeedError::Malformed),
        },
{
    match read_channel_items(bytes) {
        Some(items) => entries_from_items(&items),
        None => Err(FeedError::Malformed),
    }
}

} // verus!
