//! The orchestrator's decisions: which entries a run works on, when the
//! ledger is written, and what the run reports.

use vstd::prelude::*;
use crate::errors::ConfigError;
use crate::errors::MetadataError;
use crate::errors::PublishError;
use crate::feed::Entry;

verus! {

/// The three required settings, read once at run start.
pub struct Config {
    pub feed_account: String,
    pub publish_identifier: String,
    pub publish_secret: String,
}

/// Checks the settings once at run start: every one must be present, and a
/// missing one is fatal before any network activity.
pub fn validate_config(
    feed_account: Option<String>,
    publish_identifier: Option<String>,
    publish_secret: Option<String>,
) -> (r: Result<Config, ConfigError>)
    ensures
        match r {
            Ok(c) => {
                &&& feed_account == Some(c.feed_account)
                &&& publish_identifier == Some(c.publish_identifier)
                &&& publish_secret == Some(c.publish_secret)
            },
            Err(e) => {
                &&& (e == ConfigError::MissingFeedAccount <==> feed_account is None)
                &&& (e == ConfigError::MissingPublishIdentifier <==> (feed_account is Some
                    && publish_identifier is None))
                &&& (e == ConfigError::MissingPublishSecret <==> (feed_account is Some
                    && publish_identifier is Some && publish_secret is None))
            },
        },
        r is Ok <==> (feed_account is Some && publish_identifier is Some && publish_secret is Some),
{
    match (feed_account, publish_identifier, publish_secret) {
        (Some(f), Some(i), Some(s)) => Ok(
            Config { feed_account: f, publish_identifier: i, publish_secret: s },
        ),
        (None, _, _) => Err(ConfigError::MissingFeedAccount),
        (Some(_), None, _) => Err(ConfigError::MissingPublishIdentifier),
        (Some(_), Some(_), None) => Err(ConfigError::MissingPublishSecret),
    }
}

/// The entries a run works on, oldest first: the feed hands them newest
/// first, so the plan walks them from the back, keeping each entry whose
/// URL has no ledger record (`present` is false at its index).
pub open spec fn plan_spec(entries: Seq<Entry>, present: Seq<bool>) -> Seq<Entry>
    decreases entries.len(),
{
    if entries.len() == 0 {
        Seq::empty()
    } else {
        plan_spec(entries.drop_first(), present.drop_first()) + (if !present.first() {
            seq![entries.first()]
        } else {
            Seq::empty()
        })
    }
}

/// Selects the entries to publish this run: the feed's entries reversed to
/// oldest-first, with every already-ledgered one filtered out.
pub fn plan_run(entries: Vec<Entry>, present: &Vec<bool>) -> (r: Vec<Entry>)
    requires
        entries@.len() == present@.len(),
    ensures
        r@ == plan_spec(entries@, present@),
{
    let ghost orig = entries@;
    let mut remaining = entries;
    let mut planned: Vec<Entry> = Vec::new();
    proof {
        assert(orig.skip(orig.len() as int) =~= Seq::<Entry>::empty());
        assert(present@.skip(orig.len() as int) =~= Seq::<bool>::empty());
    }
    while remaining.len() > 0
        invariant
            remaining@ =~= orig.subrange(0, remaining@.len() as int),
            remaining@.len() <= orig.len() == present@.len(),
            planned@ == plan_spec(
                orig.skip(remaining@.len() as int),
                present@.skip(remaining@.len() as int),
            ),
        decreases remaining@.len(),
    {
        let ghost n = remaining@.len() as int;
        match remaining.pop() {
            Some(entry) => {
                let j = remaining.len();
                if !present[j] {
                    planned.push(entry);
                }
                proof {
                    assert(orig.skip(n - 1).drop_first() =~= orig.skip(n));
                    assert(present@.skip(n - 1).drop_first() =~= present@.skip(n));
                    assert(orig.skip(n - 1).first() == orig[n - 1]);
                    assert(remaining@ =~= orig.subrange(0, n - 1));
                    if !present@[n - 1] {
                        assert(planned@ =~= plan_spec(orig.skip(n), present@.skip(n)) + seq![
                            orig[n - 1],
                        ]);
                    } else {
                        assert(planned@ =~= plan_spec(orig.skip(n), present@.skip(n))
                            + Seq::<Entry>::empty());
                    }
                }
            },
            None => {},
        }
    }
    proof {
        assert(orig.skip(0) =~= orig);
        assert(present@.skip(0) =~= present@);
    }
    planned
}

/// What one entry's publish attempt came to.
pub enum EntryOutcome {
    /// The record was created; the receipt is the created record's
    /// identifier, to be written to the ledger.
    Published { receipt: String },
    /// The page's metadata could not be fetched or understood.
    MetadataFailed { metadata_error: MetadataError },
    /// The upload or the record creation was rejected.
    PublishFailed { publish_error: PublishError },
}

/// The ledger write that an outcome calls for: the entry's URL keyed to the
/// publish receipt after a confirmed success, and nothing otherwise — the
/// ledger is written strictly after a successful publish, never before.
pub fn ledger_write(entry: &Entry, outcome: &EntryOutcome) -> (r: Option<(String, String)>)
    ensures
        match *outcome {
            EntryOutcome::Published { receipt } => r == Some((entry.url, receipt)),
            EntryOutcome::MetadataFailed { .. } => r is None,
            EntryOutcome::PublishFailed { .. } => r is None,
        },
{
    match outcome {
        EntryOutcome::Published { receipt } => Some((entry.url.clone(), receipt.clone())),
        EntryOutcome::MetadataFailed { .. } => None,
        EntryOutcome::PublishFailed { .. } => None,
    }
}

/// How many outcomes are publish successes.
pub open spec fn published_count(outcomes: Seq<EntryOutcome>) -> nat
    decreases outcomes.len(),
{
    if outcomes.len() == 0 {
        0
    } else {
        published_count(outcomes.drop_last()) + (if outcomes.last() is Published {
            1nat
        } else {
            0nat
        })
    }
}

/// The run's reported result: the count of successfully published entries.
pub fn count_published(outcomes: &Vec<EntryOutcome>) -> (r: usize)
    ensures
        r == published_count(outcomes@),
{
    let mut count: usize = 0;
    let n = outcomes.len();
    proof {
        assert(outcomes@.take(0) =~= Seq::<EntryOutcome>::empty());
    }
    for i in 0..n
        invariant
            n == outcomes@.len(),
            count == published_count(outcomes@.take(i as int)),
            count <= i,
    {
        proof {
            assert(outcomes@.take(i as int + 1).drop_last() =~= outcomes@.take(i as int));
            assert(outcomes@.take(i as int + 1).last() == outcomes@[i as int]);
        }
        match &outcomes[i] {
            EntryOutcome::Published { .. } => {
                count += 1;
            },
            _ => {},
        }
    }
    proof {
        assert(outcomes@.take(n as int) =~= outcomes@);
    }
    count
}

/// When every index is already ledgered, the plan is empty.
proof fn lemma_plan_all_present(entries: Seq<Entry>, present: Seq<bool>)
    requires
        entries.len() == present.len(),
        forall|i: int| 0 <= i < present.len() ==> present[i],
    ensures
        plan_spec(entries, present) =~= Seq::<Entry>::empty(),
    decreases entries.len(),
{
    if entries.len() > 0 {
        assert(present.first() == present[0]);
        assert(forall|i: int|
            0 <= i < present.drop_first().len() ==> #[trigger] present.drop_first()[i] == present[i
                + 1]);
        lemma_plan_all_present(entries.drop_first(), present.drop_first());
    }
}

/// Idempotence of the pipeline: a run publishes each planned entry and
/// ledgers its URL, so when the second run's ledger holds a key for every
/// URL that was either ledgered before or planned by the first run, the
/// second run over the unchanged feed plans nothing — zero entries are
/// published again.
pub proof fn lemma_idempotent_run(entries: Seq<Entry>, present1: Seq<bool>, present2: Seq<bool>)
    requires
        entries.len() == present1.len(),
        entries.len() == present2.len(),
        forall|i: int|
            0 <= i < entries.len() ==> #[trigger] present2[i] == (present1[i] || exists|j: int|
                0 <= j < entries.len() && !present1[j] && (#[trigger] entries[j]).url
                    == entries[i].url),
    ensures
        plan_spec(entries, present2) =~= Seq::<Entry>::empty(),
{
    assert forall|i: int| 0 <= i < present2.len() implies present2[i] by {
        if !present1[i] {
            assert(!present1[i] && entries[i].url == entries[i].url);
        }
    }
    lemma_plan_all_present(entries, present2);
}

} // verus!
