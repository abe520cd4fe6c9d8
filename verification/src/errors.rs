//! The run's error taxonomy: which failures are fatal to a run and which
//! are confined to a single entry.

use vstd::prelude::*;

verus! {

/// A required setting is absent; fatal, the run never starts.
#[derive(Debug, PartialEq, Eq, Structural)]
pub enum ConfigError {
    MissingFeedAccount,
    MissingPublishIdentifier,
    MissingPublishSecret,
}

/// The bookmark feed could not be understood; fatal, the run aborts with
/// zero entries published.
#[derive(Debug, PartialEq, Eq, Structural)]
pub enum FeedError {
    Malformed,
    ItemWithoutTitle,
    ItemWithoutLink,
}

/// Page metadata for one entry could not be obtained; the entry is skipped
/// and the run continues.
#[derive(Debug, PartialEq, Eq, Structural)]
pub enum MetadataError {
    FetchFailed,
    ParseFailed,
    BadImageUrl,
}

/// The upload or record creation for one entry was rejected; the entry is
/// skipped, its ledger record is not written, and the run continues.
#[derive(Debug, PartialEq, Eq, Structural)]
pub enum PublishError {
    UploadFailed,
    RecordRejected,
}

/// The login exchange failed; fatal, the run aborts before any entry is
/// processed.
#[derive(Debug, PartialEq, Eq, Structural)]
pub enum AuthError {
    LoginRejected,
}

} // verus!
