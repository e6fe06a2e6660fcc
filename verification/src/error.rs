//! The failures of a benchmark run: the endpoint cannot be found, or the
//! store refuses an operation.

use vstd::prelude::*;

verus! {

/// Why no endpoint was found for a shard.
pub enum DiscoveryError {
    /// The service lookup for `query` could not be completed.
    LookupFailed { query: String, detail: String },
    /// The service lookup for `query` returned no record.
    NoCandidates { query: String },
    /// The host that the chosen record names has no address.
    UnresolvableHost { host: String },
}

/// The operations that the benchmark asks of the store.
#[derive(Clone, Copy, PartialEq, Eq, Structural, Debug)]
pub enum StoreOperation {
    Connect,
    GetBucket,
    CreateBucket,
    PutObject,
    Batch,
}

/// A failure that the store client reported.
pub struct StoreError {
    pub operation: StoreOperation,
    pub detail: String,
}

/// Why a run ended early.
pub enum HarnessError {
    Discovery(DiscoveryError),
    Store(StoreError),
}

impl DiscoveryError {
    /// The text of [`DiscoveryError::message`].
    pub open spec fn message_text(&self) -> Seq<char> {
        match self {
            DiscoveryError::LookupFailed { query, detail } => "service lookup failed for "@ + query@
                + ": "@ + detail@,
            DiscoveryError::NoCandidates { query } => "no service record found for "@ + query@,
            DiscoveryError::UnresolvableHost { host } => "no address found for host "@ + host@,
        }
    }

    /// A sentence that names the failure and what it was about.
    pub fn message(&self) -> (text: String)
        ensures
            text@ == self.message_text(),
    {
        match self {
            DiscoveryError::LookupFailed { query, detail } => {
                let mut text = "service lookup failed for ".to_owned();
                text.append(query.as_str());
                text.append(": ");
                text.append(detail.as_str());
                text
            },
            DiscoveryError::NoCandidates { query } => {
                let mut text = "no service record found for ".to_owned();
                text.append(query.as_str());
                text
            },
            DiscoveryError::UnresolvableHost { host } => {
                let mut text = "no address found for host ".to_owned();
                text.append(host.as_str());
                text
            },
        }
    }
}

impl StoreOperation {
    /// The text of [`StoreOperation::name`].
    pub open spec fn name_text(&self) -> Seq<char> {
        match self {
            StoreOperation::Connect => "connect"@,
            StoreOperation::GetBucket => "get bucket"@,
            StoreOperation::CreateBucket => "create bucket"@,
            StoreOperation::PutObject => "put object"@,
            StoreOperation::Batch => "batch"@,
        }
    }

    /// The name of the operation.
    pub fn name(&self) -> (text: &'static str)
        ensures
            text@ == self.name_text(),
    {
        match self {
            StoreOperation::Connect => "connect",
            StoreOperation::GetBucket => "get bucket",
            StoreOperation::CreateBucket => "create bucket",
            StoreOperation::PutObject => "put object",
            StoreOperation::Batch => "batch",
        }
    }
}

impl StoreError {
    /// The text of [`StoreError::message`].
    pub open spec fn message_text(&self) -> Seq<char> {
        self.operation.name_text() + " failed: "@ + self.detail@
    }

    /// A sentence that names the operation and what the store reported.
    pub fn message(&self) -> (text: String)
        ensures
            text@ == self.message_text(),
    {
        let mut text = self.operation.name().to_owned();
        text.append(" failed: ");
        text.append(self.detail.as_str());
        text
    }
}

impl HarnessError {
    /// The text of [`HarnessError::message`].
    pub open spec fn message_text(&self) -> Seq<char> {
        match self {
            HarnessError::Discovery(error) => error.message_text(),
            HarnessError::Store(error) => error.message_text(),
        }
    }

    /// The message of the failure that ended the run.
    pub fn message(&self) -> (text: String)
        ensures
            text@ == self.message_text(),
    {
        match self {
            HarnessError::Discovery(error) => error.message(),
            HarnessError::Store(error) => error.message(),
        }
    }
}

} // verus!
