//! Error taxonomy for the pagination and cache engine.
//!
//! All fetch and store failures propagate to the immediate caller as typed
//! results; the engine performs no retries of its own.

use vstd::prelude::*;

verus! {

/// Errors surfaced by paginators and the bounded cache.
#[derive(Clone, Debug)]
pub enum Error {
    /// The remote store could not be reached (connection or pool exhaustion).
    StoreUnavailable,
    /// The primary page fetch failed; hard error for `get_page`.
    SourceFetchFailed,
    /// A stored or outgoing payload was malformed.
    Deserialize,
    /// The backing canister reported an error message.
    YralCanister(String),
    /// The transaction listing call reported an error message.
    GetTransactions(String),
    /// A fetched transaction had none of the recognised operation kinds.
    ParseTransaction,
    /// The ledger tip certificate was absent or malformed.
    TipCertificate,
    /// A fetcher with a fixed page-size contract received a different size.
    InvalidPageSize,
}

impl Error {
    /// Stable text for each error kind.
    pub fn as_text(&self) -> (r: &'static str)
        ensures
            r@ == self.spec_text(),
    {
        match self {
            Error::StoreUnavailable => "store unavailable",
            Error::SourceFetchFailed => "source fetch failed",
            Error::Deserialize => "malformed payload",
            Error::YralCanister(_) => "error from yral canister",
            Error::GetTransactions(_) => "failed to get transactions",
            Error::ParseTransaction => "failed to parse transaction",
            Error::TipCertificate => "invalid tip certificate in ledger",
            Error::InvalidPageSize => "invalid page size",
        }
    }

    /// The text that `as_text` returns for each variant.
    pub open spec fn spec_text(&self) -> Seq<char> {
        match self {
            Error::StoreUnavailable => "store unavailable"@,
            Error::SourceFetchFailed => "source fetch failed"@,
            Error::Deserialize => "malformed payload"@,
            Error::YralCanister(_) => "error from yral canister"@,
            Error::GetTransactions(_) => "failed to get transactions"@,
            Error::ParseTransaction => "failed to parse transaction"@,
            Error::TipCertificate => "invalid tip certificate in ledger"@,
            Error::InvalidPageSize => "invalid page size"@,
        }
    }
}

} // verus!
