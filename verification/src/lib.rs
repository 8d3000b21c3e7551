//! Cursored pagination and bounded recency-cache engine.
//!
//! Two pieces form the core: a backend-agnostic cursor-pagination layer
//! (`cursored_data` and the concrete sources built on it) that pages through
//! keyed items and splices pinned entries into the first page, and a bounded,
//! score-ordered cache (`store` and `ml_feed_cache`) that accepts batched
//! inserts and evicts the lowest-ranked surplus once a namespace exceeds its
//! configured capacity.

use vstd::prelude::*;

pub mod consts;
pub mod balance;
pub mod cursored_data;
pub mod digits;
pub mod error;
pub mod grpc_traits;
pub mod hon_worker;
pub mod keyspace;
pub mod metrics;
pub mod ml_feed_cache;
pub mod profile;
pub mod pump_n_dump;
pub mod ref_history;
pub mod sns;
pub mod store;
pub mod token;
pub mod token_roots;
pub mod transaction;
pub mod types;
pub mod vote;

verus! {

} // verus!
