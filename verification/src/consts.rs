//! Process-wide configuration constants: capacity ceilings and namespace
//! key templates for the bounded caches, and well-known canister ids.

use vstd::prelude::*;

verus! {

pub const MAX_WATCH_HISTORY_CACHE_LEN: u64 = 10000;

pub const MAX_SUCCESS_HISTORY_CACHE_LEN: u64 = 10000;

pub const MAX_GLOBAL_CACHE_LEN: u64 = 3000;

pub const MAX_USER_CACHE_LEN: u64 = 1000;

pub const MAX_HISTORY_PLAIN_POST_ITEM_CACHE_LEN: u64 = 10000;

pub const GLOBAL_CACHE_CLEAN_KEY: &'static str = "global_cache_clean";

pub const GLOBAL_CACHE_NSFW_KEY: &'static str = "global_cache_nsfw";

pub const GLOBAL_CACHE_MIXED_KEY: &'static str = "global_cache_mixed";

pub const USER_WATCH_HISTORY_CLEAN_SUFFIX: &'static str = "_watch_clean";

pub const USER_SUCCESS_HISTORY_CLEAN_SUFFIX: &'static str = "_success_clean";

pub const USER_WATCH_HISTORY_NSFW_SUFFIX: &'static str = "_watch_nsfw";

pub const USER_SUCCESS_HISTORY_NSFW_SUFFIX: &'static str = "_success_nsfw";

pub const USER_WATCH_HISTORY_PLAIN_POST_ITEM_SUFFIX: &'static str = "_watch_plain_post_item";

pub const USER_LIKE_HISTORY_PLAIN_POST_ITEM_SUFFIX: &'static str = "_like_plain_post_item";

pub const USER_HOTORNOT_BUFFER_KEY: &'static str = "user_hotornot_buffer";

pub const USER_CACHE_CLEAN_SUFFIX: &'static str = "_cache_clean";

pub const USER_CACHE_NSFW_SUFFIX: &'static str = "_cache_nsfw";

pub const USER_CACHE_MIXED_SUFFIX: &'static str = "_cache_mixed";

/// Batched inserts are applied to the store in chunks of this many
/// entries, bounding the payload of a single store operation.
pub const INSERT_CHUNK_SIZE: usize = 1000;

pub const CENTS_IN_E6S: u64 = 1000000;

pub const GOBGOB_TOTAL_COUNT: u32 = 18557;

pub const GOBGOB_PROPIC_URL: &'static str = "https://imagedelivery.net/abXI9nS4DYYtyR1yFFtziA/gob.";

pub const CKBTC_LEDGER: &'static str = "mxzaz-hqaaa-aaaar-qaada-cai";

pub const CKBTC_INDEX: &'static str = "n5wcd-faaaa-aaaar-qaaea-cai";

pub const CKUSDC_LEDGER: &'static str = "xevnm-gaaaa-aaaar-qafnq-cai";

pub const CKUSDC_INDEX: &'static str = "xrs4b-hiaaa-aaaar-qafoa-cai";

} // verus!
