//! The item types held by the recency caches, and the ranking score of a
//! history item.
//!
//! The store deduplicates by the item's full contents (the way a sorted-set
//! member is its serialized payload), so each type's `StoreMember` key is
//! the tuple of all its fields. Quantities that arrive as floating point
//! are held in fixed integer units: probabilities in
//! basis points, watched fractions in whole percent, timestamps in seconds
//! since the epoch.

use vstd::prelude::*;

use crate::cursored_data::KeyedData;
use crate::store::{DupValue, Scored, StoreMember};

verus! {

/// One watch or engagement event in a user's history.
#[derive(Clone, Debug)]
pub struct MLFeedCacheHistoryItem {
    pub canister_id: String,
    pub post_id: u64,
    pub video_id: String,
    /// Probability that the item is not safe for work, in basis points.
    pub nsfw_probability: u32,
    pub item_type: String,
    /// Seconds since the epoch.
    pub timestamp: u64,
    /// Percent of the video watched, 0 to 100.
    pub percent_watched: u32,
}

impl StoreMember for MLFeedCacheHistoryItem {
    type Key = (Seq<char>, u64, Seq<char>, u32, Seq<char>, u64, u32);

    open spec fn skey(&self) -> Self::Key {
        (
            self.canister_id@,
            self.post_id,
            self.video_id@,
            self.nsfw_probability,
            self.item_type@,
            self.timestamp,
            self.percent_watched,
        )
    }

    fn key_eq(&self, other: &Self) -> (r: bool) {
        self.post_id == other.post_id && self.timestamp == other.timestamp
            && self.nsfw_probability == other.nsfw_probability && self.percent_watched
            == other.percent_watched && self.canister_id == other.canister_id && self.video_id
            == other.video_id && self.item_type == other.item_type
    }
}

impl DupValue for MLFeedCacheHistoryItem {
    fn dup(&self) -> (r: Self) {
        MLFeedCacheHistoryItem {
            canister_id: self.canister_id.clone(),
            post_id: self.post_id,
            video_id: self.video_id.clone(),
            nsfw_probability: self.nsfw_probability,
            item_type: self.item_type.clone(),
            timestamp: self.timestamp,
            percent_watched: self.percent_watched,
        }
    }
}

/// The part of a history item used for membership ("already seen") checks.
#[derive(Clone, Debug)]
pub struct PlainPostItem {
    pub canister_id: String,
    pub post_id: u64,
}

impl StoreMember for PlainPostItem {
    type Key = (Seq<char>, u64);

    open spec fn skey(&self) -> Self::Key {
        (self.canister_id@, self.post_id)
    }

    fn key_eq(&self, other: &Self) -> (r: bool) {
        self.post_id == other.post_id && self.canister_id == other.canister_id
    }
}

impl DupValue for PlainPostItem {
    fn dup(&self) -> (r: Self) {
        PlainPostItem { canister_id: self.canister_id.clone(), post_id: self.post_id }
    }
}

impl KeyedData for PlainPostItem {
    type Key = (String, u64);

    open spec fn spec_key(&self) -> (String, u64) {
        (self.canister_id, self.post_id)
    }

    fn key(&self) -> (r: (String, u64)) {
        (self.canister_id.clone(), self.post_id)
    }
}

/// One feed entry of the global or per-user post caches.
#[derive(Clone, Debug)]
pub struct PostItem {
    pub canister_id: String,
    pub post_id: u64,
    pub video_id: String,
    /// Probability that the item is not safe for work, in basis points.
    pub nsfw_probability: u32,
}

impl StoreMember for PostItem {
    type Key = (Seq<char>, u64, Seq<char>, u32);

    open spec fn skey(&self) -> Self::Key {
        (self.canister_id@, self.post_id, self.video_id@, self.nsfw_probability)
    }

    fn key_eq(&self, other: &Self) -> (r: bool) {
        self.post_id == other.post_id && self.nsfw_probability == other.nsfw_probability
            && self.canister_id == other.canister_id && self.video_id == other.video_id
    }
}

impl DupValue for PostItem {
    fn dup(&self) -> (r: Self) {
        PostItem {
            canister_id: self.canister_id.clone(),
            post_id: self.post_id,
            video_id: self.video_id.clone(),
            nsfw_probability: self.nsfw_probability,
        }
    }
}

impl KeyedData for PostItem {
    type Key = (String, u64);

    open spec fn spec_key(&self) -> (String, u64) {
        (self.canister_id, self.post_id)
    }

    fn key(&self) -> (r: (String, u64)) {
        (self.canister_id.clone(), self.post_id)
    }
}

/// One event held in the pending-write buffer until it is drained by
/// timestamp window.
#[derive(Clone, Debug)]
pub struct BufferItem {
    pub publisher_canister_id: String,
    pub user_canister_id: String,
    pub post_id: u64,
    pub video_id: String,
    pub item_type: String,
    /// Seconds since the epoch.
    pub timestamp: u64,
    /// Percent of the video watched, 0 to 100.
    pub percent_watched: u32,
}

impl StoreMember for BufferItem {
    type Key = (Seq<char>, Seq<char>, u64, Seq<char>, Seq<char>, u64, u32);

    open spec fn skey(&self) -> Self::Key {
        (
            self.publisher_canister_id@,
            self.user_canister_id@,
            self.post_id,
            self.video_id@,
            self.item_type@,
            self.timestamp,
            self.percent_watched,
        )
    }

    fn key_eq(&self, other: &Self) -> (r: bool) {
        self.post_id == other.post_id && self.timestamp == other.timestamp
            && self.percent_watched == other.percent_watched && self.publisher_canister_id
            == other.publisher_canister_id && self.user_canister_id == other.user_canister_id
            && self.video_id == other.video_id && self.item_type == other.item_type
    }
}

impl DupValue for BufferItem {
    fn dup(&self) -> (r: Self) {
        BufferItem {
            publisher_canister_id: self.publisher_canister_id.clone(),
            user_canister_id: self.user_canister_id.clone(),
            post_id: self.post_id,
            video_id: self.video_id.clone(),
            item_type: self.item_type.clone(),
            timestamp: self.timestamp,
            percent_watched: self.percent_watched,
        }
    }
}

/// A request for a page of feed entries, with already-seen results to skip.
#[derive(Clone, Debug)]
pub struct FeedRequest {
    pub canister_id: String,
    pub filter_results: Vec<PostItem>,
    pub num_results: u32,
}

/// The feed entries answering a [`FeedRequest`].
#[derive(Clone, Debug)]
pub struct FeedResponse {
    pub posts: Vec<PostItem>,
}

/// The mathematical ranking score of a history item: recency dominates,
/// liked items get a bonus tier, and the watched fraction breaks ties.
pub open spec fn spec_history_item_score(item: MLFeedCacheHistoryItem) -> int {
    item.timestamp + (if item.item_type@ == "like_video"@ {
        100int
    } else {
        0int
    }) + item.percent_watched
}

/// The stored score: the mathematical score, saturated at the largest
/// representable value.
pub open spec fn history_item_score(item: MLFeedCacheHistoryItem) -> u64 {
    if spec_history_item_score(item) > u64::MAX {
        u64::MAX
    } else {
        spec_history_item_score(item) as u64
    }
}

/// Computes a history item's ranking score: its timestamp in seconds, plus
/// 100 for a liked item, plus the percent watched.
pub fn get_history_item_score(item: &MLFeedCacheHistoryItem) -> (r: u64)
    ensures
        r == history_item_score(*item),
{
    let like = String::from_str("like_video");
    let type_score: u64 = if item.item_type == like {
        100
    } else {
        0
    };
    let watched: u64 = item.percent_watched as u64;
    let base: u64 = if item.timestamp > u64::MAX - type_score {
        u64::MAX
    } else {
        item.timestamp + type_score
    };
    if base > u64::MAX - watched {
        u64::MAX
    } else {
        base + watched
    }
}

/// The scored batch a history ingest hands the store.
pub open spec fn scored_history(items: Seq<MLFeedCacheHistoryItem>) -> Seq<
    Scored<MLFeedCacheHistoryItem>,
> {
    items.map_values(
        |it: MLFeedCacheHistoryItem| Scored { score: history_item_score(it), member: it },
    )
}

/// The membership-check projection of a history item.
pub open spec fn plain_of(it: MLFeedCacheHistoryItem) -> PlainPostItem {
    PlainPostItem { canister_id: it.canister_id, post_id: it.post_id }
}

/// The scored batch a plain-item ingest hands the store: the event time is
/// the score, used for membership rather than ranking.
pub open spec fn scored_plain(items: Seq<MLFeedCacheHistoryItem>) -> Seq<Scored<PlainPostItem>> {
    items.map_values(
        |it: MLFeedCacheHistoryItem| Scored { score: it.timestamp, member: plain_of(it) },
    )
}

/// The scored batch a feed-cache ingest hands the store: every item of the
/// call scores the ingest wall-clock time (pure recency).
pub open spec fn scored_at(items: Seq<PostItem>, ts: u64) -> Seq<Scored<PostItem>> {
    items.map_values(|it: PostItem| Scored { score: ts, member: it })
}

/// The scored batch a buffer ingest hands the store: the event time is the
/// score, serving as the secondary index for time-windowed drains.
pub open spec fn scored_buffer(items: Seq<BufferItem>) -> Seq<Scored<BufferItem>> {
    items.map_values(|it: BufferItem| Scored { score: it.timestamp, member: it })
}

} // verus!
