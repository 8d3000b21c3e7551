//! The bounded cache manager: history, plain-item, feed-cache and buffer
//! namespaces behind the ingest entry points.

use feed_core::consts::{
    MAX_HISTORY_PLAIN_POST_ITEM_CACHE_LEN, MAX_SUCCESS_HISTORY_CACHE_LEN,
    MAX_WATCH_HISTORY_CACHE_LEN,
};
use feed_core::ml_feed_cache::MLFeedCacheState;
use feed_core::types::{
    get_history_item_score, BufferItem, MLFeedCacheHistoryItem, PlainPostItem, PostItem,
};

const BASE_SECS: u64 = 1_700_000_000;

fn history_item(i: u64, item_type: &str, timestamp: u64) -> MLFeedCacheHistoryItem {
    MLFeedCacheHistoryItem {
        canister_id: "test_canister_id".to_string(),
        post_id: i,
        video_id: format!("test_video_id{i}"),
        nsfw_probability: 0,
        item_type: item_type.to_string(),
        timestamp,
        percent_watched: 0,
    }
}

#[test]
fn test_add_user_watch_history_items() {
    let mut state = MLFeedCacheState::new();

    let num_items = state.get_history_items_len("test_key").unwrap();
    assert_eq!(num_items, 0);

    let mut items = Vec::new();
    for i in 0..MAX_WATCH_HISTORY_CACHE_LEN + 10 {
        items.push(history_item(i, "video_viewed", BASE_SECS + i));
    }

    let res = state.add_user_watch_history_items("test_key", items.clone());
    assert!(res.is_ok());

    // add plain post items
    let res = state.add_user_history_plain_items("test_key_plain", items.clone());
    assert!(res.is_ok());

    let num_items = state.get_history_items_len("test_key").unwrap();
    assert_eq!(num_items, MAX_WATCH_HISTORY_CACHE_LEN);

    // the plain-item namespace trims to its own ceiling
    let num_items_plain = state.get_history_plain_items_len("test_key_plain").unwrap();
    assert_eq!(num_items_plain, MAX_HISTORY_PLAIN_POST_ITEM_CACHE_LEN);

    let items_read = state.get_history_items("test_key", 0, 4).unwrap();
    assert_eq!(items_read.len(), 5);
    // highest score (most recent) first
    assert_eq!(
        items_read[0].video_id,
        format!("test_video_id{}", MAX_WATCH_HISTORY_CACHE_LEN + 9)
    );

    // check if the plain item exists
    let res = state.is_user_history_plain_item_exists(
        "test_key_plain",
        PlainPostItem {
            canister_id: "test_canister_id".to_string(),
            post_id: MAX_WATCH_HISTORY_CACHE_LEN + 10 - 1,
        },
    );
    assert!(res.is_ok());
    assert!(res.unwrap());

    // check if the plain item does not exist
    let res = state.is_user_history_plain_item_exists(
        "test_key_plain",
        PlainPostItem {
            canister_id: "test_canister_id".to_string(),
            post_id: MAX_WATCH_HISTORY_CACHE_LEN + 10 + 1,
        },
    );
    assert!(res.is_ok());
    assert!(!res.unwrap());
}

#[test]
fn test_add_user_success_history_items() {
    let mut state = MLFeedCacheState::new();

    let num_items = state.get_history_items_len("test_key").unwrap();
    assert_eq!(num_items, 0);

    let mut items = Vec::new();
    for i in 0..MAX_SUCCESS_HISTORY_CACHE_LEN + 100 {
        items.push(history_item(i, "like_video", BASE_SECS + i * 100));
    }

    let res = state.add_user_success_history_items("test_key", items);
    assert!(res.is_ok());

    let num_items = state.get_history_items_len("test_key").unwrap();
    assert_eq!(num_items, MAX_SUCCESS_HISTORY_CACHE_LEN);

    let items_read = state.get_history_items("test_key", 0, 4).unwrap();
    assert_eq!(items_read.len(), 5);
}

#[test]
fn test_add_user_buffer_items() {
    let mut state = MLFeedCacheState::new();

    let mut items = Vec::new();
    for i in 0..100u64 {
        items.push(BufferItem {
            publisher_canister_id: "test_publisher_canister_id".to_string(),
            user_canister_id: "test_user_canister_id".to_string(),
            post_id: i,
            video_id: format!("test_video_id{i}"),
            item_type: "video_viewed".to_string(),
            timestamp: BASE_SECS + i * 100,
            percent_watched: 50,
        });
    }

    let res = state.add_user_buffer_items_impl("test_key", items.clone());
    assert!(res.is_ok());

    let all = state
        .get_user_buffer_items_by_timestamp_impl("test_key", u64::MAX)
        .unwrap();
    assert_eq!(all.len(), 100);

    // items 0..=4 fall within the window ending at item 4's timestamp
    let timestamp_secs = items[4].timestamp;
    let within = state
        .get_user_buffer_items_by_timestamp_impl("test_key", timestamp_secs)
        .unwrap();
    assert_eq!(within.len(), 5);

    // remove the items
    let res = state.remove_user_buffer_items_by_timestamp_impl("test_key", timestamp_secs);
    assert!(res.is_ok());
    assert_eq!(res.unwrap(), 5);

    let left = state
        .get_user_buffer_items_by_timestamp_impl("test_key", u64::MAX)
        .unwrap();
    assert_eq!(left.len(), 95);
}

#[test]
fn history_score_formula() {
    let plain_view = history_item(0, "video_viewed", BASE_SECS);
    // no bonus tier, percent 0
    assert_eq!(get_history_item_score(&plain_view), BASE_SECS);

    let mut liked = history_item(0, "like_video", BASE_SECS);
    liked.percent_watched = 37;
    // recency + 100 bonus + percent watched
    assert_eq!(get_history_item_score(&liked), BASE_SECS + 100 + 37);

    let mut near_max = history_item(0, "like_video", u64::MAX - 50);
    near_max.percent_watched = 80;
    // the score saturates instead of wrapping
    assert_eq!(get_history_item_score(&near_max), u64::MAX);
}

#[test]
fn shared_buffer_namespace_roundtrip() {
    let mut state = MLFeedCacheState::new();
    let item = BufferItem {
        publisher_canister_id: "pub".to_string(),
        user_canister_id: "user".to_string(),
        post_id: 1,
        video_id: "v".to_string(),
        item_type: "video_viewed".to_string(),
        timestamp: 500,
        percent_watched: 10,
    };
    state.add_user_buffer_items(vec![item]).unwrap();
    let got = state.get_user_buffer_items_by_timestamp(500).unwrap();
    assert_eq!(got.len(), 1);
    assert_eq!(got[0].post_id, 1);
    // a drain below the event time removes nothing
    assert_eq!(state.remove_user_buffer_items_by_timestamp(499).unwrap(), 0);
    assert_eq!(state.remove_user_buffer_items_by_timestamp(500).unwrap(), 1);
    assert!(state.get_user_buffer_items_by_timestamp(u64::MAX).unwrap().is_empty());
}

#[test]
fn cache_items_score_by_ingest_time() {
    let mut state = MLFeedCacheState::new();
    let posts: Vec<PostItem> = (0..3u64)
        .map(|i| PostItem {
            canister_id: "c".to_string(),
            post_id: i,
            video_id: format!("v{i}"),
            nsfw_probability: 0,
        })
        .collect();
    state
        .add_user_cache_items("user_cache_clean", posts.clone(), 100)
        .unwrap();
    assert_eq!(state.get_cache_items_len("user_cache_clean").unwrap(), 3);

    // a later ingest of an item already present refreshes it, not duplicates
    state
        .add_user_cache_items("user_cache_clean", vec![posts[0].clone()], 200)
        .unwrap();
    assert_eq!(state.get_cache_items_len("user_cache_clean").unwrap(), 3);
    let top = state.get_cache_items("user_cache_clean", 0, 0).unwrap();
    assert_eq!(top.len(), 1);
    assert_eq!(top[0].post_id, 0);

    // the global caches are independent namespaces of the same kind
    state
        .add_global_cache_items("global_cache_clean", posts, 100)
        .unwrap();
    assert_eq!(state.get_cache_items_len("global_cache_clean").unwrap(), 3);
    assert_eq!(state.get_cache_items_len("user_cache_clean").unwrap(), 3);
}
