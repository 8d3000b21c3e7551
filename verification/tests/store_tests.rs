//! The score-ordered store: ordering, deduplication, trimming, and
//! score-window reads.

use feed_core::keyspace::KeySpace;
use feed_core::store::{Scored, ZSet};
use feed_core::types::{PlainPostItem, PostItem};

fn post(id: u64) -> PostItem {
    PostItem {
        canister_id: "canister".to_string(),
        post_id: id,
        video_id: format!("video{id}"),
        nsfw_probability: 0,
    }
}

fn plain(id: u64) -> PlainPostItem {
    PlainPostItem {
        canister_id: "canister".to_string(),
        post_id: id,
    }
}

#[test]
fn zadd_orders_by_score() {
    let mut z: ZSet<PostItem> = ZSet::new();
    z.zadd(30, post(3));
    z.zadd(10, post(1));
    z.zadd(20, post(2));
    z.zadd(40, post(4));
    assert_eq!(z.zcard(), 4);
    // descending rank read: highest score first
    let top = z.zrevrange(0, 3);
    let ids: Vec<u64> = top.iter().map(|p| p.post_id).collect();
    assert_eq!(ids, vec![4, 3, 2, 1]);
}

#[test]
fn zrevrange_is_non_increasing_in_score() {
    let mut z: ZSet<PostItem> = ZSet::new();
    let scores = [17u64, 3, 99, 45, 45, 8, 62, 23];
    for (i, sc) in scores.iter().enumerate() {
        z.zadd(*sc, post(i as u64));
    }
    let all = z.zrevrange(0, 7);
    let mut read_scores = Vec::new();
    for p in &all {
        read_scores.push(z.zscore(p).unwrap());
    }
    for w in read_scores.windows(2) {
        assert!(w[0] >= w[1]);
    }
}

#[test]
fn reinsert_same_member_overwrites() {
    let mut z: ZSet<PlainPostItem> = ZSet::new();
    z.zadd(5, plain(7));
    assert_eq!(z.zcard(), 1);
    assert_eq!(z.zscore(&plain(7)), Some(5));
    // same member, new score: the count must not grow
    z.zadd(9, plain(7));
    assert_eq!(z.zcard(), 1);
    assert_eq!(z.zscore(&plain(7)), Some(9));
    // exact re-insert of the same member and score is idempotent too
    z.zadd(9, plain(7));
    assert_eq!(z.zcard(), 1);
    assert_eq!(z.zscore(&plain(7)), Some(9));
}

#[test]
fn distinct_members_do_not_merge() {
    let mut z: ZSet<PlainPostItem> = ZSet::new();
    z.zadd(5, plain(1));
    z.zadd(5, plain(2));
    assert_eq!(z.zcard(), 2);
    assert_eq!(z.zscore(&plain(3)), None);
}

#[test]
fn remove_lowest_evicts_bottom_ranks() {
    let mut z: ZSet<PostItem> = ZSet::new();
    for i in 1..=7u64 {
        z.zadd(i, post(i));
    }
    z.remove_lowest(2);
    assert_eq!(z.zcard(), 5);
    assert_eq!(z.zscore(&post(1)), None);
    assert_eq!(z.zscore(&post(2)), None);
    assert_eq!(z.zscore(&post(3)), Some(3));
}

#[test]
fn capacity_trim_keeps_top_scores() {
    // capacity 5, 7 items with strictly increasing scores 1..=7 in one batch
    let mut ks: KeySpace<PostItem> = KeySpace::new();
    let key = "ns".to_string();
    let batch: Vec<Scored<PostItem>> = (1..=7u64)
        .map(|i| Scored {
            score: i,
            member: post(i),
        })
        .collect();
    ks.insert_trim(&key, batch, 5);
    assert_eq!(ks.count(&key), 5);
    let top = ks.read_rev_range(&key, 0, 4);
    let ids: Vec<u64> = top.iter().map(|p| p.post_id).collect();
    assert_eq!(ids, vec![7, 6, 5, 4, 3]);
}

#[test]
fn trim_never_runs_below_capacity() {
    let mut ks: KeySpace<PostItem> = KeySpace::new();
    let key = "ns".to_string();
    // fill to exactly the ceiling, one at a time
    for i in 1..=5u64 {
        ks.insert_trim(
            &key,
            vec![Scored {
                score: i,
                member: post(i),
            }],
            5,
        );
        assert_eq!(ks.count(&key), i as usize);
    }
    // further ingests stabilize at the ceiling, never below it
    for i in 6..=9u64 {
        ks.insert_trim(
            &key,
            vec![Scored {
                score: i,
                member: post(i),
            }],
            5,
        );
        assert_eq!(ks.count(&key), 5);
    }
}

#[test]
fn keyspace_isolates_namespaces() {
    let mut ks: KeySpace<PostItem> = KeySpace::new();
    let a = "alpha".to_string();
    let b = "beta".to_string();
    ks.insert_trim(
        &a,
        vec![Scored {
            score: 1,
            member: post(1),
        }],
        10,
    );
    ks.insert_trim(
        &b,
        vec![
            Scored {
                score: 1,
                member: post(2),
            },
            Scored {
                score: 2,
                member: post(3),
            },
        ],
        10,
    );
    assert_eq!(ks.count(&a), 1);
    assert_eq!(ks.count(&b), 2);
    assert!(ks.contains_member(&a, &post(1)));
    assert!(!ks.contains_member(&a, &post(2)));
    assert_eq!(ks.count(&"missing".to_string()), 0);
}

#[test]
fn score_window_read_and_delete() {
    let mut z: ZSet<PostItem> = ZSet::new();
    for i in 0..10u64 {
        z.zadd(i * 10, post(i));
    }
    let within = z.zrangebyscore(20, 50);
    let ids: Vec<u64> = within.iter().map(|p| p.post_id).collect();
    assert_eq!(ids, vec![2, 3, 4, 5]);
    let removed = z.zrembyscore(20, 50);
    assert_eq!(removed, 4);
    assert_eq!(z.zcard(), 6);
    assert_eq!(z.zscore(&post(3)), None);
    assert_eq!(z.zscore(&post(6)), Some(60));
}

#[test]
fn batched_chunks_equal_one_batch() {
    let make = || -> Vec<Scored<PostItem>> {
        (0..40u64)
            .map(|i| Scored {
                score: 1000 - i,
                member: post(i % 17),
            })
            .collect()
    };
    let mut whole: ZSet<PostItem> = ZSet::new();
    let mut split: ZSet<PostItem> = ZSet::new();
    whole.insert_batch(make());
    let (a, b) = {
        let mut first = make();
        let second = first.split_off(13);
        (first, second)
    };
    split.insert_batch(a);
    split.insert_batch(b);
    assert_eq!(whole.zcard(), split.zcard());
    let w = whole.zrevrange(0, 100);
    let s = split.zrevrange(0, 100);
    let wi: Vec<u64> = w.iter().map(|p| p.post_id).collect();
    let si: Vec<u64> = s.iter().map(|p| p.post_id).collect();
    assert_eq!(wi, si);
}
