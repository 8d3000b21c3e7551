//! The namespace-level policy layer of the recency cache: maps each logical
//! cache kind to its capacity ceiling and score function, and drives the
//! keyspace accordingly.
//!
//! Watch and success history rank by event recency with a bonus tier for
//! liked items; the feed caches rank by ingest wall-clock time alone; the
//! plain-item history keeps event times purely for membership checks; the
//! pending-write buffer keeps event times as a secondary index for
//! time-windowed drains and is not capacity-bounded.
//!
//! The engine holds no clock: callers that score by ingest time pass the
//! current time in seconds.

use vstd::prelude::*;

use crate::consts::{
    MAX_GLOBAL_CACHE_LEN, MAX_HISTORY_PLAIN_POST_ITEM_CACHE_LEN, MAX_SUCCESS_HISTORY_CACHE_LEN,
    MAX_USER_CACHE_LEN, MAX_WATCH_HISTORY_CACHE_LEN, USER_HOTORNOT_BUFFER_KEY,
};
use crate::error::Error;
use crate::keyspace::{space_or_empty, KeySpace};
use crate::store::{
    drop_within, has_key, keep_within, lemma_capacity_invariant, members_of, rev_entry,
    trim_spec, zadd_batch_spec, Scored, StoreMember,
};
use crate::types::{
    get_history_item_score, history_item_score, plain_of, scored_at, scored_buffer,
    scored_history, scored_plain, BufferItem, MLFeedCacheHistoryItem, PlainPostItem, PostItem,
};

verus! {

fn build_scored_history(items: Vec<MLFeedCacheHistoryItem>) -> (r: Vec<
    Scored<MLFeedCacheHistoryItem>,
>)
    ensures
        r@ == scored_history(items@),
{
    let ghost orig = items@;
    let mut rest = items;
    let mut out: Vec<Scored<MLFeedCacheHistoryItem>> = Vec::new();
    while rest.len() > 0
        invariant
            out@.len() + rest@.len() == orig.len(),
            rest@ == orig.subrange(out@.len() as int, orig.len() as int),
            forall|j: int|
                0 <= j < out@.len() ==> out@[j] == (Scored {
                    score: history_item_score(orig[j]),
                    member: orig[j],
                }),
        decreases rest.len(),
    {
        let ghost k = out@.len() as int;
        let it = rest.remove(0);
        proof {
            assert(it == orig[k]);
            assert(rest@ =~= orig.subrange(k + 1, orig.len() as int));
        }
        let sc = get_history_item_score(&it);
        out.push(Scored { score: sc, member: it });
    }
    proof {
        assert(out@ =~= scored_history(orig));
    }
    out
}

fn build_scored_plain(items: Vec<MLFeedCacheHistoryItem>) -> (r: Vec<Scored<PlainPostItem>>)
    ensures
        r@ == scored_plain(items@),
{
    let ghost orig = items@;
    let mut rest = items;
    let mut out: Vec<Scored<PlainPostItem>> = Vec::new();
    while rest.len() > 0
        invariant
            out@.len() + rest@.len() == orig.len(),
            rest@ == orig.subrange(out@.len() as int, orig.len() as int),
            forall|j: int|
                0 <= j < out@.len() ==> out@[j] == (Scored {
                    score: orig[j].timestamp,
                    member: plain_of(orig[j]),
                }),
        decreases rest.len(),
    {
        let ghost k = out@.len() as int;
        let it = rest.remove(0);
        proof {
            assert(it == orig[k]);
            assert(rest@ =~= orig.subrange(k + 1, orig.len() as int));
        }
        let member = PlainPostItem { canister_id: it.canister_id.clone(), post_id: it.post_id };
        out.push(Scored { score: it.timestamp, member });
    }
    proof {
        assert(out@ =~= scored_plain(orig));
    }
    out
}

fn build_scored_at(items: Vec<PostItem>, ts: u64) -> (r: Vec<Scored<PostItem>>)
    ensures
        r@ == scored_at(items@, ts),
{
    let ghost orig = items@;
    let mut rest = items;
    let mut out: Vec<Scored<PostItem>> = Vec::new();
    while rest.len() > 0
        invariant
            out@.len() + rest@.len() == orig.len(),
            rest@ == orig.subrange(out@.len() as int, orig.len() as int),
            forall|j: int|
                0 <= j < out@.len() ==> out@[j] == (Scored { score: ts, member: orig[j] }),
        decreases rest.len(),
    {
        let ghost k = out@.len() as int;
        let it = rest.remove(0);
        proof {
            assert(it == orig[k]);
            assert(rest@ =~= orig.subrange(k + 1, orig.len() as int));
        }
        out.push(Scored { score: ts, member: it });
    }
    proof {
        assert(out@ =~= scored_at(orig, ts));
    }
    out
}

fn build_scored_buffer(items: Vec<BufferItem>) -> (r: Vec<Scored<BufferItem>>)
    ensures
        r@ == scored_buffer(items@),
{
    let ghost orig = items@;
    let mut rest = items;
    let mut out: Vec<Scored<BufferItem>> = Vec::new();
    while rest.len() > 0
        invariant
            out@.len() + rest@.len() == orig.len(),
            rest@ == orig.subrange(out@.len() as int, orig.len() as int),
            forall|j: int|
                0 <= j < out@.len() ==> out@[j] == (Scored {
                    score: orig[j].timestamp,
                    member: orig[j],
                }),
        decreases rest.len(),
    {
        let ghost k = out@.len() as int;
        let it = rest.remove(0);
        proof {
            assert(it == orig[k]);
            assert(rest@ =~= orig.subrange(k + 1, orig.len() as int));
        }
        let sc = it.timestamp;
        out.push(Scored { score: sc, member: it });
    }
    proof {
        assert(out@ =~= scored_buffer(orig));
    }
    out
}

/// The bounded cache manager: one keyspace per member kind, standing for
/// the external store's keyspace.
pub struct MLFeedCacheState {
    pub history: KeySpace<MLFeedCacheHistoryItem>,
    pub plain_history: KeySpace<PlainPostItem>,
    pub post_caches: KeySpace<PostItem>,
    pub buffer: KeySpace<BufferItem>,
}

impl MLFeedCacheState {
    /// Every keyspace is well-formed.
    pub open spec fn wf(&self) -> bool {
        self.history.wf() && self.plain_history.wf() && self.post_caches.wf() && self.buffer.wf()
    }

    /// A fresh, empty cache state.
    pub fn new() -> (r: Self)
        ensures
            r.wf(),
            r.history@ == Map::<Seq<char>, Seq<Scored<MLFeedCacheHistoryItem>>>::empty(),
            r.plain_history@ == Map::<Seq<char>, Seq<Scored<PlainPostItem>>>::empty(),
            r.post_caches@ == Map::<Seq<char>, Seq<Scored<PostItem>>>::empty(),
            r.buffer@ == Map::<Seq<char>, Seq<Scored<BufferItem>>>::empty(),
    {
        MLFeedCacheState {
            history: KeySpace::new(),
            plain_history: KeySpace::new(),
            post_caches: KeySpace::new(),
            buffer: KeySpace::new(),
        }
    }

    /// Ingests watch-history events under `key`: each item is ranked by its
    /// history score, then the namespace is trimmed to the watch-history
    /// ceiling by evicting the lowest-ranked surplus.
    pub fn add_user_watch_history_items(
        &mut self,
        key: &str,
        items: Vec<MLFeedCacheHistoryItem>,
    ) -> (r: Result<(), Error>)
        requires
            old(self).wf(),
        ensures
            final(self).wf(),
            r is Ok,
            final(self).history@ == old(self).history@.insert(
                key@,
                trim_spec(
                    zadd_batch_spec(
                        space_or_empty(old(self).history@, key@),
                        scored_history(items@),
                    ),
                    MAX_WATCH_HISTORY_CACHE_LEN as int,
                ),
            ),
            space_or_empty(final(self).history@, key@).len() <= MAX_WATCH_HISTORY_CACHE_LEN,
            final(self).plain_history@ == old(self).plain_history@,
            final(self).post_caches@ == old(self).post_caches@,
            final(self).buffer@ == old(self).buffer@,
    {
        proof {
            self.history.lemma_wf_spaces();
            lemma_capacity_invariant(
                space_or_empty(self.history@, key@),
                scored_history(items@),
                MAX_WATCH_HISTORY_CACHE_LEN as int,
            );
        }
        let key_s = String::from_str(key);
        let scored = build_scored_history(items);
        self.history.insert_trim(&key_s, scored, MAX_WATCH_HISTORY_CACHE_LEN);
        Ok(())
    }

    /// Ingests success-history events under `key`, ranked by history score
    /// and trimmed to the success-history ceiling.
    pub fn add_user_success_history_items(
        &mut self,
        key: &str,
        items: Vec<MLFeedCacheHistoryItem>,
    ) -> (r: Result<(), Error>)
        requires
            old(self).wf(),
        ensures
            final(self).wf(),
            r is Ok,
            final(self).history@ == old(self).history@.insert(
                key@,
                trim_spec(
                    zadd_batch_spec(
                        space_or_empty(old(self).history@, key@),
                        scored_history(items@),
                    ),
                    MAX_SUCCESS_HISTORY_CACHE_LEN as int,
                ),
            ),
            space_or_empty(final(self).history@, key@).len() <= MAX_SUCCESS_HISTORY_CACHE_LEN,
            final(self).plain_history@ == old(self).plain_history@,
            final(self).post_caches@ == old(self).post_caches@,
            final(self).buffer@ == old(self).buffer@,
    {
        proof {
            self.history.lemma_wf_spaces();
            lemma_capacity_invariant(
                space_or_empty(self.history@, key@),
                scored_history(items@),
                MAX_SUCCESS_HISTORY_CACHE_LEN as int,
            );
        }
        let key_s = String::from_str(key);
        let scored = build_scored_history(items);
        self.history.insert_trim(&key_s, scored, MAX_SUCCESS_HISTORY_CACHE_LEN);
        Ok(())
    }

    /// Reads history items under `key` at descending ranks `start..=end`
    /// (both inclusive, the store's range convention).
    pub fn get_history_items(&self, key: &str, start: u64, end: u64) -> (r: Result<
        Vec<MLFeedCacheHistoryItem>,
        Error,
    >)
        requires
            self.wf(),
            start <= usize::MAX,
            end <= usize::MAX,
        ensures
            r is Ok,
            r matches Ok(v) ==> ({
                let sp = space_or_empty(self.history@, key@);
                &&& ((start as int) >= sp.len() || end < start) ==> v@.len() == 0
                &&& ((start as int) < sp.len() && start <= end) ==> v@.len() == (
                if (end as int) < sp.len() {
                    end - start + 1
                } else {
                    sp.len() - start
                })
                &&& forall|i: int|
                    0 <= i < v@.len() ==> v@[i] == rev_entry(sp, start + i).member
            }),
    {
        let key_s = String::from_str(key);
        Ok(self.history.read_rev_range(&key_s, start as usize, end as usize))
    }

    /// The number of history items under `key`.
    pub fn get_history_items_len(&self, key: &str) -> (r: Result<u64, Error>)
        requires
            self.wf(),
        ensures
            r is Ok,
            r matches Ok(n) ==> n as int == space_or_empty(self.history@, key@).len(),
    {
        let key_s = String::from_str(key);
        Ok(self.history.count(&key_s) as u64)
    }

    /// Ingests the membership-check projections of history events under
    /// `key`, scored by event time and trimmed to the plain-item ceiling.
    pub fn add_user_history_plain_items(
        &mut self,
        key: &str,
        items: Vec<MLFeedCacheHistoryItem>,
    ) -> (r: Result<(), Error>)
        requires
            old(self).wf(),
        ensures
            final(self).wf(),
            r is Ok,
            final(self).plain_history@ == old(self).plain_history@.insert(
                key@,
                trim_spec(
                    zadd_batch_spec(
                        space_or_empty(old(self).plain_history@, key@),
                        scored_plain(items@),
                    ),
                    MAX_HISTORY_PLAIN_POST_ITEM_CACHE_LEN as int,
                ),
            ),
            space_or_empty(final(self).plain_history@, key@).len()
                <= MAX_HISTORY_PLAIN_POST_ITEM_CACHE_LEN,
            final(self).history@ == old(self).history@,
            final(self).post_caches@ == old(self).post_caches@,
            final(self).buffer@ == old(self).buffer@,
    {
        proof {
            self.plain_history.lemma_wf_spaces();
            lemma_capacity_invariant(
                space_or_empty(self.plain_history@, key@),
                scored_plain(items@),
                MAX_HISTORY_PLAIN_POST_ITEM_CACHE_LEN as int,
            );
        }
        let key_s = String::from_str(key);
        let scored = build_scored_plain(items);
        self.plain_history.insert_trim(&key_s, scored, MAX_HISTORY_PLAIN_POST_ITEM_CACHE_LEN);
        Ok(())
    }

    /// The number of membership-check entries under `key`.
    pub fn get_history_plain_items_len(&self, key: &str) -> (r: Result<u64, Error>)
        requires
            self.wf(),
        ensures
            r is Ok,
            r matches Ok(n) ==> n as int == space_or_empty(self.plain_history@, key@).len(),
    {
        let key_s = String::from_str(key);
        Ok(self.plain_history.count(&key_s) as u64)
    }

    /// Whether the membership-check history under `key` has seen `item`,
    /// regardless of its score.
    pub fn is_user_history_plain_item_exists(&self, key: &str, item: PlainPostItem) -> (r: Result<
        bool,
        Error,
    >)
        requires
            self.wf(),
        ensures
            r is Ok,
            r matches Ok(b) ==> b == has_key(
                space_or_empty(self.plain_history@, key@),
                item.skey(),
            ),
    {
        let key_s = String::from_str(key);
        Ok(self.plain_history.contains_member(&key_s, &item))
    }

    /// Ingests feed entries into the per-user cache under `key`: every item
    /// of the call scores `timestamp_secs` (pure recency), and the
    /// namespace is trimmed to the per-user ceiling.
    pub fn add_user_cache_items(
        &mut self,
        key: &str,
        items: Vec<PostItem>,
        timestamp_secs: u64,
    ) -> (r: Result<(), Error>)
        requires
            old(self).wf(),
        ensures
            final(self).wf(),
            r is Ok,
            final(self).post_caches@ == old(self).post_caches@.insert(
                key@,
                trim_spec(
                    zadd_batch_spec(
                        space_or_empty(old(self).post_caches@, key@),
                        scored_at(items@, timestamp_secs),
                    ),
                    MAX_USER_CACHE_LEN as int,
                ),
            ),
            space_or_empty(final(self).post_caches@, key@).len() <= MAX_USER_CACHE_LEN,
            final(self).history@ == old(self).history@,
            final(self).plain_history@ == old(self).plain_history@,
            final(self).buffer@ == old(self).buffer@,
    {
        proof {
            self.post_caches.lemma_wf_spaces();
            lemma_capacity_invariant(
                space_or_empty(self.post_caches@, key@),
                scored_at(items@, timestamp_secs),
                MAX_USER_CACHE_LEN as int,
            );
        }
        let key_s = String::from_str(key);
        let scored = build_scored_at(items, timestamp_secs);
        self.post_caches.insert_trim(&key_s, scored, MAX_USER_CACHE_LEN);
        Ok(())
    }

    /// Ingests feed entries into the global cache under `key`, scored by
    /// `timestamp_secs` and trimmed to the global ceiling.
    pub fn add_global_cache_items(
        &mut self,
        key: &str,
        items: Vec<PostItem>,
        timestamp_secs: u64,
    ) -> (r: Result<(), Error>)
        requires
            old(self).wf(),
        ensures
            final(self).wf(),
            r is Ok,
            final(self).post_caches@ == old(self).post_caches@.insert(
                key@,
                trim_spec(
                    zadd_batch_spec(
                        space_or_empty(old(self).post_caches@, key@),
                        scored_at(items@, timestamp_secs),
                    ),
                    MAX_GLOBAL_CACHE_LEN as int,
                ),
            ),
            space_or_empty(final(self).post_caches@, key@).len() <= MAX_GLOBAL_CACHE_LEN,
            final(self).history@ == old(self).history@,
            final(self).plain_history@ == old(self).plain_history@,
            final(self).buffer@ == old(self).buffer@,
    {
        proof {
            self.post_caches.lemma_wf_spaces();
            lemma_capacity_invariant(
                space_or_empty(self.post_caches@, key@),
                scored_at(items@, timestamp_secs),
                MAX_GLOBAL_CACHE_LEN as int,
            );
        }
        let key_s = String::from_str(key);
        let scored = build_scored_at(items, timestamp_secs);
        self.post_caches.insert_trim(&key_s, scored, MAX_GLOBAL_CACHE_LEN);
        Ok(())
    }

    /// Reads feed entries under `key` at descending ranks `start..=end`.
    pub fn get_cache_items(&self, key: &str, start: u64, end: u64) -> (r: Result<
        Vec<PostItem>,
        Error,
    >)
        requires
            self.wf(),
            start <= usize::MAX,
            end <= usize::MAX,
        ensures
            r is Ok,
            r matches Ok(v) ==> ({
                let sp = space_or_empty(self.post_caches@, key@);
                &&& ((start as int) >= sp.len() || end < start) ==> v@.len() == 0
                &&& ((start as int) < sp.len() && start <= end) ==> v@.len() == (
                if (end as int) < sp.len() {
                    end - start + 1
                } else {
                    sp.len() - start
                })
                &&& forall|i: int|
                    0 <= i < v@.len() ==> v@[i] == rev_entry(sp, start + i).member
            }),
    {
        let key_s = String::from_str(key);
        Ok(self.post_caches.read_rev_range(&key_s, start as usize, end as usize))
    }

    /// The number of feed entries under `key`.
    pub fn get_cache_items_len(&self, key: &str) -> (r: Result<u64, Error>)
        requires
            self.wf(),
        ensures
            r is Ok,
            r matches Ok(n) ==> n as int == space_or_empty(self.post_caches@, key@).len(),
    {
        let key_s = String::from_str(key);
        Ok(self.post_caches.count(&key_s) as u64)
    }

    /// Buffers events in the shared pending-write namespace.
    pub fn add_user_buffer_items(&mut self, items: Vec<BufferItem>) -> (r: Result<(), Error>)
        requires
            old(self).wf(),
        ensures
            final(self).wf(),
            r is Ok,
            final(self).buffer@ == old(self).buffer@.insert(
                USER_HOTORNOT_BUFFER_KEY@,
                zadd_batch_spec(
                    space_or_empty(old(self).buffer@, USER_HOTORNOT_BUFFER_KEY@),
                    scored_buffer(items@),
                ),
            ),
            final(self).history@ == old(self).history@,
            final(self).plain_history@ == old(self).plain_history@,
            final(self).post_caches@ == old(self).post_caches@,
    {
        self.add_user_buffer_items_impl(USER_HOTORNOT_BUFFER_KEY, items)
    }

    /// Buffers events under `key`, scored by event time; the buffer has no
    /// capacity ceiling, it is drained by timestamp window instead.
    pub fn add_user_buffer_items_impl(&mut self, key: &str, items: Vec<BufferItem>) -> (r: Result<
        (),
        Error,
    >)
        requires
            old(self).wf(),
        ensures
            final(self).wf(),
            r is Ok,
            final(self).buffer@ == old(self).buffer@.insert(
                key@,
                zadd_batch_spec(space_or_empty(old(self).buffer@, key@), scored_buffer(items@)),
            ),
            final(self).history@ == old(self).history@,
            final(self).plain_history@ == old(self).plain_history@,
            final(self).post_caches@ == old(self).post_caches@,
    {
        let key_s = String::from_str(key);
        let scored = build_scored_buffer(items);
        self.buffer.insert_unbounded(&key_s, scored);
        Ok(())
    }

    /// Reads the buffered events of the shared pending-write namespace
    /// whose event time is at most `timestamp_secs`.
    pub fn get_user_buffer_items_by_timestamp(&self, timestamp_secs: u64) -> (r: Result<
        Vec<BufferItem>,
        Error,
    >)
        requires
            self.wf(),
        ensures
            r is Ok,
            r matches Ok(v) ==> v@ == members_of(
                keep_within(
                    space_or_empty(self.buffer@, USER_HOTORNOT_BUFFER_KEY@),
                    0,
                    timestamp_secs,
                ),
            ),
    {
        self.get_user_buffer_items_by_timestamp_impl(USER_HOTORNOT_BUFFER_KEY, timestamp_secs)
    }

    /// Reads the buffered events under `key` whose event time is at most
    /// `timestamp_secs`, in ascending event-time order.
    pub fn get_user_buffer_items_by_timestamp_impl(&self, key: &str, timestamp_secs: u64) -> (r:
        Result<Vec<BufferItem>, Error>)
        requires
            self.wf(),
        ensures
            r is Ok,
            r matches Ok(v) ==> v@ == members_of(
                keep_within(space_or_empty(self.buffer@, key@), 0, timestamp_secs),
            ),
    {
        let key_s = String::from_str(key);
        Ok(self.buffer.read_score_range(&key_s, 0, timestamp_secs))
    }

    /// Drains the shared pending-write namespace up to `timestamp_secs`;
    /// reports how many events left.
    pub fn remove_user_buffer_items_by_timestamp(&mut self, timestamp_secs: u64) -> (r: Result<
        u64,
        Error,
    >)
        requires
            old(self).wf(),
        ensures
            final(self).wf(),
            r is Ok,
            old(self).buffer@.contains_key(USER_HOTORNOT_BUFFER_KEY@) ==> final(self).buffer@
                == old(self).buffer@.insert(
                USER_HOTORNOT_BUFFER_KEY@,
                drop_within(old(self).buffer@[USER_HOTORNOT_BUFFER_KEY@], 0, timestamp_secs),
            ) && (r matches Ok(n) ==> n + drop_within(
                old(self).buffer@[USER_HOTORNOT_BUFFER_KEY@],
                0,
                timestamp_secs,
            ).len() == old(self).buffer@[USER_HOTORNOT_BUFFER_KEY@].len()),
            !old(self).buffer@.contains_key(USER_HOTORNOT_BUFFER_KEY@) ==> final(self).buffer@
                == old(self).buffer@ && (r matches Ok(n) && n == 0),
            final(self).history@ == old(self).history@,
            final(self).plain_history@ == old(self).plain_history@,
            final(self).post_caches@ == old(self).post_caches@,
    {
        self.remove_user_buffer_items_by_timestamp_impl(USER_HOTORNOT_BUFFER_KEY, timestamp_secs)
    }

    /// Drains the buffered events under `key` whose event time is at most
    /// `timestamp_secs`; reports how many events left. A namespace never
    /// written stays absent.
    pub fn remove_user_buffer_items_by_timestamp_impl(&mut self, key: &str, timestamp_secs: u64)
        -> (r: Result<u64, Error>)
        requires
            old(self).wf(),
        ensures
            final(self).wf(),
            r is Ok,
            old(self).buffer@.contains_key(key@) ==> final(self).buffer@ == old(
                self,
            ).buffer@.insert(key@, drop_within(old(self).buffer@[key@], 0, timestamp_secs)) && (
            r matches Ok(n) ==> n + drop_within(old(self).buffer@[key@], 0, timestamp_secs).len()
                == old(self).buffer@[key@].len()),
            !old(self).buffer@.contains_key(key@) ==> final(self).buffer@ == old(self).buffer@
                && (r matches Ok(n) && n == 0),
            final(self).history@ == old(self).history@,
            final(self).plain_history@ == old(self).plain_history@,
            final(self).post_caches@ == old(self).post_caches@,
    {
        let key_s = String::from_str(key);
        let removed = self.buffer.remove_score_range(&key_s, 0, timestamp_secs);
        Ok(removed as u64)
    }
}

} // verus!
