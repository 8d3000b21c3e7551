//! Score-ordered, key-deduplicated collections: the storage model behind the
//! bounded recency caches.
//!
//! A [`ZSet`] keeps entries ordered by ascending score (rank 0 is the lowest
//! score) and holds at most one entry per member key; re-inserting a member
//! that is already present overwrites its score instead of duplicating it.
//! Reads in descending score order, range reads and deletions by score, and
//! trimming of the lowest ranks are all specified exactly against a sequence
//! model.

use vstd::prelude::*;

verus! {

/// One entry of a score-ordered collection: a member and its ranking score.
pub struct Scored<T> {
    pub score: u64,
    pub member: T,
}

/// A value that can produce an equal copy of itself, so collections can
/// hand values out without consuming themselves.
pub trait DupValue: Sized {
    /// An equal copy of the value.
    fn dup(&self) -> (r: Self)
        ensures
            r == *self,
    ;
}

/// A member of a score-ordered collection.
///
/// `skey` is the member's identity for deduplication, and `key_eq` decides
/// it executably.
pub trait StoreMember: DupValue {
    type Key;

    /// The member's identity for merge and deduplication purposes.
    spec fn skey(&self) -> Self::Key;

    /// Decides whether two members share one identity.
    fn key_eq(&self, other: &Self) -> (r: bool)
        ensures
            r == (self.skey() == other.skey()),
    ;
}

/// Scores never decrease with rank.
pub open spec fn sorted_by_score<T: StoreMember>(s: Seq<Scored<T>>) -> bool {
    forall|i: int, j: int| #![trigger s[i], s[j]] 0 <= i < j < s.len() ==> s[i].score <= s[j].score
}

/// No two entries share a member key.
pub open spec fn unique_keys<T: StoreMember>(s: Seq<Scored<T>>) -> bool {
    forall|i: int, j: int| #![trigger s[i], s[j]]
        0 <= i < j < s.len() ==> s[i].member.skey() != s[j].member.skey()
}

/// Well-formedness of the sequence model.
pub open spec fn zset_inv<T: StoreMember>(s: Seq<Scored<T>>) -> bool {
    sorted_by_score(s) && unique_keys(s)
}

/// Some entry carries the key `k`.
pub open spec fn has_key<T: StoreMember>(s: Seq<Scored<T>>, k: <T as StoreMember>::Key) -> bool {
    exists|i: int| 0 <= i < s.len() && #[trigger] s[i].member.skey() == k
}

/// The sequence with every entry keyed `k` removed.
pub open spec fn strip_key<T: StoreMember>(
    s: Seq<Scored<T>>,
    k: <T as StoreMember>::Key,
) -> Seq<Scored<T>>
    decreases s.len(),
{
    if s.len() == 0 {
        Seq::empty()
    } else if s[0].member.skey() == k {
        strip_key(s.drop_first(), k)
    } else {
        seq![s[0]] + strip_key(s.drop_first(), k)
    }
}

/// The number of entries whose score is at most `score`; on a sorted
/// sequence this is where a new entry with that score is placed, after
/// any entries that tie with it.
pub open spec fn rank_of_score<T: StoreMember>(s: Seq<Scored<T>>, score: u64) -> int
    decreases s.len(),
{
    if s.len() == 0 {
        0
    } else if s[0].score <= score {
        1 + rank_of_score(s.drop_first(), score)
    } else {
        0
    }
}

/// The result of inserting `member` with `score`: any previous entry with
/// the same key leaves, and the new entry lands after all entries whose
/// score is at most `score`.
pub open spec fn zadd_spec<T: StoreMember>(s: Seq<Scored<T>>, score: u64, member: T) -> Seq<
    Scored<T>,
> {
    let stripped = strip_key(s, member.skey());
    stripped.insert(rank_of_score(stripped, score), Scored { score, member })
}

/// Left-to-right fold of `zadd_spec` over a batch; later entries of the
/// batch win on key collisions.
pub open spec fn zadd_batch_spec<T: StoreMember>(
    s: Seq<Scored<T>>,
    items: Seq<Scored<T>>,
) -> Seq<Scored<T>>
    decreases items.len(),
{
    if items.len() == 0 {
        s
    } else {
        zadd_batch_spec(zadd_spec(s, items[0].score, items[0].member), items.drop_first())
    }
}

/// The members of a model sequence, scores stripped.
pub open spec fn members_of<T: StoreMember>(s: Seq<Scored<T>>) -> Seq<T> {
    s.map_values(|e: Scored<T>| e.member)
}

/// The entries whose score lies in `[lo, hi]`, in order.
pub open spec fn keep_within<T: StoreMember>(s: Seq<Scored<T>>, lo: u64, hi: u64) -> Seq<
    Scored<T>,
>
    decreases s.len(),
{
    if s.len() == 0 {
        Seq::empty()
    } else if lo <= s[0].score && s[0].score <= hi {
        seq![s[0]] + keep_within(s.drop_first(), lo, hi)
    } else {
        keep_within(s.drop_first(), lo, hi)
    }
}

/// The entries whose score lies outside `[lo, hi]`, in order.
pub open spec fn drop_within<T: StoreMember>(s: Seq<Scored<T>>, lo: u64, hi: u64) -> Seq<
    Scored<T>,
>
    decreases s.len(),
{
    if s.len() == 0 {
        Seq::empty()
    } else if lo <= s[0].score && s[0].score <= hi {
        drop_within(s.drop_first(), lo, hi)
    } else {
        seq![s[0]] + drop_within(s.drop_first(), lo, hi)
    }
}

/// Capacity-triggered trim: once the sequence exceeds `cap` entries, only
/// the `cap` highest-ranked (highest-scored) entries remain.
pub open spec fn trim_spec<T: StoreMember>(s: Seq<Scored<T>>, cap: int) -> Seq<Scored<T>> {
    if s.len() > cap {
        s.subrange(s.len() - cap, s.len() as int)
    } else {
        s
    }
}

/// The entry at descending rank `rank`: rank 0 is the highest score.
pub open spec fn rev_entry<T: StoreMember>(s: Seq<Scored<T>>, rank: int) -> Scored<T> {
    s[s.len() - 1 - rank]
}

/// Trimming never keeps more than `cap` entries, keeps everything when the
/// sequence already fits, and keeps exactly `cap` entries otherwise.
pub proof fn lemma_trim_spec_len<T: StoreMember>(s: Seq<Scored<T>>, cap: int)
    requires
        0 <= cap,
    ensures
        trim_spec(s, cap).len() == if s.len() > cap {
            cap
        } else {
            s.len() as int
        },
{
}

/// A sequence stripped of key `k` no longer carries it, and entries with
/// other keys are untouched (it is a subsequence filter).
pub proof fn lemma_strip_key_absent<T: StoreMember>(s: Seq<Scored<T>>, k: <T as StoreMember>::Key)
    requires
        !has_key(s, k),
    ensures
        strip_key(s, k) == s,
    decreases s.len(),
{
    if s.len() > 0 {
        assert(s[0].member.skey() != k);
        assert(!has_key(s.drop_first(), k)) by {
            assert(forall|i: int| 0 <= i < s.drop_first().len() ==> s.drop_first()[i] == s[i + 1]);
        }
        lemma_strip_key_absent(s.drop_first(), k);
        assert(seq![s[0]] + s.drop_first() =~= s);
    } else {
        assert(strip_key(s, k) =~= s);
    }
}

/// When exactly one entry, at position `i`, carries key `k`, stripping the
/// key is removing that entry.
pub proof fn lemma_strip_key_at<T: StoreMember>(
    s: Seq<Scored<T>>,
    k: <T as StoreMember>::Key,
    i: int,
)
    requires
        0 <= i < s.len(),
        s[i].member.skey() == k,
        forall|j: int| 0 <= j < s.len() && j != i ==> #[trigger] s[j].member.skey() != k,
    ensures
        strip_key(s, k) == s.remove(i),
    decreases s.len(),
{
    if i == 0 {
        assert(!has_key(s.drop_first(), k)) by {
            assert(forall|j: int| 0 <= j < s.drop_first().len() ==> s.drop_first()[j] == s[j + 1]);
        }
        lemma_strip_key_absent(s.drop_first(), k);
        assert(s.remove(0) =~= s.drop_first());
    } else {
        assert(forall|j: int| 0 <= j < s.drop_first().len() ==> s.drop_first()[j] == s[j + 1]);
        lemma_strip_key_at(s.drop_first(), k, i - 1);
        assert(s.remove(i) =~= seq![s[0]] + s.drop_first().remove(i - 1));
    }
}

/// `rank_of_score` always lands inside the sequence bounds.
pub proof fn lemma_rank_in_bounds<T: StoreMember>(s: Seq<Scored<T>>, score: u64)
    ensures
        0 <= rank_of_score(s, score) <= s.len(),
    decreases s.len(),
{
    if s.len() > 0 {
        lemma_rank_in_bounds(s.drop_first(), score);
    }
}

/// On a sorted sequence, `rank_of_score` is the unique boundary position:
/// every entry before it scores at most `score`, every entry from it on
/// scores strictly more.
pub proof fn lemma_rank_characterizes<T: StoreMember>(s: Seq<Scored<T>>, score: u64, p: int)
    requires
        sorted_by_score(s),
        0 <= p <= s.len(),
        forall|i: int| 0 <= i < p ==> (#[trigger] s[i]).score <= score,
        p == s.len() || s[p].score > score,
    ensures
        p == rank_of_score(s, score),
    decreases s.len(),
{
    if s.len() == 0 {
    } else if p == 0 {
        if s[0].score <= score {
            // sortedness puts every later entry at or above s[p], contradicting s[p] > score
            assert(s[0].score > score);
        }
    } else {
        assert(forall|i: int| 0 <= i < s.drop_first().len() ==> s.drop_first()[i] == s[i + 1]);
        lemma_rank_characterizes(s.drop_first(), score, p - 1);
    }
}

/// Descending order: on a sorted namespace the entry at descending rank
/// `a` scores at least the entry at any later descending rank `b` — so a
/// range read (`zrevrange`, and the cache reads built on it) returns items
/// in non-increasing score order.
pub proof fn lemma_descending_ranks<T: StoreMember>(s: Seq<Scored<T>>, a: int, b: int)
    requires
        sorted_by_score(s),
        0 <= a <= b < s.len(),
    ensures
        rev_entry(s, a).score >= rev_entry(s, b).score,
{
}

/// On a sorted sequence split by the boundaries `a` (first entry scoring at
/// least `lo`) and `b` (first entry scoring above `hi`), the in-range
/// entries are exactly the contiguous block `[a, b)`.
pub proof fn lemma_within_split<T: StoreMember>(
    s: Seq<Scored<T>>,
    lo: u64,
    hi: u64,
    a: int,
    b: int,
)
    requires
        0 <= a <= b <= s.len(),
        forall|i: int| 0 <= i < a ==> (#[trigger] s[i]).score < lo,
        forall|i: int| a <= i < b ==> lo <= (#[trigger] s[i]).score <= hi,
        forall|i: int| b <= i < s.len() ==> (#[trigger] s[i]).score > hi,
    ensures
        keep_within(s, lo, hi) == s.subrange(a, b),
        drop_within(s, lo, hi) == s.subrange(0, a) + s.subrange(b, s.len() as int),
    decreases s.len(),
{
    if s.len() == 0 {
        assert(keep_within(s, lo, hi) =~= s.subrange(a, b));
        assert(drop_within(s, lo, hi) =~= s.subrange(0, a) + s.subrange(b, s.len() as int));
    } else {
        let rest = s.drop_first();
        assert(forall|i: int| 0 <= i < rest.len() ==> rest[i] == s[i + 1]);
        if a > 0 {
            lemma_within_split(rest, lo, hi, a - 1, b - 1);
            assert(s[0].score < lo);
            assert(keep_within(s, lo, hi) =~= s.subrange(a, b));
            assert(drop_within(s, lo, hi) =~= s.subrange(0, a) + s.subrange(b, s.len() as int));
        } else if b > 0 {
            lemma_within_split(rest, lo, hi, 0, b - 1);
            assert(lo <= s[0].score <= hi);
            assert(keep_within(s, lo, hi) =~= s.subrange(a, b));
            assert(drop_within(s, lo, hi) =~= s.subrange(0, a) + s.subrange(b, s.len() as int));
        } else {
            lemma_within_split(rest, lo, hi, 0, 0);
            assert(s[0].score > hi);
            assert(keep_within(s, lo, hi) =~= s.subrange(a, b));
            assert(drop_within(s, lo, hi) =~= s.subrange(0, a) + s.subrange(b, s.len() as int));
        }
    }
}

/// On a sorted sequence, the entries before `rank_of_score` score at most
/// `score` and the entries from it on score strictly more.
pub proof fn lemma_rank_props<T: StoreMember>(s: Seq<Scored<T>>, score: u64)
    requires
        sorted_by_score(s),
    ensures
        forall|i: int| 0 <= i < rank_of_score(s, score) ==> (#[trigger] s[i]).score <= score,
        forall|i: int|
            rank_of_score(s, score) <= i < s.len() ==> (#[trigger] s[i]).score > score,
    decreases s.len(),
{
    lemma_rank_in_bounds(s, score);
    if s.len() > 0 {
        let rest = s.drop_first();
        assert(forall|i: int| 0 <= i < rest.len() ==> rest[i] == s[i + 1]);
        lemma_rank_props(rest, score);
        lemma_rank_in_bounds(rest, score);
        if s[0].score <= score {
            let p = rank_of_score(s, score);
            assert forall|i: int| p <= i < s.len() implies (#[trigger] s[i]).score > score by {
                assert(s[i] == rest[i - 1]);
                assert(rest[i - 1].score > score);
            }
            assert forall|i: int| 0 <= i < p implies (#[trigger] s[i]).score <= score by {
                if i > 0 {
                    assert(s[i] == rest[i - 1]);
                    assert(rest[i - 1].score <= score);
                }
            }
        } else {
            assert forall|i: int| 0 <= i < s.len() implies (#[trigger] s[i]).score > score by {
                if i > 0 {
                    assert(s[0].score <= s[i].score);
                }
            }
        }
    }
}

/// Stripping a key from a well-formed sequence keeps it well-formed, rids
/// it of the key, and removes exactly one entry when the key was present.
pub proof fn lemma_strip_inv<T: StoreMember>(s: Seq<Scored<T>>, k: <T as StoreMember>::Key)
    requires
        zset_inv(s),
    ensures
        zset_inv(strip_key(s, k)),
        !has_key(strip_key(s, k), k),
        strip_key(s, k).len() == s.len() - (if has_key(s, k) {
            1int
        } else {
            0int
        }),
{
    if has_key(s, k) {
        let i = choose|i: int| 0 <= i < s.len() && #[trigger] s[i].member.skey() == k;
        assert(forall|j: int| 0 <= j < s.len() && j != i ==> (#[trigger] s[j]).member.skey() != k);
        lemma_strip_key_at(s, k, i);
        let res = s.remove(i);
        assert(forall|j: int|
            0 <= j < res.len() ==> res[j] == if j < i {
                s[j]
            } else {
                s[j + 1]
            });
        assert(zset_inv(res));
        assert(!has_key(res, k));
    } else {
        lemma_strip_key_absent(s, k);
    }
}

/// A single insert keeps the model well-formed and grows it exactly when
/// the member's key was absent (idempotent re-insert).
pub proof fn lemma_zadd_spec_inv<T: StoreMember>(s: Seq<Scored<T>>, score: u64, member: T)
    requires
        zset_inv(s),
    ensures
        zset_inv(zadd_spec(s, score, member)),
        zadd_spec(s, score, member).len() == s.len() + (if has_key(s, member.skey()) {
            0int
        } else {
            1int
        }),
{
    let k = member.skey();
    lemma_strip_inv(s, k);
    let t = strip_key(s, k);
    let p = rank_of_score(t, score);
    lemma_rank_in_bounds(t, score);
    lemma_rank_props(t, score);
    let res = zadd_spec(s, score, member);
    assert(res =~= t.subrange(0, p) + seq![Scored { score, member: member }] + t.subrange(
        p,
        t.len() as int,
    ));
    assert(forall|j: int|
        0 <= j < res.len() ==> res[j] == if j < p {
            t[j]
        } else if j == p {
            Scored { score, member: member }
        } else {
            t[j - 1]
        });
    assert(sorted_by_score(res)) by {
        assert(forall|i: int|
            p < i < res.len() ==> (#[trigger] res[i]).score == t[i - 1].score && t[i - 1].score
                > score);
    }
    assert(unique_keys(res));
}

/// A batch of inserts keeps the model well-formed, never shrinks it, and
/// grows it by at most the batch size.
pub proof fn lemma_zadd_batch_inv<T: StoreMember>(s: Seq<Scored<T>>, items: Seq<Scored<T>>)
    requires
        zset_inv(s),
    ensures
        zset_inv(zadd_batch_spec(s, items)),
        s.len() <= zadd_batch_spec(s, items).len() <= s.len() + items.len(),
    decreases items.len(),
{
    if items.len() > 0 {
        lemma_zadd_spec_inv(s, items[0].score, items[0].member);
        lemma_zadd_batch_inv(zadd_spec(s, items[0].score, items[0].member), items.drop_first());
    }
}

/// Splitting a batch in two and applying the parts in order has the same
/// effect as applying the whole batch: chunked ingestion loses nothing.
pub proof fn lemma_zadd_batch_append<T: StoreMember>(
    s: Seq<Scored<T>>,
    a: Seq<Scored<T>>,
    b: Seq<Scored<T>>,
)
    ensures
        zadd_batch_spec(s, a + b) == zadd_batch_spec(zadd_batch_spec(s, a), b),
    decreases a.len(),
{
    if a.len() == 0 {
        assert(a + b =~= b);
    } else {
        assert((a + b).drop_first() =~= a.drop_first() + b);
        assert((a + b)[0] == a[0]);
        lemma_zadd_batch_append(zadd_spec(s, a[0].score, a[0].member), a.drop_first(), b);
    }
}

/// Capacity invariant: however a namespace is grown by batched inserts,
/// the capacity-triggered trim leaves at most `cap` entries; and once a
/// namespace has reached its ceiling, an ingest-and-trim cycle never drops
/// it below the ceiling.
pub proof fn lemma_capacity_invariant<T: StoreMember>(
    base: Seq<Scored<T>>,
    batch: Seq<Scored<T>>,
    cap: int,
)
    requires
        zset_inv(base),
        0 <= cap,
    ensures
        trim_spec(zadd_batch_spec(base, batch), cap).len() <= cap,
        base.len() >= cap ==> trim_spec(zadd_batch_spec(base, batch), cap).len() == cap,
{
    lemma_zadd_batch_inv(base, batch);
    lemma_trim_spec_len(zadd_batch_spec(base, batch), cap);
}

/// Idempotent re-insert: adding a member whose key is already present
/// overwrites the old entry, so the count does not grow.
pub proof fn lemma_reinsert_idempotent<T: StoreMember>(s: Seq<Scored<T>>, score: u64, member: T)
    requires
        zset_inv(s),
        has_key(s, member.skey()),
    ensures
        zadd_spec(s, score, member).len() == s.len(),
        has_key(zadd_spec(s, score, member), member.skey()),
{
    lemma_zadd_spec_inv(s, score, member);
    let t = strip_key(s, member.skey());
    let p = rank_of_score(t, score);
    lemma_rank_in_bounds(t, score);
    assert(zadd_spec(s, score, member)[p].member.skey() == member.skey());
}

/// A key present in the model stays present through any insert: an insert
/// only ever replaces the entry with its own key.
pub proof fn lemma_zadd_preserves_key<T: StoreMember>(
    s: Seq<Scored<T>>,
    score: u64,
    member: T,
    k: <T as StoreMember>::Key,
)
    requires
        zset_inv(s),
        has_key(s, k),
    ensures
        has_key(zadd_spec(s, score, member), k),
{
    let k0 = member.skey();
    lemma_strip_inv(s, k0);
    let t = strip_key(s, k0);
    let p = rank_of_score(t, score);
    lemma_rank_in_bounds(t, score);
    let res = zadd_spec(s, score, member);
    assert(forall|j: int|
        0 <= j < res.len() ==> res[j] == if j < p {
            t[j]
        } else if j == p {
            Scored { score, member: member }
        } else {
            t[j - 1]
        }) by {
        assert(res =~= t.subrange(0, p) + seq![Scored { score, member: member }] + t.subrange(
            p,
            t.len() as int,
        ));
    }
    if k == k0 {
        assert(res[p].member.skey() == k);
    } else {
        let i = choose|i: int| 0 <= i < s.len() && #[trigger] s[i].member.skey() == k;
        let j: int = if has_key(s, k0) {
            let i0 = choose|i0: int| 0 <= i0 < s.len() && #[trigger] s[i0].member.skey() == k0;
            assert(forall|l: int|
                0 <= l < s.len() && l != i0 ==> (#[trigger] s[l]).member.skey() != k0);
            lemma_strip_key_at(s, k0, i0);
            assert(forall|l: int|
                0 <= l < t.len() ==> t[l] == if l < i0 {
                    s[l]
                } else {
                    s[l + 1]
                });
            if i < i0 {
                i
            } else {
                i - 1
            }
        } else {
            lemma_strip_key_absent(s, k0);
            i
        };
        assert(t[j].member.skey() == k);
        if j < p {
            assert(res[j].member.skey() == k);
        } else {
            assert(res[j + 1].member.skey() == k);
        }
    }
}

/// Idempotent re-insert, for a whole batch: when every entry of the batch
/// carries a key already present, the batch overwrites and the count does
/// not grow.
pub proof fn lemma_batch_reinsert_idempotent<T: StoreMember>(
    s: Seq<Scored<T>>,
    items: Seq<Scored<T>>,
)
    requires
        zset_inv(s),
        forall|i: int| 0 <= i < items.len() ==> has_key(s, (#[trigger] items[i]).member.skey()),
    ensures
        zadd_batch_spec(s, items).len() == s.len(),
    decreases items.len(),
{
    if items.len() > 0 {
        let s1 = zadd_spec(s, items[0].score, items[0].member);
        lemma_zadd_spec_inv(s, items[0].score, items[0].member);
        assert forall|i: int|
            0 <= i < items.drop_first().len() implies has_key(
            s1,
            (#[trigger] items.drop_first()[i]).member.skey(),
        ) by {
            assert(items.drop_first()[i] == items[i + 1]);
            lemma_zadd_preserves_key(s, items[0].score, items[0].member, items[i + 1].member.skey());
        }
        lemma_batch_reinsert_idempotent(s1, items.drop_first());
    }
}

/// A bounded, score-ordered, key-deduplicated collection: one namespace of
/// the recency cache, modelled on the sorted-set the store keeps per key.
pub struct ZSet<T: StoreMember> {
    entries: Vec<Scored<T>>,
}

impl<T: StoreMember> View for ZSet<T> {
    type V = Seq<Scored<T>>;

    closed spec fn view(&self) -> Seq<Scored<T>> {
        self.entries@
    }
}

impl<T: StoreMember> ZSet<T> {
    /// The collection invariant: ascending score order, one entry per key.
    pub open spec fn wf(&self) -> bool {
        zset_inv(self@)
    }

    /// An empty namespace.
    pub fn new() -> (r: Self)
        ensures
            r@ == Seq::<Scored<T>>::empty(),
            r.wf(),
    {
        let r = ZSet { entries: Vec::new() };
        proof {
            assert(r@ =~= Seq::<Scored<T>>::empty());
        }
        r
    }

    /// The position of the entry keyed like `member`, if any.
    fn find_key(&self, member: &T) -> (r: Option<usize>)
        ensures
            match r {
                Some(i) => i < self@.len() && self@[i as int].member.skey() == member.skey(),
                None => !has_key(self@, member.skey()),
            },
    {
        let mut i: usize = 0;
        while i < self.entries.len()
            invariant
                i <= self.entries.len(),
                forall|j: int|
                    0 <= j < i ==> (#[trigger] self.entries@[j]).member.skey() != member.skey(),
            decreases self.entries.len() - i,
        {
            let ent = &self.entries[i];
            if ent.member.key_eq(member) {
                return Some(i);
            }
            i += 1;
        }
        None
    }

    /// The number of entries (`ZCARD`).
    pub fn zcard(&self) -> (r: usize)
        ensures
            r == self@.len(),
    {
        self.entries.len()
    }

    /// The score stored for `member`, if it is present (`ZSCORE`); `Some`
    /// exactly when the member's key is in the namespace.
    pub fn zscore(&self, member: &T) -> (r: Option<u64>)
        ensures
            r is Some <==> has_key(self@, member.skey()),
            r matches Some(sc) ==> exists|i: int|
                0 <= i < self@.len() && (#[trigger] self@[i]).member.skey() == member.skey()
                    && self@[i].score == sc,
    {
        match self.find_key(member) {
            Some(i) => {
                let sc = self.entries[i].score;
                proof {
                    assert(self@[i as int].member.skey() == member.skey());
                }
                Some(sc)
            },
            None => None,
        }
    }

    /// Inserts `member` with `score` (`ZADD`): an entry with the same key is
    /// overwritten rather than duplicated, so the count grows only when the
    /// key is new.
    pub fn zadd(&mut self, score: u64, member: T)
        requires
            old(self).wf(),
        ensures
            final(self).wf(),
            final(self)@ == zadd_spec(old(self)@, score, member),
            final(self)@.len() == old(self)@.len() + (if has_key(old(self)@, member.skey()) {
                0int
            } else {
                1int
            }),
    {
        let ghost orig = self.entries@;
        let ghost k = member.skey();
        let found = self.find_key(&member);
        match found {
            Some(i) => {
                proof {
                    assert(forall|j: int|
                        0 <= j < orig.len() && j != i ==> (#[trigger] orig[j]).member.skey() != k);
                    lemma_strip_key_at(orig, k, i as int);
                }
                self.entries.remove(i);
            },
            None => {
                proof {
                    lemma_strip_key_absent(orig, k);
                }
            },
        }
        let ghost stripped = self.entries@;
        proof {
            assert(stripped == strip_key(orig, k));
            // stripping keeps order and key-uniqueness and removes the key itself
            assert(zset_inv(stripped) && !has_key(stripped, k)) by {
                if found is Some {
                    let i = found->0 as int;
                    assert(forall|j: int|
                        0 <= j < stripped.len() ==> stripped[j] == if j < i {
                            orig[j]
                        } else {
                            orig[j + 1]
                        });
                }
            }
        }
        let mut p: usize = self.entries.len();
        while p > 0 && self.entries[p - 1].score > score
            invariant
                p <= self.entries.len(),
                self.entries@ == stripped,
                forall|i: int| p <= i < stripped.len() ==> (#[trigger] stripped[i]).score > score,
            decreases p,
        {
            p -= 1;
        }
        proof {
            assert forall|i: int| 0 <= i < p implies (#[trigger] stripped[i]).score <= score by {
                assert(stripped[p - 1].score <= score);
                assert(stripped[i].score <= stripped[p - 1].score);
            }
            lemma_rank_characterizes(stripped, score, p as int);
        }
        self.entries.insert(p, Scored { score, member });
        proof {
            let res = self.entries@;
            assert(res == stripped.insert(p as int, Scored { score, member: member }));
            assert(res =~= stripped.subrange(0, p as int) + seq![Scored { score, member: member }]
                + stripped.subrange(p as int, stripped.len() as int));
            assert(forall|j: int|
                0 <= j < res.len() ==> res[j] == if j < p {
                    stripped[j]
                } else if j == p {
                    Scored { score, member: member }
                } else {
                    stripped[j - 1]
                });
            assert(sorted_by_score(res)) by {
                assert(forall|i: int|
                    p < i < res.len() ==> (#[trigger] res[i]).score == stripped[i - 1].score
                        && stripped[i - 1].score > score);
            }
            assert(unique_keys(res));
            assert(res == zadd_spec(orig, score, member));
            if found is Some {
                let i = found->0 as int;
                assert(orig[i].member.skey() == k);
                assert(has_key(orig, k));
                assert(res.len() == orig.len());
            } else {
                assert(res.len() == orig.len() + 1);
            }
        }
    }

    /// Applies a batch of scored members in order (`ZADD` with multiple
    /// members); on key collisions the later entry of the batch wins.
    pub fn insert_batch(&mut self, items: Vec<Scored<T>>)
        requires
            old(self).wf(),
        ensures
            final(self).wf(),
            final(self)@ == zadd_batch_spec(old(self)@, items@),
    {
        let ghost orig = self.entries@;
        let ghost batch = items@;
        let mut rest = items;
        while rest.len() > 0
            invariant
                self.wf(),
                zadd_batch_spec(orig, batch) == zadd_batch_spec(self@, rest@),
            decreases rest.len(),
        {
            let ghost before = rest@;
            let e = rest.remove(0);
            proof {
                assert(rest@ =~= before.drop_first());
                assert(e == before[0]);
            }
            self.zadd(e.score, e.member);
        }
        proof {
            assert(self.entries@ == zadd_batch_spec(self@, rest@));
        }
    }

    /// Applies a batch in fixed-size chunks to bound the size of a single
    /// store operation; every chunk lands in submission order before any
    /// caller-side trim runs, so the net effect equals one whole batch.
    pub fn insert_batch_chunked(&mut self, items: Vec<Scored<T>>)
        requires
            old(self).wf(),
        ensures
            final(self).wf(),
            final(self)@ == zadd_batch_spec(old(self)@, items@),
    {
        let ghost orig = self@;
        let ghost batch = items@;
        let mut rest = items;
        while rest.len() > 0
            invariant
                self.wf(),
                zadd_batch_spec(orig, batch) == zadd_batch_spec(self@, rest@),
            decreases rest.len(),
        {
            let ghost before = rest@;
            let take = if rest.len() > crate::consts::INSERT_CHUNK_SIZE {
                crate::consts::INSERT_CHUNK_SIZE
            } else {
                rest.len()
            };
            let tail = rest.split_off(take);
            proof {
                assert(before =~= rest@ + tail@);
                lemma_zadd_batch_append(self@, rest@, tail@);
            }
            self.insert_batch(rest);
            rest = tail;
        }
    }

    /// Removes the `count` lowest-scored entries (`ZREMRANGEBYRANK` from
    /// rank 0): only the surplus leaves, everything else keeps its order.
    pub fn remove_lowest(&mut self, count: usize)
        requires
            old(self).wf(),
            count <= old(self)@.len(),
        ensures
            final(self).wf(),
            final(self)@ == old(self)@.subrange(count as int, old(self)@.len() as int),
    {
        let ghost orig = self.entries@;
        proof {
            assert(orig.subrange(0, orig.len() as int) =~= orig);
        }
        let mut j: usize = 0;
        while j < count
            invariant
                j <= count,
                count <= orig.len(),
                self.entries@ == orig.subrange(j as int, orig.len() as int),
            decreases count - j,
        {
            self.entries.remove(0);
            proof {
                assert(orig.subrange(j as int, orig.len() as int).remove(0) =~= orig.subrange(
                    j + 1,
                    orig.len() as int,
                ));
            }
            j += 1;
        }
        proof {
            let res = self.entries@;
            assert(forall|i: int| 0 <= i < res.len() ==> res[i] == orig[count + i]);
            assert(sorted_by_score(res));
            assert(unique_keys(res));
        }
    }

    /// The position of the first entry scoring at least `lo`, and of the
    /// first entry scoring above `hi`; on a sorted namespace these bracket
    /// the contiguous block of entries whose score lies in `[lo, hi]`.
    fn score_bounds(&self, lo: u64, hi: u64) -> (r: (usize, usize))
        requires
            self.wf(),
            lo <= hi,
        ensures
            r.0 <= r.1 <= self@.len(),
            keep_within(self@, lo, hi) == self@.subrange(r.0 as int, r.1 as int),
            drop_within(self@, lo, hi) == self@.subrange(0, r.0 as int) + self@.subrange(
                r.1 as int,
                self@.len() as int,
            ),
    {
        let n = self.entries.len();
        let mut a: usize = 0;
        while a < n && self.entries[a].score < lo
            invariant
                a <= n,
                n == self@.len(),
                forall|i: int| 0 <= i < a ==> (#[trigger] self@[i]).score < lo,
            decreases n - a,
        {
            a += 1;
        }
        let mut b: usize = a;
        while b < n && self.entries[b].score <= hi
            invariant
                a <= b <= n,
                n == self@.len(),
                forall|i: int| 0 <= i < a ==> (#[trigger] self@[i]).score < lo,
                forall|i: int| a <= i < b ==> (#[trigger] self@[i]).score <= hi,
            decreases n - b,
        {
            b += 1;
        }
        proof {
            assert(forall|i: int| a <= i < b ==> lo <= (#[trigger] self@[i]).score <= hi) by {
                if a < n {
                    assert(self@[a as int].score >= lo);
                    assert(forall|i: int|
                        a <= i < b ==> self@[a as int].score <= (#[trigger] self@[i]).score);
                }
            }
            assert(forall|i: int| b <= i < self@.len() ==> (#[trigger] self@[i]).score > hi) by {
                if b < n {
                    assert(self@[b as int].score > hi);
                    assert(forall|i: int|
                        b <= i < self@.len() ==> self@[b as int].score <= (
                        #[trigger] self@[i]).score);
                }
            }
            lemma_within_split(self@, lo, hi, a as int, b as int);
        }
        (a, b)
    }

    /// The members whose score lies in `[lo, hi]`, in ascending score order
    /// (`ZRANGEBYSCORE`).
    pub fn zrangebyscore(&self, lo: u64, hi: u64) -> (r: Vec<T>)
        requires
            self.wf(),
            lo <= hi,
        ensures
            r@ == members_of(keep_within(self@, lo, hi)),
    {
        let (a, b) = self.score_bounds(lo, hi);
        let mut out: Vec<T> = Vec::new();
        let mut i: usize = a;
        while i < b
            invariant
                a <= i <= b <= self@.len(),
                out@.len() == i - a,
                forall|j: int| 0 <= j < out@.len() ==> out@[j] == self@[a + j].member,
            decreases b - i,
        {
            let ent = &self.entries[i];
            out.push(ent.member.dup());
            i += 1;
        }
        proof {
            assert(out@ =~= members_of(self@.subrange(a as int, b as int)));
        }
        out
    }

    /// Removes every entry whose score lies in `[lo, hi]`
    /// (`ZREMRANGEBYSCORE`) and reports how many left.
    pub fn zrembyscore(&mut self, lo: u64, hi: u64) -> (r: usize)
        requires
            old(self).wf(),
            lo <= hi,
        ensures
            final(self).wf(),
            final(self)@ == drop_within(old(self)@, lo, hi),
            r + final(self)@.len() == old(self)@.len(),
    {
        let ghost orig = self.entries@;
        let (a, b) = self.score_bounds(lo, hi);
        let m = b - a;
        let mut j: usize = 0;
        while j < m
            invariant
                j <= m,
                a + m <= orig.len(),
                m == b - a,
                self.entries@ == orig.subrange(0, a as int) + orig.subrange(
                    a + j,
                    orig.len() as int,
                ),
            decreases m - j,
        {
            proof {
                assert(orig.subrange(0, a as int).len() == a);
            }
            self.entries.remove(a);
            proof {
                assert((orig.subrange(0, a as int) + orig.subrange(a + j, orig.len() as int))
                    .remove(a as int) =~= orig.subrange(0, a as int) + orig.subrange(
                    a + j + 1,
                    orig.len() as int,
                ));
            }
            j += 1;
        }
        proof {
            let res = self.entries@;
            assert(res == drop_within(orig, lo, hi));
            assert(forall|i: int|
                0 <= i < res.len() ==> res[i] == if i < a {
                    orig[i]
                } else {
                    orig[i + (b - a)]
                });
            assert(sorted_by_score(res));
            assert(unique_keys(res));
        }
        m
    }

    /// The members at descending ranks `start..=stop` (`ZREVRANGE`):
    /// rank 0 is the highest score, the stop rank is inclusive, and
    /// out-of-range ranks are clamped as the store clamps them.
    pub fn zrevrange(&self, start: usize, stop: usize) -> (r: Vec<T>)
        requires
            self.wf(),
        ensures
            start >= self@.len() || stop < start ==> r@.len() == 0,
            start < self@.len() && start <= stop ==> r@.len() == (if (stop as int) < self@.len() {
                stop - start + 1
            } else {
                self@.len() - start
            }),
            forall|i: int| 0 <= i < r@.len() ==> r@[i] == rev_entry(self@, start + i).member,
    {
        let n = self.entries.len();
        let mut out: Vec<T> = Vec::new();
        if start >= n || stop < start {
            return out;
        }
        let hi = if stop < n - 1 {
            stop
        } else {
            n - 1
        };
        let mut rnk = start;
        while rnk <= hi
            invariant
                start <= rnk <= hi + 1,
                hi < n,
                start <= hi,
                n == self@.len(),
                out@.len() == rnk - start,
                forall|i: int| 0 <= i < out@.len() ==> out@[i] == rev_entry(self@, start + i).member,
            decreases hi + 1 - rnk,
        {
            let idx = n - 1 - rnk;
            let ent = &self.entries[idx];
            out.push(ent.member.dup());
            rnk += 1;
        }
        out
    }
}

} // verus!
