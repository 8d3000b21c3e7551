//! Namespaces: a keyspace maps string keys to score-ordered collections,
//! the way the external store keeps one sorted set per key.
//!
//! Every mutation is specified against a `Map` from key to the namespace's
//! sequence model, so callers see exactly which namespace changed and how.

use vstd::prelude::*;

use crate::store::{
    drop_within, has_key, keep_within, members_of, rev_entry, trim_spec, zadd_batch_spec,
    zset_inv, Scored, StoreMember, ZSet,
};

verus! {

/// The model of a namespace under `k`: its sequence if the key exists,
/// empty otherwise (a missing key reads as an empty namespace).
pub open spec fn space_or_empty<T: StoreMember>(
    m: Map<Seq<char>, Seq<Scored<T>>>,
    k: Seq<char>,
) -> Seq<Scored<T>> {
    if m.contains_key(k) {
        m[k]
    } else {
        Seq::empty()
    }
}

/// Every namespace of the map is well-formed.
pub open spec fn spaces_inv<T: StoreMember>(m: Map<Seq<char>, Seq<Scored<T>>>) -> bool {
    forall|k: Seq<char>| #[trigger] m.contains_key(k) ==> zset_inv(m[k])
}

/// The map held by a list of named collections; a later entry would win on
/// a duplicate name, though well-formed keyspaces never hold duplicates.
pub open spec fn space_map<T: StoreMember>(s: Seq<(String, ZSet<T>)>) -> Map<
    Seq<char>,
    Seq<Scored<T>>,
>
    decreases s.len(),
{
    if s.len() == 0 {
        Map::empty()
    } else {
        space_map(s.drop_last()).insert(s.last().0@, s.last().1@)
    }
}

proof fn lemma_space_map_dom<T: StoreMember>(s: Seq<(String, ZSet<T>)>, k: Seq<char>)
    ensures
        space_map(s).contains_key(k) <==> exists|i: int|
            0 <= i < s.len() && (#[trigger] s[i]).0@ == k,
    decreases s.len(),
{
    if s.len() > 0 {
        lemma_space_map_dom(s.drop_last(), k);
        assert(forall|i: int| 0 <= i < s.len() - 1 ==> s.drop_last()[i] == s[i]);
        if space_map(s).contains_key(k) {
            if s.last().0@ != k {
                let i = choose|i: int|
                    0 <= i < s.drop_last().len() && (#[trigger] s.drop_last()[i]).0@ == k;
                assert(s[i].0@ == k);
            } else {
                assert(s[s.len() - 1].0@ == k);
            }
        }
        if exists|i: int| 0 <= i < s.len() && (#[trigger] s[i]).0@ == k {
            let i = choose|i: int| 0 <= i < s.len() && (#[trigger] s[i]).0@ == k;
            if i < s.len() - 1 {
                assert(s.drop_last()[i].0@ == k);
            }
        }
    }
}

proof fn lemma_space_map_get<T: StoreMember>(s: Seq<(String, ZSet<T>)>, i: int)
    requires
        0 <= i < s.len(),
        forall|j: int, l: int| #![trigger s[j], s[l]]
            0 <= j < l < s.len() ==> s[j].0@ != s[l].0@,
    ensures
        space_map(s).contains_key(s[i].0@),
        space_map(s)[s[i].0@] == s[i].1@,
    decreases s.len(),
{
    assert(forall|j: int| 0 <= j < s.len() - 1 ==> s.drop_last()[j] == s[j]);
    if i == s.len() - 1 {
    } else {
        lemma_space_map_get(s.drop_last(), i);
        assert(s[s.len() - 1].0@ != s[i].0@);
    }
}

proof fn lemma_space_map_remove<T: StoreMember>(s: Seq<(String, ZSet<T>)>, i: int)
    requires
        0 <= i < s.len(),
        forall|j: int, l: int| #![trigger s[j], s[l]]
            0 <= j < l < s.len() ==> s[j].0@ != s[l].0@,
    ensures
        space_map(s.remove(i)) == space_map(s).remove(s[i].0@),
    decreases s.len(),
{
    let k = s[i].0@;
    assert(forall|j: int| 0 <= j < s.len() - 1 ==> s.drop_last()[j] == s[j]);
    if i == s.len() - 1 {
        assert(s.remove(i) =~= s.drop_last());
        lemma_space_map_dom(s.drop_last(), k);
        assert(!space_map(s.drop_last()).contains_key(k));
        assert(space_map(s.drop_last()) =~= space_map(s).remove(k));
    } else {
        let r = s.remove(i);
        assert(r.drop_last() =~= s.drop_last().remove(i));
        assert(r.last() == s.last());
        lemma_space_map_remove(s.drop_last(), i);
        assert(space_map(r) =~= space_map(s).remove(k));
    }
}

/// A set of named, score-ordered namespaces: the engine's model of the
/// external store's keyspace.
pub struct KeySpace<T: StoreMember> {
    spaces: Vec<(String, ZSet<T>)>,
}

impl<T: StoreMember> View for KeySpace<T> {
    type V = Map<Seq<char>, Seq<Scored<T>>>;

    closed spec fn view(&self) -> Map<Seq<char>, Seq<Scored<T>>> {
        space_map(self.spaces@)
    }
}

impl<T: StoreMember> KeySpace<T> {
    /// Distinct names, and every namespace well-formed.
    pub closed spec fn wf(&self) -> bool {
        &&& forall|j: int, l: int| #![trigger self.spaces@[j], self.spaces@[l]]
            0 <= j < l < self.spaces@.len() ==> self.spaces@[j].0@ != self.spaces@[l].0@
        &&& forall|i: int|
            0 <= i < self.spaces@.len() ==> (#[trigger] self.spaces@[i]).1.wf()
    }

    /// A well-formed keyspace has only well-formed namespaces in view.
    pub proof fn lemma_wf_spaces(&self)
        requires
            self.wf(),
        ensures
            spaces_inv(self@),
            forall|k: Seq<char>| zset_inv(#[trigger] space_or_empty(self@, k)),
    {
        assert forall|k: Seq<char>| #[trigger] self@.contains_key(k) implies zset_inv(self@[k]) by {
            lemma_space_map_dom(self.spaces@, k);
            let i = choose|i: int| 0 <= i < self.spaces@.len() && (#[trigger] self.spaces@[i]).0@ == k;
            lemma_space_map_get(self.spaces@, i);
        }
    }

    /// An empty keyspace.
    pub fn new() -> (r: Self)
        ensures
            r@ == Map::<Seq<char>, Seq<Scored<T>>>::empty(),
            r.wf(),
    {
        let r = KeySpace { spaces: Vec::new() };
        proof {
            assert(r@ =~= Map::<Seq<char>, Seq<Scored<T>>>::empty());
        }
        r
    }

    /// The position of the namespace named `key`, if any.
    fn find_space(&self, key: &String) -> (r: Option<usize>)
        ensures
            match r {
                Some(i) => i < self.spaces@.len() && self.spaces@[i as int].0@ == key@,
                None => forall|i: int|
                    0 <= i < self.spaces@.len() ==> (#[trigger] self.spaces@[i]).0@ != key@,
            },
    {
        let mut i: usize = 0;
        while i < self.spaces.len()
            invariant
                i <= self.spaces.len(),
                forall|j: int| 0 <= j < i ==> (#[trigger] self.spaces@[j]).0@ != key@,
            decreases self.spaces.len() - i,
        {
            let ent = &self.spaces[i];
            if ent.0 == *key {
                return Some(i);
            }
            i += 1;
        }
        None
    }

    /// Takes the namespace named `key` out of the keyspace (an empty one if
    /// the key is new), leaving the rest of the map untouched.
    fn take_space(&mut self, key: &String) -> (r: (String, ZSet<T>))
        requires
            old(self).wf(),
        ensures
            final(self).wf(),
            final(self)@ == old(self)@.remove(key@),
            r.0@ == key@,
            r.1.wf(),
            r.1@ == space_or_empty(old(self)@, key@),
            forall|j: int|
                0 <= j < final(self).spaces@.len() ==> (#[trigger] final(self).spaces@[j]).0@
                    != key@,
    {
        let found = self.find_space(key);
        match found {
            Some(i) => {
                proof {
                    lemma_space_map_get(self.spaces@, i as int);
                    lemma_space_map_remove(self.spaces@, i as int);
                    let ghost sp = self.spaces@;
                    assert(forall|j: int|
                        0 <= j < sp.remove(i as int).len() ==> sp.remove(i as int)[j] == if j < i {
                            sp[j]
                        } else {
                            sp[j + 1]
                        });
                }
                self.spaces.remove(i)
            },
            None => {
                proof {
                    lemma_space_map_dom(self.spaces@, key@);
                    assert(!self@.contains_key(key@));
                    assert(self@.remove(key@) =~= self@);
                }
                let name = String::from_str(key.as_str());
                (name, ZSet::new())
            },
        }
    }

    /// Puts a namespace named `key` back; the name must be free, which
    /// `take_space` guarantees.
    fn put_space(&mut self, name: String, z: ZSet<T>)
        requires
            old(self).wf(),
            z.wf(),
            forall|j: int|
                0 <= j < old(self).spaces@.len() ==> (#[trigger] old(self).spaces@[j]).0@
                    != name@,
        ensures
            final(self).wf(),
            final(self)@ == old(self)@.insert(name@, z@),
    {
        let ghost before = self.spaces@;
        let ghost nv = name@;
        let ghost zv = z@;
        self.spaces.push((name, z));
        proof {
            assert(self.spaces@.drop_last() =~= before);
            assert(self.spaces@.last().0@ == nv);
            assert(self.spaces@.last().1@ == zv);
            assert(forall|j: int| 0 <= j < before.len() ==> self.spaces@[j] == before[j]);
        }
    }

    /// Batch insert into the namespace `key`, then trim it to at most `cap`
    /// entries by removing the lowest-ranked surplus.
    pub fn insert_trim(&mut self, key: &String, items: Vec<Scored<T>>, cap: u64)
        requires
            old(self).wf(),
        ensures
            final(self).wf(),
            final(self)@ == old(self)@.insert(
                key@,
                trim_spec(
                    zadd_batch_spec(space_or_empty(old(self)@, key@), items@),
                    cap as int,
                ),
            ),
    {
        let ghost base = space_or_empty(old(self)@, key@);
        let (name, mut z) = self.take_space(key);
        z.insert_batch_chunked(items);
        let card = z.zcard();
        if card as u64 > cap {
            let surplus = (card as u64 - cap) as usize;
            proof {
                assert(surplus as u64 == card as u64 - cap);
            }
            z.remove_lowest(surplus);
            proof {
                assert(z@ =~= trim_spec(zadd_batch_spec(base, items@), cap as int));
            }
        } else {
            proof {
                assert(z@ == trim_spec(zadd_batch_spec(base, items@), cap as int));
            }
        }
        self.put_space(name, z);
        proof {
            assert(old(self)@.remove(key@).insert(key@, final(self)@[key@]) =~= old(self)@.insert(
                key@,
                final(self)@[key@],
            ));
        }
    }

    /// Batch insert into the namespace `key` with no capacity ceiling.
    pub fn insert_unbounded(&mut self, key: &String, items: Vec<Scored<T>>)
        requires
            old(self).wf(),
        ensures
            final(self).wf(),
            final(self)@ == old(self)@.insert(
                key@,
                zadd_batch_spec(space_or_empty(old(self)@, key@), items@),
            ),
    {
        let ghost base = space_or_empty(old(self)@, key@);
        let (name, mut z) = self.take_space(key);
        z.insert_batch_chunked(items);
        self.put_space(name, z);
        proof {
            assert(old(self)@.remove(key@).insert(key@, final(self)@[key@]) =~= old(self)@.insert(
                key@,
                final(self)@[key@],
            ));
        }
    }

    /// The number of entries in the namespace `key`.
    pub fn count(&self, key: &String) -> (r: usize)
        requires
            self.wf(),
        ensures
            r == space_or_empty(self@, key@).len(),
    {
        match self.find_space(key) {
            Some(i) => {
                proof {
                    lemma_space_map_get(self.spaces@, i as int);
                }
                let ent = &self.spaces[i];
                ent.1.zcard()
            },
            None => {
                proof {
                    lemma_space_map_dom(self.spaces@, key@);
                }
                0
            },
        }
    }

    /// Whether the namespace `key` holds an entry with `member`'s key.
    pub fn contains_member(&self, key: &String, member: &T) -> (r: bool)
        requires
            self.wf(),
        ensures
            r == has_key(space_or_empty(self@, key@), member.skey()),
    {
        match self.find_space(key) {
            Some(i) => {
                proof {
                    lemma_space_map_get(self.spaces@, i as int);
                }
                let ent = &self.spaces[i];
                ent.1.zscore(member).is_some()
            },
            None => {
                proof {
                    lemma_space_map_dom(self.spaces@, key@);
                    assert(!has_key(Seq::<Scored<T>>::empty(), member.skey()));
                }
                false
            },
        }
    }

    /// The members of namespace `key` at descending ranks `start..=stop`.
    pub fn read_rev_range(&self, key: &String, start: usize, stop: usize) -> (r: Vec<T>)
        requires
            self.wf(),
        ensures
            ({
                let sp = space_or_empty(self@, key@);
                &&& (start >= sp.len() || stop < start) ==> r@.len() == 0
                &&& (start < sp.len() && start <= stop) ==> r@.len() == (
                if (stop as int) < sp.len() {
                    stop - start + 1
                } else {
                    sp.len() - start
                })
                &&& forall|i: int| 0 <= i < r@.len() ==> r@[i] == rev_entry(sp, start + i).member
            }),
    {
        match self.find_space(key) {
            Some(i) => {
                proof {
                    lemma_space_map_get(self.spaces@, i as int);
                }
                let ent = &self.spaces[i];
                ent.1.zrevrange(start, stop)
            },
            None => {
                proof {
                    lemma_space_map_dom(self.spaces@, key@);
                }
                Vec::new()
            },
        }
    }

    /// The members of namespace `key` whose score lies in `[lo, hi]`, in
    /// ascending score order.
    pub fn read_score_range(&self, key: &String, lo: u64, hi: u64) -> (r: Vec<T>)
        requires
            self.wf(),
            lo <= hi,
        ensures
            r@ == members_of(keep_within(space_or_empty(self@, key@), lo, hi)),
    {
        match self.find_space(key) {
            Some(i) => {
                proof {
                    lemma_space_map_get(self.spaces@, i as int);
                }
                let ent = &self.spaces[i];
                ent.1.zrangebyscore(lo, hi)
            },
            None => {
                proof {
                    lemma_space_map_dom(self.spaces@, key@);
                    assert(members_of(keep_within(Seq::<Scored<T>>::empty(), lo, hi))
                        =~= Seq::<T>::empty());
                }
                Vec::new()
            },
        }
    }

    /// Removes from namespace `key` every entry whose score lies in
    /// `[lo, hi]`; reports how many left. A missing key stays missing.
    pub fn remove_score_range(&mut self, key: &String, lo: u64, hi: u64) -> (r: usize)
        requires
            old(self).wf(),
            lo <= hi,
        ensures
            final(self).wf(),
            old(self)@.contains_key(key@) ==> final(self)@ == old(self)@.insert(
                key@,
                drop_within(old(self)@[key@], lo, hi),
            ) && r + drop_within(old(self)@[key@], lo, hi).len() == old(self)@[key@].len(),
            !old(self)@.contains_key(key@) ==> final(self)@ == old(self)@ && r == 0,
    {
        let found = self.find_space(key);
        match found {
            Some(_) => {
                proof {
                    let i = found->0 as int;
                    lemma_space_map_get(self.spaces@, i);
                }
                let (name, mut z) = self.take_space(key);
                let removed = z.zrembyscore(lo, hi);
                self.put_space(name, z);
                proof {
                    assert(old(self)@.remove(key@).insert(key@, final(self)@[key@])
                        =~= old(self)@.insert(key@, final(self)@[key@]));
                }
                removed
            },
            None => {
                proof {
                    lemma_space_map_dom(self.spaces@, key@);
                }
                0
            },
        }
    }
}

} // verus!
