//! A string-to-string map that keeps its entries in insertion order.
//!
//! It stands for the `HashMap<String, String>` values of the protocol
//! (prompt arguments, weaver tags, environment variables): no key occurs
//! twice, and the entries keep the order in which they were inserted, so
//! that a listing of them is fixed by the order in which they were given.

use vstd::prelude::*;

use crate::text::str_eq;

verus! {

/// The map that a sequence of distinct-keyed pairs stands for.
pub open spec fn map_of(p: Seq<(Seq<char>, Seq<char>)>) -> Map<Seq<char>, Seq<char>>
    decreases p.len(),
{
    if p.len() == 0 {
        Map::empty()
    } else {
        map_of(p.drop_last()).insert(p.last().0, p.last().1)
    }
}

/// No key occurs twice among the pairs.
pub open spec fn distinct_keys(p: Seq<(Seq<char>, Seq<char>)>) -> bool {
    forall|i: int, j: int| 0 <= i < j < p.len() ==> p[i].0 != p[j].0
}

/// The map of a distinct-keyed sequence holds exactly its pairs.
pub proof fn lemma_map_of(p: Seq<(Seq<char>, Seq<char>)>)
    requires
        distinct_keys(p),
    ensures
        forall|k: Seq<char>|
            map_of(p).contains_key(k) <==> exists|i: int| 0 <= i < p.len() && #[trigger] p[i].0 == k,
        forall|i: int| 0 <= i < p.len() ==> map_of(p).contains_key(#[trigger] p[i].0) && map_of(p)[p[i].0] == p[i].1,
        map_of(p).dom().finite(),
        map_of(p).dom().len() == p.len(),
    decreases p.len(),
{
    if p.len() > 0 {
        let q = p.drop_last();
        assert(distinct_keys(q));
        lemma_map_of(q);
        assert forall|k: Seq<char>|
            map_of(p).contains_key(k) <==> exists|i: int| 0 <= i < p.len() && #[trigger] p[i].0 == k by {
            if map_of(p).contains_key(k) {
                if k == p.last().0 {
                    assert(p[p.len() - 1].0 == k);
                } else {
                    assert(map_of(q).contains_key(k));
                    let i = choose|i: int| 0 <= i < q.len() && #[trigger] q[i].0 == k;
                    assert(p[i].0 == k);
                }
            }
            if exists|i: int| 0 <= i < p.len() && #[trigger] p[i].0 == k {
                let i = choose|i: int| 0 <= i < p.len() && #[trigger] p[i].0 == k;
                if i < p.len() - 1 {
                    assert(q[i].0 == k);
                }
            }
        }
        assert forall|i: int| 0 <= i < p.len() implies map_of(p).contains_key(#[trigger] p[i].0)
            && map_of(p)[p[i].0] == p[i].1 by {
            if i < p.len() - 1 {
                assert(q[i] == p[i]);
                assert(p[i].0 != p[p.len() - 1].0);
            }
        }
        assert(!map_of(q).contains_key(p.last().0)) by {
            if map_of(q).contains_key(p.last().0) {
                let i = choose|i: int| 0 <= i < q.len() && #[trigger] q[i].0 == p.last().0;
                assert(p[i].0 == p[p.len() - 1].0);
            }
        }
    }
}

/// Replacing the value of a present key in a distinct-keyed sequence
/// inserts that value in its map.
pub proof fn lemma_map_of_update(p: Seq<(Seq<char>, Seq<char>)>, i: int, v: Seq<char>)
    requires
        distinct_keys(p),
        0 <= i < p.len(),
    ensures
        map_of(p.update(i, (p[i].0, v))) == map_of(p).insert(p[i].0, v),
    decreases p.len(),
{
    let q = p.update(i, (p[i].0, v));
    if i == p.len() - 1 {
        assert(q.drop_last() =~= p.drop_last());
        assert(map_of(q) =~= map_of(p).insert(p[i].0, v));
    } else {
        let pd = p.drop_last();
        assert(distinct_keys(pd));
        lemma_map_of_update(pd, i, v);
        assert(q.drop_last() =~= pd.update(i, (pd[i].0, v)));
        assert(p[i].0 != p.last().0);
        assert(map_of(q) =~= map_of(p).insert(p[i].0, v));
    }
}

/// An insertion-ordered map from strings to strings with distinct keys.
#[derive(Debug)]
pub struct StringMap {
    entries: Vec<(String, String)>,
}

impl StringMap {
    /// The entries, in order, as pairs of character sequences.
    pub closed spec fn pairs(&self) -> Seq<(Seq<char>, Seq<char>)> {
        self.entries@.map_values(|e: (String, String)| (e.0@, e.1@))
    }

    #[verifier::type_invariant]
    closed spec fn wf(&self) -> bool {
        distinct_keys(self.pairs())
    }

    /// An empty map.
    pub fn new() -> (r: Self)
        ensures
            r.pairs() == Seq::<(Seq<char>, Seq<char>)>::empty(),
            r@ == Map::<Seq<char>, Seq<char>>::empty(),
    {
        let r = StringMap { entries: Vec::new() };
        assert(r.pairs() =~= Seq::<(Seq<char>, Seq<char>)>::empty());
        r
    }

    /// The number of entries.
    pub fn len(&self) -> (r: usize)
        ensures
            r == self.pairs().len(),
            distinct_keys(self.pairs()),
    {
        proof {
            use_type_invariant(self);
        }
        self.entries.len()
    }

    /// Whether the map has no entry.
    pub fn is_empty(&self) -> (r: bool)
        ensures
            r == (self.pairs().len() == 0),
            r == (self@ == Map::<Seq<char>, Seq<char>>::empty()),
    {
        proof {
            use_type_invariant(self);
            lemma_map_of(self.pairs());
            if self.pairs().len() > 0 {
                assert(self@.contains_key(self.pairs()[0].0));
            }
            if self.pairs().len() == 0 {
                assert(self@ =~= Map::<Seq<char>, Seq<char>>::empty());
            }
        }
        self.entries.len() == 0
    }

    /// The key and value of the entry at `i`.
    pub fn entry(&self, i: usize) -> (r: (&String, &String))
        requires
            i < self.pairs().len(),
        ensures
            r.0@ == self.pairs()[i as int].0,
            r.1@ == self.pairs()[i as int].1,
    {
        let e = &self.entries[i];
        (&e.0, &e.1)
    }

    /// A copy of the map, with its entries in the same order.
    pub fn duplicate(&self) -> (r: StringMap)
        ensures
            r.pairs() == self.pairs(),
            r@ == self@,
    {
        proof {
            use_type_invariant(self);
        }
        let n = self.entries.len();
        let mut entries: Vec<(String, String)> = Vec::new();
        let mut i: usize = 0;
        while i < n
            invariant
                n == self.entries@.len(),
                i <= n,
                entries@.len() == i,
                forall|j: int|
                    0 <= j < i ==> (#[trigger] entries@[j]).0@ == self.entries@[j].0@ && entries@[j].1@
                        == self.entries@[j].1@,
            decreases n - i,
        {
            let e = &self.entries[i];
            let k = e.0.clone();
            let v = e.1.clone();
            entries.push((k, v));
            i = i + 1;
        }
        assert(entries@.map_values(|e: (String, String)| (e.0@, e.1@)) =~= self.pairs());
        StringMap { entries }
    }

    /// Whether every entry of `self` is also an entry of `other`.
    pub fn is_included_in(&self, other: &StringMap) -> (r: bool)
        ensures
            r == self@.submap_of(other@),
    {
        proof {
            use_type_invariant(self);
            lemma_map_of(self.pairs());
        }
        let n = self.entries.len();
        let mut i: usize = 0;
        while i < n
            invariant
                n == self.pairs().len(),
                distinct_keys(self.pairs()),
                i <= n,
                forall|j: int|
                    0 <= j < i ==> other@.contains_key(#[trigger] self.pairs()[j].0) && other@[self.pairs()[j].0]
                        == self.pairs()[j].1,
            decreases n - i,
        {
            let (k, v) = (&self.entries[i].0, &self.entries[i].1);
            match other.get(k.as_str()) {
                Some(w) => {
                    if !(*w == *v) {
                        proof {
                            lemma_map_of(self.pairs());
                            assert(self@.contains_key(self.pairs()[i as int].0));
                        }
                        return false;
                    }
                },
                None => {
                    proof {
                        lemma_map_of(self.pairs());
                        assert(self@.contains_key(self.pairs()[i as int].0));
                    }
                    return false;
                },
            }
            i = i + 1;
        }
        proof {
            lemma_map_of(self.pairs());
            assert forall|k: Seq<char>| #[trigger] self@.contains_key(k) implies other@.contains_key(k)
                && self@[k] == other@[k] by {
                let j = choose|j: int| 0 <= j < self.pairs().len() && #[trigger] self.pairs()[j].0 == k;
                assert(self.pairs()[j].0 == k);
            }
        }
        true
    }

    /// The position of `key` among the entries, if it occurs.
    fn find(&self, key: &str) -> (r: Option<usize>)
        ensures
            match r {
                Some(i) => i < self.pairs().len() && self.pairs()[i as int].0 == key@,
                None => forall|j: int| 0 <= j < self.pairs().len() ==> self.pairs()[j].0 != key@,
            },
    {
        let n = self.entries.len();
        let mut i: usize = 0;
        while i < n
            invariant
                n == self.pairs().len(),
                i <= n,
                forall|j: int| 0 <= j < i ==> self.pairs()[j].0 != key@,
            decreases n - i,
        {
            if str_eq(self.entries[i].0.as_str(), key) {
                return Some(i);
            }
            i = i + 1;
        }
        None
    }

    /// The value stored under `key`, if any.
    pub fn get(&self, key: &str) -> (r: Option<&String>)
        ensures
            match r {
                Some(v) => self@.contains_key(key@) && v@ == self@[key@],
                None => !self@.contains_key(key@),
            },
    {
        proof {
            use_type_invariant(self);
            lemma_map_of(self.pairs());
        }
        match self.find(key) {
            Some(i) => Some(&self.entries[i].1),
            None => None,
        }
    }

    /// Stores `value` under `key`: a present key keeps its place and takes
    /// the new value, a new key goes last.
    pub fn insert(&mut self, key: String, value: String)
        ensures
            final(self)@ == old(self)@.insert(key@, value@),
            old(self)@.contains_key(key@) ==> final(self).pairs().len() == old(self).pairs().len(),
            !old(self)@.contains_key(key@) ==> final(self).pairs() == old(self).pairs().push((key@, value@)),
    {
        proof {
            use_type_invariant(&*self);
            lemma_map_of(self.pairs());
        }
        let ghost p = self.pairs();
        let ghost kv = key@;
        let ghost vv = value@;
        match self.find(key.as_str()) {
            Some(i) => {
                proof {
                    lemma_map_of_update(p, i as int, vv);
                }
                let mut entries: Vec<(String, String)> = Vec::new();
                std::mem::swap(&mut entries, &mut self.entries);
                entries.set(i, (key, value));
                assert(entries@.map_values(|e: (String, String)| (e.0@, e.1@)) =~= p.update(
                    i as int,
                    (p[i as int].0, vv),
                ));
                self.entries = entries;
            },
            None => {
                let mut entries: Vec<(String, String)> = Vec::new();
                std::mem::swap(&mut entries, &mut self.entries);
                entries.push((key, value));
                assert(entries@.map_values(|e: (String, String)| (e.0@, e.1@)) =~= p.push((kv, vv)));
                assert(p.push((kv, vv)).drop_last() =~= p);
                self.entries = entries;
            },
        }
    }
}

impl View for StringMap {
    type V = Map<Seq<char>, Seq<char>>;

    closed spec fn view(&self) -> Map<Seq<char>, Seq<char>> {
        map_of(self.pairs())
    }
}

} // verus!
