//! A small map from text keys to text values, kept as a list of entries in
//! the order in which the keys were first inserted. Each key occurs at most
//! once; the map is viewed as a mathematical `Map`.
use vstd::prelude::*;
use crate::text::str_eq;

verus! {

/// The entries of a list, as pairs of character sequences.
pub open spec fn pair_views(v: Seq<(String, String)>) -> Seq<(Seq<char>, Seq<char>)> {
    v.map_values(|e: (String, String)| (e.0@, e.1@))
}

/// Pushing a pair onto a list pushes its view.
pub proof fn lemma_pair_views_push(s: Seq<(String, String)>, x: (String, String))
    ensures
        pair_views(s.push(x)) == pair_views(s).push((x.0@, x.1@)),
{
    assert(pair_views(s.push(x)) =~= pair_views(s).push((x.0@, x.1@)));
}

/// The map that a list of pairs describes; a later pair overrides an earlier
/// one with the same key.
pub open spec fn pairs_map(p: Seq<(Seq<char>, Seq<char>)>) -> Map<Seq<char>, Seq<char>>
    decreases p.len(),
{
    if p.len() == 0 {
        Map::empty()
    } else {
        pairs_map(p.drop_last()).insert(p.last().0, p.last().1)
    }
}

/// No key occurs twice.
pub open spec fn distinct_keys(p: Seq<(Seq<char>, Seq<char>)>) -> bool {
    forall|i: int, j: int| 0 <= i < j < p.len() ==> #[trigger] p[i].0 != #[trigger] p[j].0
}

/// What `pairs_map` holds: exactly the keys of the list, each with the value
/// of its (only) pair.
pub proof fn lemma_pairs_map(p: Seq<(Seq<char>, Seq<char>)>)
    requires
        distinct_keys(p),
    ensures
        forall|k: Seq<char>| #[trigger] pairs_map(p).dom().contains(k) <==> exists|i: int| 0 <= i < p.len() && p[i].0 == k,
        forall|i: int| 0 <= i < p.len() ==> #[trigger] pairs_map(p)[p[i].0] == p[i].1,
        pairs_map(p).dom().finite(),
        pairs_map(p).dom().len() == p.len(),
    decreases p.len(),
{
    if p.len() > 0 {
        let q = p.drop_last();
        assert(distinct_keys(q));
        lemma_pairs_map(q);
        assert forall|k: Seq<char>| #[trigger] pairs_map(p).dom().contains(k) <==> exists|i: int| 0 <= i < p.len() && p[i].0 == k by {
            if pairs_map(p).dom().contains(k) && k != p.last().0 {
                let i = choose|i: int| 0 <= i < q.len() && q[i].0 == k;
                assert(p[i].0 == k);
            }
            if exists|i: int| 0 <= i < p.len() && p[i].0 == k {
                let i = choose|i: int| 0 <= i < p.len() && p[i].0 == k;
                if i < q.len() {
                    assert(q[i].0 == k);
                }
            }
        }
        assert forall|i: int| 0 <= i < p.len() implies #[trigger] pairs_map(p)[p[i].0] == p[i].1 by {
            if i < q.len() {
                assert(q[i].0 == p[i].0);
                assert(p[i].0 != p.last().0);
            }
        }
        assert(!pairs_map(q).dom().contains(p.last().0)) by {
            if pairs_map(q).dom().contains(p.last().0) {
                let i = choose|i: int| 0 <= i < q.len() && q[i].0 == p.last().0;
                assert(p[i].0 == p[p.len() - 1].0);
            }
        }
    }
}

/// The map without the keys whose value is `v`.
pub open spec fn drop_value(m: Map<Seq<char>, Seq<char>>, v: Seq<char>) -> Map<Seq<char>, Seq<char>> {
    m.restrict(m.dom().filter(|k: Seq<char>| m[k] != v))
}

/// A text map: entries in first-insertion order, each key once.
pub struct StrMap {
    entries: Vec<(String, String)>,
}

impl View for StrMap {
    type V = Map<Seq<char>, Seq<char>>;

    closed spec fn view(&self) -> Map<Seq<char>, Seq<char>> {
        pairs_map(pair_views(self.entries@))
    }
}

impl StrMap {
    /// The entries, in order, as character sequences.
    pub closed spec fn pairs(&self) -> Seq<(Seq<char>, Seq<char>)> {
        pair_views(self.entries@)
    }

    /// Well-formedness: no key occurs twice.
    pub closed spec fn wf(&self) -> bool {
        distinct_keys(pair_views(self.entries@))
    }

    /// The view is the map that the entries describe, and its keys are those
    /// of the entries.
    pub proof fn lemma_view(&self)
        requires
            self.wf(),
        ensures
            self@ == pairs_map(self.pairs()),
            distinct_keys(self.pairs()),
            forall|k: Seq<char>| #[trigger] self@.dom().contains(k) <==> exists|i: int| 0 <= i < self.pairs().len() && self.pairs()[i].0 == k,
            forall|i: int| 0 <= i < self.pairs().len() ==> #[trigger] self@[self.pairs()[i].0] == self.pairs()[i].1,
            self@.dom().finite(),
            self@.dom().len() == self.pairs().len(),
    {
        lemma_pairs_map(self.pairs());
    }

    pub fn new() -> (m: StrMap)
        ensures
            m.wf(),
            m@ == Map::<Seq<char>, Seq<char>>::empty(),
            m.pairs().len() == 0,
    {
        let m = StrMap { entries: Vec::new() };
        assert(pair_views(m.entries@) =~= Seq::empty());
        m
    }

    pub fn len(&self) -> (n: usize)
        requires
            self.wf(),
        ensures
            n == self@.dom().len(),
    {
        proof {
            lemma_pairs_map(self.pairs());
        }
        self.entries.len()
    }

    pub fn is_empty(&self) -> (b: bool)
        requires
            self.wf(),
        ensures
            b <==> self@.dom().len() == 0,
            b <==> self@ == Map::<Seq<char>, Seq<char>>::empty(),
    {
        proof {
            lemma_pairs_map(self.pairs());
            if self.entries.len() > 0 {
                assert(self@.dom().contains(self.pairs()[0].0));
            } else {
                assert(self@ =~= Map::<Seq<char>, Seq<char>>::empty());
            }
        }
        self.entries.len() == 0
    }

    /// The position of a key among the entries.
    fn position(&self, k: &str) -> (r: Option<usize>)
        requires
            self.wf(),
        ensures
            match r {
                Some(i) => i < self.pairs().len() && self.pairs()[i as int].0 == k@,
                None => forall|i: int| 0 <= i < self.pairs().len() ==> self.pairs()[i].0 != k@,
            },
            r.is_some() <==> self@.dom().contains(k@),
    {
        proof {
            lemma_pairs_map(self.pairs());
        }
        let mut i: usize = 0;
        while i < self.entries.len()
            invariant
                self.wf(),
                i <= self.entries.len(),
                self.pairs().len() == self.entries.len(),
                forall|j: int| 0 <= j < i ==> self.pairs()[j].0 != k@,
            decreases self.entries.len() - i,
        {
            if str_eq(self.entries[i].0.as_str(), k) {
                proof {
                    lemma_pairs_map(self.pairs());
                    assert(self.pairs()[i as int].0 == k@);
                }
                return Some(i);
            }
            i = i + 1;
        }
        None
    }

    pub fn contains_key(&self, k: &str) -> (b: bool)
        requires
            self.wf(),
        ensures
            b <==> self@.dom().contains(k@),
    {
        self.position(k).is_some()
    }

    /// The value of a key, if present.
    pub fn get(&self, k: &str) -> (r: Option<String>)
        requires
            self.wf(),
        ensures
            r.is_some() <==> self@.dom().contains(k@),
            r.is_some() ==> r.unwrap()@ == self@[k@],
    {
        proof {
            lemma_pairs_map(self.pairs());
        }
        match self.position(k) {
            Some(i) => Some(self.entries[i].1.clone()),
            None => None,
        }
    }

    /// The value of a key, or `fallback` when it is absent.
    pub fn get_or(&self, k: &str, fallback: &str) -> (r: String)
        requires
            self.wf(),
        ensures
            r@ == (if self@.dom().contains(k@) { self@[k@] } else { fallback@ }),
    {
        match self.get(k) {
            Some(v) => v,
            None => crate::text::owned(fallback),
        }
    }

    /// Sets the value of a key; returns the value it had.
    pub fn insert(&mut self, k: String, v: String) -> (r: Option<String>)
        requires
            old(self).wf(),
        ensures
            final(self).wf(),
            final(self)@ == old(self)@.insert(k@, v@),
            r.is_some() <==> old(self)@.dom().contains(k@),
            r.is_some() ==> r.unwrap()@ == old(self)@[k@],
    {
        proof {
            lemma_pairs_map(self.pairs());
        }
        match self.position(k.as_str()) {
            Some(i) => {
                let ghost before = self.pairs();
                let old_v = self.entries[i].1.clone();
                self.entries.set(i, (k, v));
                proof {
                    let after = self.pairs();
                    assert(after =~= before.update(i as int, (k@, v@)));
                    assert(distinct_keys(after));
                    lemma_pairs_map(after);
                    assert(pairs_map(after) =~= pairs_map(before).insert(k@, v@)) by {
                        assert forall|key: Seq<char>| pairs_map(after).dom().contains(key) <==> pairs_map(before).insert(k@, v@).dom().contains(key) by {
                            if exists|j: int| 0 <= j < after.len() && after[j].0 == key {
                                let j = choose|j: int| 0 <= j < after.len() && after[j].0 == key;
                                if j != i {
                                    assert(before[j].0 == key);
                                }
                            }
                            if exists|j: int| 0 <= j < before.len() && before[j].0 == key {
                                let j = choose|j: int| 0 <= j < before.len() && before[j].0 == key;
                                assert(after[j].0 == key);
                            }
                        }
                        assert forall|key: Seq<char>| pairs_map(after).dom().contains(key) implies pairs_map(after)[key] == pairs_map(before).insert(k@, v@)[key] by {
                            let j = choose|j: int| 0 <= j < after.len() && after[j].0 == key;
                            if j != i {
                                assert(before[j].0 == key);
                            }
                        }
                    }
                }
                Some(old_v)
            },
            None => {
                let ghost before = self.pairs();
                let ghost old_entries = self.entries@;
                let ghost kv = (k, v);
                self.entries.push((k, v));
                proof {
                    lemma_pair_views_push(old_entries, kv);
                    let after = self.pairs();
                    assert(after =~= before.push((k@, v@)));
                    assert(after.drop_last() =~= before);
                    assert(distinct_keys(after));
                }
                None
            },
        }
    }

    /// Removes a key; returns the value it had.
    pub fn remove(&mut self, k: &str) -> (r: Option<String>)
        requires
            old(self).wf(),
        ensures
            final(self).wf(),
            final(self)@ == old(self)@.remove(k@),
            r.is_some() <==> old(self)@.dom().contains(k@),
            r.is_some() ==> r.unwrap()@ == old(self)@[k@],
    {
        proof {
            lemma_pairs_map(self.pairs());
        }
        match self.position(k) {
            Some(i) => {
                let ghost before = self.pairs();
                let e = self.entries.remove(i);
                proof {
                    let after = self.pairs();
                    assert(after =~= before.remove(i as int));
                    assert(distinct_keys(after)) by {
                        assert forall|a: int, b: int| 0 <= a < b < after.len() implies #[trigger] after[a].0 != #[trigger] after[b].0 by {
                            let a2 = if a < i { a } else { a + 1 };
                            let b2 = if b < i { b } else { b + 1 };
                            assert(after[a] == before[a2]);
                            assert(after[b] == before[b2]);
                        }
                    }
                    lemma_pairs_map(after);
                    assert(pairs_map(after) =~= pairs_map(before).remove(k@)) by {
                        assert forall|key: Seq<char>| pairs_map(after).dom().contains(key) <==> pairs_map(before).remove(k@).dom().contains(key) by {
                            if exists|j: int| 0 <= j < after.len() && after[j].0 == key {
                                let j = choose|j: int| 0 <= j < after.len() && after[j].0 == key;
                                let j2 = if j < i { j } else { j + 1 };
                                assert(before[j2].0 == key);
                            }
                            if key != k@ && exists|j: int| 0 <= j < before.len() && before[j].0 == key {
                                let j = choose|j: int| 0 <= j < before.len() && before[j].0 == key;
                                assert(j != i);
                                let j2 = if j < i { j } else { j - 1 };
                                assert(after[j2].0 == key);
                            }
                        }
                        assert forall|key: Seq<char>| pairs_map(after).dom().contains(key) implies pairs_map(after)[key] == pairs_map(before).remove(k@)[key] by {
                            let j = choose|j: int| 0 <= j < after.len() && after[j].0 == key;
                            let j2 = if j < i { j } else { j + 1 };
                            assert(before[j2] == after[j]);
                        }
                    }
                }
                Some(e.1)
            },
            None => {
                proof {
                    assert(self@ =~= self@.remove(k@));
                }
                None
            },
        }
    }

    pub fn clear(&mut self)
        ensures
            final(self).wf(),
            final(self)@ == Map::<Seq<char>, Seq<char>>::empty(),
    {
        self.entries.clear();
        proof {
            assert(pair_views(self.entries@) =~= Seq::empty());
        }
    }

    /// The keys, in entry order.
    pub fn keys(&self) -> (r: Vec<String>)
        requires
            self.wf(),
        ensures
            r.len() == self.pairs().len(),
            forall|i: int| 0 <= i < r.len() ==> r[i]@ == #[trigger] self.pairs()[i].0,
    {
        let mut r: Vec<String> = Vec::new();
        for i in 0..self.entries.len()
            invariant
                r.len() == i,
                self.pairs().len() == self.entries.len(),
                forall|j: int| 0 <= j < i ==> r[j]@ == #[trigger] self.pairs()[j].0,
        {
            r.push(self.entries[i].0.clone());
        }
        r
    }

    /// The entries, in order.
    pub fn to_pairs(&self) -> (r: Vec<(String, String)>)
        ensures
            pair_views(r@) == self.pairs(),
    {
        let mut r: Vec<(String, String)> = Vec::new();
        for i in 0..self.entries.len()
            invariant
                pair_views(r@) == pair_views(self.entries@).take(i as int),
        {
            let k = self.entries[i].0.clone();
            let v = self.entries[i].1.clone();
            let ghost old_r = r@;
            r.push((k, v));
            proof {
                lemma_pair_views_push(old_r, (k, v));
                assert(pair_views(r@) =~= pair_views(self.entries@).take(i + 1));
            }
        }
        proof {
            assert(pair_views(self.entries@).take(self.entries.len() as int) =~= pair_views(self.entries@));
        }
        r
    }

    /// The map of a list of pairs; a later pair overrides an earlier one.
    pub fn from_pairs(v: &Vec<(String, String)>) -> (m: StrMap)
        ensures
            m.wf(),
            m@ == pairs_map(pair_views(v@)),
    {
        let mut m = StrMap::new();
        for i in 0..v.len()
            invariant
                m.wf(),
                m@ == pairs_map(pair_views(v@).take(i as int)),
        {
            let k = v[i].0.clone();
            let val = v[i].1.clone();
            m.insert(k, val);
            proof {
                assert(pair_views(v@).take(i + 1).drop_last() =~= pair_views(v@).take(i as int));
            }
        }
        proof {
            assert(pair_views(v@).take(v.len() as int) =~= pair_views(v@));
        }
        m
    }

    /// Whether some key has the value `v`.
    pub fn has_value(&self, v: &str) -> (b: bool)
        requires
            self.wf(),
        ensures
            b <==> exists|k: Seq<char>| #[trigger] self@.dom().contains(k) && self@[k] == v@,
    {
        proof {
            lemma_pairs_map(self.pairs());
        }
        let mut i: usize = 0;
        while i < self.entries.len()
            invariant
                self.wf(),
                i <= self.entries.len(),
                self.pairs().len() == self.entries.len(),
                forall|j: int| 0 <= j < i ==> self.pairs()[j].1 != v@,
            decreases self.entries.len() - i,
        {
            if str_eq(self.entries[i].1.as_str(), v) {
                proof {
                    lemma_pairs_map(self.pairs());
                    assert(self@.dom().contains(self.pairs()[i as int].0));
                }
                return true;
            }
            i = i + 1;
        }
        proof {
            assert forall|k: Seq<char>| #[trigger] self@.dom().contains(k) implies self@[k] != v@ by {
                let j = choose|j: int| 0 <= j < self.pairs().len() && self.pairs()[j].0 == k;
                assert(self@[self.pairs()[j].0] == self.pairs()[j].1);
            }
        }
        false
    }

    /// Removes every key whose value is `v`; returns those keys, in entry
    /// order.
    pub fn remove_value(&mut self, v: &str) -> (removed: Vec<String>)
        requires
            old(self).wf(),
        ensures
            final(self).wf(),
            final(self)@ == drop_value(old(self)@, v@),
            forall|i: int| 0 <= i < removed.len() ==> #[trigger] old(self)@.dom().contains(removed[i]@) && old(self)@[removed[i]@] == v@,
            forall|k: Seq<char>| #[trigger] old(self)@.dom().contains(k) && old(self)@[k] == v@ ==> exists|i: int| 0 <= i < removed.len() && removed[i]@ == k,
    {
        let ghost start = self@;
        let keys = self.keys();
        let mut removed: Vec<String> = Vec::new();
        proof {
            self.lemma_view();
        }
        for i in 0..keys.len()
            invariant
                self.wf(),
                keys.len() == old(self).pairs().len(),
                start == old(self)@,
                forall|j: int| 0 <= j < keys.len() ==> keys[j]@ == #[trigger] old(self).pairs()[j].0,
                distinct_keys(old(self).pairs()),
                forall|j: int| 0 <= j < old(self).pairs().len() ==> #[trigger] start[old(self).pairs()[j].0] == old(self).pairs()[j].1,
                forall|k: Seq<char>| #[trigger] start.dom().contains(k) <==> exists|j: int| 0 <= j < old(self).pairs().len() && old(self).pairs()[j].0 == k,
                self@ == start.restrict(start.dom().filter(|k: Seq<char>| !(start[k] == v@ && exists|j: int| 0 <= j < i && keys[j]@ == k))),
                forall|j: int| 0 <= j < removed.len() ==> start.dom().contains(#[trigger] removed[j]@),
                forall|j: int| 0 <= j < removed.len() ==> start[#[trigger] removed[j]@] == v@,
                forall|j: int| 0 <= j < i && start[keys[j]@] == v@ ==> exists|r: int| 0 <= r < removed.len() && removed[r]@ == #[trigger] keys[j]@,
        {
            let ghost before = self@;
            let ghost old_removed = removed@;
            let ghost ki = keys[i as int]@;
            proof {
                assert(start.dom().contains(ki)) by {
                    assert(old(self).pairs()[i as int].0 == ki);
                }
                assert(forall|j: int| 0 <= j < i ==> keys[j]@ != ki) by {
                    assert forall|j: int| 0 <= j < i implies keys[j]@ != ki by {
                        assert(old(self).pairs()[j].0 != old(self).pairs()[i as int].0);
                    }
                }
                assert(!(exists|j: int| 0 <= j < i && keys[j]@ == ki));
                assert(before.dom().contains(ki));
                assert(before[ki] == start[ki]);
            }
            let cur = self.get(keys[i].as_str());
            match cur {
                Some(val) => {
                    if str_eq(val.as_str(), v) {
                        self.remove(keys[i].as_str());
                        removed.push(keys[i].clone());
                        proof {
                            assert(start[ki] == v@);
                            assert(removed[removed.len() - 1]@ == ki);
                        }
                    }
                },
                None => {},
            }
            proof {
                let ghost f_new = |k: Seq<char>| !(start[k] == v@ && exists|j: int| 0 <= j < i + 1 && keys[j]@ == k);
                assert(self@ =~= start.restrict(start.dom().filter(f_new))) by {
                    assert forall|k: Seq<char>| self@.dom().contains(k) <==> start.restrict(start.dom().filter(f_new)).dom().contains(k) by {
                        if k == keys[i as int]@ {
                        } else {
                            if exists|j: int| 0 <= j < i + 1 && keys[j]@ == k {
                                let j = choose|j: int| 0 <= j < i + 1 && keys[j]@ == k;
                                assert(j < i);
                            }
                        }
                    }
                }
                assert forall|j: int| 0 <= j < i + 1 && start[keys[j]@] == v@ implies exists|r: int| 0 <= r < removed.len() && removed[r]@ == #[trigger] keys[j]@ by {
                    if j == i {
                        assert(removed[removed.len() - 1]@ == keys[j]@);
                    } else {
                        let r = choose|r: int| 0 <= r < old_removed.len() && old_removed[r]@ == keys[j]@;
                        assert(removed@[r] == old_removed[r]);
                    }
                }
            }
        }
        proof {
            let ghost f_done = |k: Seq<char>| start[k] != v@;
            assert(self@ =~= start.restrict(start.dom().filter(f_done))) by {
                assert forall|k: Seq<char>| start.dom().contains(k) && start[k] == v@ implies exists|j: int| 0 <= j < keys.len() && keys[j]@ == k by {
                    let j = choose|j: int| 0 <= j < old(self).pairs().len() && old(self).pairs()[j].0 == k;
                    assert(keys[j]@ == k);
                }
            }
            assert forall|k: Seq<char>| #[trigger] start.dom().contains(k) && start[k] == v@ implies exists|r: int| 0 <= r < removed.len() && removed[r]@ == k by {
                let j = choose|j: int| 0 <= j < old(self).pairs().len() && old(self).pairs()[j].0 == k;
                assert(keys[j]@ == k);
            }
        }
        removed
    }
}

} // verus!
