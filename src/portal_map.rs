use vstd::prelude::*;

verus! {

/// The view of one stored pair: a tag and the path recorded under it.
pub type PairView = (Seq<char>, Seq<char>);

/// The views of a sequence of string pairs.
pub open spec fn pairs_view(s: Seq<(String, String)>) -> Seq<PairView> {
    s.map_values(|p: (String, String)| (p.0@, p.1@))
}

/// The mapping that a sequence of pairs describes when read in order:
/// a later pair overrides an earlier one with the same key.
pub open spec fn map_of(s: Seq<PairView>) -> Map<Seq<char>, Seq<char>>
    decreases s.len(),
{
    if s.len() == 0 {
        Map::empty()
    } else {
        map_of(s.drop_last()).insert(s.last().0, s.last().1)
    }
}

/// No key occurs twice.
pub open spec fn unique_keys(s: Seq<PairView>) -> bool {
    forall|i: int, j: int| 0 <= i < j < s.len() ==> s[i].0 != s[j].0
}

/// The pair at index `i` has key `k`.
pub open spec fn has_key_at(s: Seq<PairView>, k: Seq<char>, i: int) -> bool {
    0 <= i < s.len() && s[i].0 == k
}

/// A key is mapped exactly when some pair has it.
pub proof fn lemma_map_of_domain(s: Seq<PairView>, k: Seq<char>)
    ensures
        map_of(s).contains_key(k) <==> exists|i: int| has_key_at(s, k, i),
    decreases s.len(),
{
    if s.len() > 0 {
        let t = s.drop_last();
        lemma_map_of_domain(t, k);
        if s.last().0 == k {
            assert(has_key_at(s, k, s.len() - 1));
        }
        if map_of(t).contains_key(k) {
            let i = choose|i: int| has_key_at(t, k, i);
            assert(has_key_at(s, k, i));
        }
        if exists|i: int| has_key_at(s, k, i) {
            let i = choose|i: int| has_key_at(s, k, i);
            if i < t.len() {
                assert(has_key_at(t, k, i));
            }
        }
    }
}

/// With distinct keys, each pair's value is what its key maps to.
pub proof fn lemma_map_of_value(s: Seq<PairView>, i: int)
    requires
        unique_keys(s),
        0 <= i < s.len(),
    ensures
        map_of(s).contains_key(s[i].0),
        map_of(s)[s[i].0] == s[i].1,
    decreases s.len(),
{
    let t = s.drop_last();
    if i < s.len() - 1 {
        assert(unique_keys(t));
        lemma_map_of_value(t, i);
        assert(s[i].0 != s.last().0);
    }
}

/// With distinct keys, replacing a pair's value in place updates the
/// mapping at that key alone.
pub proof fn lemma_map_of_update(s: Seq<PairView>, i: int, v: Seq<char>)
    requires
        unique_keys(s),
        0 <= i < s.len(),
    ensures
        unique_keys(s.update(i, (s[i].0, v))),
        map_of(s.update(i, (s[i].0, v))) == map_of(s).insert(s[i].0, v),
    decreases s.len(),
{
    let u = s.update(i, (s[i].0, v));
    let t = s.drop_last();
    assert(unique_keys(u));
    if i == s.len() - 1 {
        assert(u.drop_last() =~= t);
        lemma_map_of_domain(t, s[i].0);
        assert(!map_of(t).contains_key(s[i].0));
        assert(map_of(u) =~= map_of(s).insert(s[i].0, v));
    } else {
        assert(unique_keys(t));
        lemma_map_of_update(t, i, v);
        assert(u.drop_last() =~= t.update(i, (t[i].0, v)));
        assert(s[i].0 != s.last().0);
        assert(map_of(u) =~= map_of(s).insert(s[i].0, v));
    }
}

/// With distinct keys, the mapping has one entry per pair.
pub proof fn lemma_map_of_len(s: Seq<PairView>)
    requires
        unique_keys(s),
    ensures
        map_of(s).len() == s.len(),
        map_of(s).dom().finite(),
    decreases s.len(),
{
    if s.len() > 0 {
        let t = s.drop_last();
        assert(unique_keys(t));
        lemma_map_of_len(t);
        lemma_map_of_domain(t, s.last().0);
        if map_of(t).contains_key(s.last().0) {
            let i = choose|i: int| has_key_at(t, s.last().0, i);
            assert(s[i].0 == s[s.len() - 1].0);
        }
    }
}

/// An insertion-ordered map from tags to paths. Each tag occurs once; a
/// new tag goes to the end, and an existing tag keeps its place.
#[derive(Debug)]
pub struct PortalMap {
    entries: Vec<(String, String)>,
}

impl PortalMap {
    /// The stored pairs, in order.
    pub closed spec fn pairs(&self) -> Seq<PairView> {
        pairs_view(self.entries@)
    }

    /// Each key is stored once.
    pub closed spec fn wf(&self) -> bool {
        unique_keys(self.pairs())
    }

    /// The mapping from tags to paths.
    pub open spec fn view(&self) -> Map<Seq<char>, Seq<char>> {
        map_of(self.pairs())
    }

    /// An empty map.
    pub fn new() -> (r: PortalMap)
        ensures
            r.wf(),
            r@ == Map::<Seq<char>, Seq<char>>::empty(),
            r.pairs().len() == 0,
    {
        let r = PortalMap { entries: Vec::new() };
        assert(r.pairs() =~= Seq::<PairView>::empty());
        r
    }

    /// The position of `key`, if it is stored.
    fn find(&self, key: &String) -> (r: Option<usize>)
        requires
            self.wf(),
        ensures
            match r {
                Some(i) => has_key_at(self.pairs(), key@, i as int),
                None => forall|i: int| !has_key_at(self.pairs(), key@, i),
            },
    {
        let mut i: usize = 0;
        while i < self.entries.len()
            invariant
                i <= self.entries@.len(),
                forall|j: int| 0 <= j < i ==> !has_key_at(self.pairs(), key@, j),
            decreases self.entries@.len() - i,
        {
            if self.entries[i].0 == *key {
                return Some(i);
            }
            i = i + 1;
        }
        None
    }

    /// The number of stored tags.
    pub fn len(&self) -> (r: usize)
        requires
            self.wf(),
        ensures
            r == self@.len(),
            r == self.pairs().len(),
    {
        proof {
            lemma_map_of_len(self.pairs());
        }
        self.entries.len()
    }

    /// The path stored under `key`, if any.
    pub fn get(&self, key: &String) -> (r: Option<&String>)
        requires
            self.wf(),
        ensures
            r.is_some() == self@.contains_key(key@),
            r.is_some() ==> r.unwrap()@ == self@[key@],
    {
        proof {
            lemma_map_of_domain(self.pairs(), key@);
        }
        match self.find(key) {
            Some(i) => {
                proof {
                    lemma_map_of_value(self.pairs(), i as int);
                }
                Some(&self.entries[i].1)
            },
            None => None,
        }
    }

    /// Records `value` under `key`, replacing and returning what was stored
    /// there before. A new key goes after all others.
    pub fn insert(&mut self, key: String, value: String) -> (r: Option<String>)
        requires
            old(self).wf(),
        ensures
            final(self).wf(),
            final(self)@ == old(self)@.insert(key@, value@),
            r.is_some() == old(self)@.contains_key(key@),
            r.is_some() ==> r.unwrap()@ == old(self)@[key@],
            old(self)@.contains_key(key@) ==> final(self).pairs().len() == old(self).pairs().len(),
            !old(self)@.contains_key(key@) ==> final(self).pairs() == old(self).pairs().push(
                (key@, value@),
            ),
    {
        proof {
            lemma_map_of_domain(self.pairs(), key@);
        }
        match self.find(&key) {
            Some(i) => {
                let ghost s = self.pairs();
                proof {
                    lemma_map_of_value(s, i as int);
                    lemma_map_of_update(s, i as int, value@);
                }
                let old_value = self.entries[i].1.clone();
                self.entries.set(i, (key, value));
                assert(self.pairs() =~= s.update(i as int, (s[i as int].0, value@)));
                Some(old_value)
            },
            None => {
                let ghost s = self.pairs();
                let ghost k = key@;
                self.entries.push((key, value));
                assert(self.pairs() =~= s.push((k, value@)));
                assert forall|a: int, b: int| 0 <= a < b < self.pairs().len() implies self.pairs()[a].0
                    != self.pairs()[b].0 by {
                    if b == s.len() {
                        assert(!has_key_at(s, k, a));
                    }
                }
                assert(self.pairs().drop_last() =~= s);
                None
            },
        }
    }

    /// A map holding `pairs` read in order: of two pairs with the same key
    /// the later one is kept, at the place of the first.
    pub fn from_pairs(pairs: Vec<(String, String)>) -> (r: PortalMap)
        ensures
            r.wf(),
            r@ == map_of(pairs_view(pairs@)),
            unique_keys(pairs_view(pairs@)) ==> r.pairs() == pairs_view(pairs@),
    {
        let mut r = PortalMap::new();
        let mut i: usize = 0;
        let ghost ps = pairs_view(pairs@);
        while i < pairs.len()
            invariant
                i <= pairs@.len(),
                ps == pairs_view(pairs@),
                r.wf(),
                r@ == map_of(ps.take(i as int)),
                unique_keys(ps) ==> r.pairs() == ps.take(i as int),
            decreases pairs@.len() - i,
        {
            let k = pairs[i].0.clone();
            let v = pairs[i].1.clone();
            assert(ps.take(i + 1).drop_last() =~= ps.take(i as int));
            assert(ps.take(i + 1) =~= ps.take(i as int).push((k@, v@)));
            proof {
                lemma_map_of_domain(ps.take(i as int), k@);
                if unique_keys(ps) && map_of(ps.take(i as int)).contains_key(k@) {
                    let j = choose|j: int| has_key_at(ps.take(i as int), k@, j);
                    assert(ps[j].0 == ps[i as int].0);
                }
            }
            r.insert(k, v);
            i = i + 1;
        }
        assert(ps.take(i as int) =~= ps);
        r
    }

    /// The stored pairs, in order.
    pub fn to_pairs(&self) -> (r: Vec<(String, String)>)
        requires
            self.wf(),
        ensures
            pairs_view(r@) == self.pairs(),
            map_of(pairs_view(r@)) == self@,
            unique_keys(pairs_view(r@)),
    {
        let mut r: Vec<(String, String)> = Vec::new();
        let mut i: usize = 0;
        while i < self.entries.len()
            invariant
                i <= self.entries@.len(),
                pairs_view(r@) =~= self.pairs().take(i as int),
            decreases self.entries@.len() - i,
        {
            let k = self.entries[i].0.clone();
            let v = self.entries[i].1.clone();
            let ghost before = r@;
            r.push((k, v));
            assert(r@ =~= before.push((k, v)));
            assert(pairs_view(r@) =~= pairs_view(before).push((k@, v@)));
            assert(self.pairs().take(i + 1) =~= self.pairs().take(i as int).push(self.pairs()[i as int]));
            i = i + 1;
        }
        assert(self.pairs().take(i as int) =~= self.pairs());
        r
    }
}

} // verus!
