use vstd::prelude::*;

verus! {

/// The map that a list of (path, value) pairs describes when it is read in
/// order, a later pair for a path replacing an earlier one.
pub open spec fn pairs_map<V>(s: Seq<(String, V)>) -> Map<Seq<char>, V>
    decreases s.len(),
{
    if s.len() == 0 {
        Map::empty()
    } else {
        pairs_map(s.drop_last()).insert(s.last().0@, s.last().1)
    }
}

/// No path occurs twice.
pub open spec fn unique_paths<V>(s: Seq<(String, V)>) -> bool {
    forall|i: int, j: int|
        0 <= i < s.len() && 0 <= j < s.len() && i != j ==> #[trigger] s[i].0@ != #[trigger] s[j].0@
}

pub proof fn lemma_pairs_map_dom<V>(s: Seq<(String, V)>, k: Seq<char>)
    ensures
        pairs_map(s).contains_key(k) <==> exists|i: int| 0 <= i < s.len() && #[trigger] s[i].0@ == k,
    decreases s.len(),
{
    if s.len() > 0 {
        let t = s.drop_last();
        lemma_pairs_map_dom(t, k);
        if pairs_map(t).contains_key(k) {
            let i = choose|i: int| 0 <= i < t.len() && #[trigger] t[i].0@ == k;
            assert(s[i].0@ == k);
        }
        if exists|i: int| 0 <= i < s.len() && #[trigger] s[i].0@ == k {
            let i = choose|i: int| 0 <= i < s.len() && #[trigger] s[i].0@ == k;
            if i < s.len() - 1 {
                assert(t[i].0@ == k);
            }
        }
    }
}

pub proof fn lemma_pairs_map_index<V>(s: Seq<(String, V)>, i: int)
    requires
        unique_paths(s),
        0 <= i < s.len(),
    ensures
        pairs_map(s).contains_key(s[i].0@),
        pairs_map(s)[s[i].0@] == s[i].1,
    decreases s.len(),
{
    let t = s.drop_last();
    if i < s.len() - 1 {
        assert(unique_paths(t)) by {
            assert forall|a: int, b: int|
                0 <= a < t.len() && 0 <= b < t.len() && a != b implies #[trigger] t[a].0@
                != #[trigger] t[b].0@ by {
                assert(s[a].0@ != s[b].0@);
            }
        }
        lemma_pairs_map_index(t, i);
        assert(s[i].0@ != s[s.len() - 1].0@);
        assert(t[i] == s[i]);
    }
}

pub proof fn lemma_pairs_map_update<V>(s: Seq<(String, V)>, i: int, p: (String, V))
    requires
        unique_paths(s),
        0 <= i < s.len(),
        p.0@ == s[i].0@,
    ensures
        pairs_map(s.update(i, p)) == pairs_map(s).insert(p.0@, p.1),
    decreases s.len(),
{
    let u = s.update(i, p);
    let t = s.drop_last();
    if i == s.len() - 1 {
        assert(u.drop_last() =~= t);
        assert(pairs_map(u) =~= pairs_map(s).insert(p.0@, p.1));
    } else {
        assert(unique_paths(t)) by {
            assert forall|a: int, b: int|
                0 <= a < t.len() && 0 <= b < t.len() && a != b implies #[trigger] t[a].0@
                != #[trigger] t[b].0@ by {
                assert(s[a].0@ != s[b].0@);
            }
        }
        lemma_pairs_map_update(t, i, p);
        assert(u.drop_last() =~= t.update(i, p));
        assert(s[i].0@ != s.last().0@);
        assert(pairs_map(u) =~= pairs_map(s).insert(p.0@, p.1));
    }
}

/// A map keyed by signal path, kept as a list of pairs with no path twice.
pub struct PathMap<V> {
    pairs: Vec<(String, V)>,
}

impl<V> View for PathMap<V> {
    type V = Map<Seq<char>, V>;

    closed spec fn view(&self) -> Map<Seq<char>, V> {
        pairs_map(self.pairs@)
    }
}

impl<V> PathMap<V> {
    pub closed spec fn pairs_seq(&self) -> Seq<(String, V)> {
        self.pairs@
    }

    pub closed spec fn wf(&self) -> bool {
        unique_paths(self.pairs@)
    }

    pub fn new() -> (r: Self)
        ensures
            r.wf(),
            r@ == Map::<Seq<char>, V>::empty(),
    {
        PathMap { pairs: Vec::new() }
    }

    pub fn len(&self) -> (r: usize)
        requires
            self.wf(),
        ensures
            r == self@.dom().len(),
    {
        proof {
            self.lemma_dom_len();
        }
        self.pairs.len()
    }

    proof fn lemma_dom_len(&self)
        requires
            self.wf(),
        ensures
            self@.dom().len() == self.pairs@.len(),
            self@.dom().finite(),
    {
        lemma_pairs_map_dom_len(self.pairs@);
    }

    fn index_of(&self, path: &str) -> (r: Option<usize>)
        requires
            self.wf(),
        ensures
            match r {
                Some(i) => i < self.pairs@.len() && self.pairs@[i as int].0@ == path@,
                None => !self@.contains_key(path@),
            },
    {
        let key = path.to_owned();
        let mut i: usize = 0;
        while i < self.pairs.len()
            invariant
                i <= self.pairs@.len(),
                key@ == path@,
                forall|j: int| 0 <= j < i ==> #[trigger] self.pairs@[j].0@ != path@,
            decreases self.pairs@.len() - i,
        {
            if self.pairs[i].0.eq(&key) {
                return Some(i);
            }
            i = i + 1;
        }
        proof {
            lemma_pairs_map_dom(self.pairs@, path@);
        }
        None
    }

    pub fn contains_key(&self, path: &str) -> (r: bool)
        requires
            self.wf(),
        ensures
            r == self@.contains_key(path@),
    {
        match self.index_of(path) {
            Some(i) => {
                proof {
                    lemma_pairs_map_index(self.pairs@, i as int);
                }
                true
            },
            None => false,
        }
    }

    pub fn get(&self, path: &str) -> (r: Option<&V>)
        requires
            self.wf(),
        ensures
            match r {
                Some(v) => self@.contains_key(path@) && self@[path@] == *v,
                None => !self@.contains_key(path@),
            },
    {
        match self.index_of(path) {
            Some(i) => {
                proof {
                    lemma_pairs_map_index(self.pairs@, i as int);
                }
                Some(&self.pairs[i].1)
            },
            None => None,
        }
    }

    pub fn insert(&mut self, path: String, value: V)
        requires
            old(self).wf(),
        ensures
            final(self).wf(),
            final(self)@ == old(self)@.insert(path@, value),
    {
        match self.index_of(path.as_str()) {
            Some(i) => {
                proof {
                    lemma_pairs_map_update(self.pairs@, i as int, (path, value));
                }
                let ghost before = self.pairs@;
                self.pairs.set(i, (path, value));
                proof {
                    assert forall|a: int, b: int|
                        0 <= a < self.pairs@.len() && 0 <= b < self.pairs@.len() && a != b implies
                        #[trigger] self.pairs@[a].0@ != #[trigger] self.pairs@[b].0@ by {
                        assert(before[a].0@ != before[b].0@);
                    }
                }
            },
            None => {
                let ghost before = self.pairs@;
                let ghost key = path@;
                self.pairs.push((path, value));
                proof {
                    assert(self.pairs@.drop_last() =~= before);
                    assert forall|a: int, b: int|
                        0 <= a < self.pairs@.len() && 0 <= b < self.pairs@.len() && a != b implies
                        #[trigger] self.pairs@[a].0@ != #[trigger] self.pairs@[b].0@ by {
                        if a < before.len() && b < before.len() {
                            assert(before[a].0@ != before[b].0@);
                        } else if a < before.len() {
                            lemma_pairs_map_dom(before, key);
                            assert(before[a].0@ != key);
                        } else {
                            lemma_pairs_map_dom(before, key);
                            assert(before[b].0@ != key);
                        }
                    }
                }
            },
        }
    }

    /// The pairs, each path once, in the order in which paths first came in.
    pub fn into_pairs(self) -> (r: Vec<(String, V)>)
        requires
            self.wf(),
        ensures
            r@ == self.pairs_seq(),
            unique_paths(r@),
            pairs_map(r@) == self@,
    {
        self.pairs
    }

    /// The path and value at one position of the pairs.
    pub fn pair_at(&self, i: usize) -> (r: &(String, V))
        requires
            self.wf(),
            i < self.pairs_seq().len(),
        ensures
            *r == self.pairs_seq()[i as int],
            self@.contains_key(r.0@),
            self@[r.0@] == r.1,
    {
        proof {
            lemma_pairs_map_index(self.pairs@, i as int);
        }
        &self.pairs[i]
    }

    pub fn pair_count(&self) -> (r: usize)
        ensures
            r == self.pairs_seq().len(),
    {
        self.pairs.len()
    }

    /// The map is what its pairs describe, and no path occurs twice among them.
    pub proof fn lemma_pairs(&self)
        requires
            self.wf(),
        ensures
            unique_paths(self.pairs_seq()),
            self@ == pairs_map(self.pairs_seq()),
    {
    }

    /// Every key of the map is the path of one of the pairs.
    pub proof fn lemma_key_has_pair(&self, k: Seq<char>)
        requires
            self.wf(),
            self@.contains_key(k),
        ensures
            exists|i: int| 0 <= i < self.pairs_seq().len() && #[trigger] self.pairs_seq()[i].0@ == k,
    {
        lemma_pairs_map_dom(self.pairs@, k);
        let i = choose|i: int| 0 <= i < self.pairs@.len() && #[trigger] self.pairs@[i].0@ == k;
        assert(self.pairs_seq()[i].0@ == k);
    }
}

pub proof fn lemma_pairs_map_dom_len<V>(s: Seq<(String, V)>)
    requires
        unique_paths(s),
    ensures
        pairs_map(s).dom().finite(),
        pairs_map(s).dom().len() == s.len(),
    decreases s.len(),
{
    if s.len() > 0 {
        let t = s.drop_last();
        assert(unique_paths(t)) by {
            assert forall|a: int, b: int|
                0 <= a < t.len() && 0 <= b < t.len() && a != b implies #[trigger] t[a].0@
                != #[trigger] t[b].0@ by {
                assert(s[a].0@ != s[b].0@);
            }
        }
        lemma_pairs_map_dom_len(t);
        lemma_pairs_map_dom(t, s.last().0@);
        if pairs_map(t).contains_key(s.last().0@) {
            let i = choose|i: int| 0 <= i < t.len() && #[trigger] t[i].0@ == s.last().0@;
            assert(s[i].0@ != s[s.len() - 1].0@);
        }
    }
}

} // verus!
