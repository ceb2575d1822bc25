use vstd::prelude::*;

verus! {

/// A small map from text keys to values that keeps its keys in order of first insertion.
pub struct KeyedVec<V> {
    entries: Vec<(String, V)>,
    contents: Ghost<Map<Seq<char>, V>>,
}

impl<V> KeyedVec<V> {
    /// The key-value mapping held.
    pub closed spec fn map(&self) -> Map<Seq<char>, V> {
        self.contents@
    }

    /// The keys held, in order of first insertion.
    pub closed spec fn keys(&self) -> Seq<Seq<char>> {
        self.entries@.map_values(|e: (String, V)| e.0@)
    }

    pub closed spec fn wf(&self) -> bool {
        &&& self.keys().no_duplicates()
        &&& forall|k: Seq<char>| #[trigger]
            self.contents@.contains_key(k) <==> self.keys().contains(k)
        &&& forall|i: int|
            0 <= i < self.entries@.len() ==> #[trigger] self.contents@[self.entries@[i].0@]
                == self.entries@[i].1
    }

    pub proof fn lemma_keys(&self)
        requires
            self.wf(),
        ensures
            self.keys().no_duplicates(),
            forall|k: Seq<char>| #[trigger] self.map().contains_key(k) <==> self.keys().contains(k),
    {
    }

    pub fn new() -> (r: Self)
        ensures
            r.wf(),
            r.map() == Map::<Seq<char>, V>::empty(),
            r.keys() == Seq::<Seq<char>>::empty(),
    {
        let r = KeyedVec { entries: Vec::new(), contents: Ghost(Map::empty()) };
        assert(r.keys() =~= Seq::<Seq<char>>::empty());
        r
    }

    pub fn len(&self) -> (r: usize)
        ensures
            r == self.keys().len(),
    {
        self.entries.len()
    }

    fn find(&self, k: &String) -> (r: Option<usize>)
        requires
            self.wf(),
        ensures
            match r {
                Some(i) => i < self.keys().len() && self.keys()[i as int] == k@,
                None => !self.map().contains_key(k@),
            },
    {
        let mut i: usize = 0;
        while i < self.entries.len()
            invariant
                self.wf(),
                i <= self.entries@.len(),
                forall|j: int| 0 <= j < i ==> self.keys()[j] != k@,
            decreases self.entries@.len() - i,
        {
            if self.entries[i].0 == *k {
                return Some(i);
            }
            i = i + 1;
        }
        proof {
            if self.keys().contains(k@) {
                let j = choose|j: int| 0 <= j < self.keys().len() && self.keys()[j] == k@;
                assert(self.keys()[j] == k@);
            }
        }
        None
    }

    /// The key and value stored at position `i` of the key order.
    pub fn entry(&self, i: usize) -> (r: (&String, &V))
        requires
            self.wf(),
            i < self.keys().len(),
        ensures
            r.0@ == self.keys()[i as int],
            self.map().contains_key(self.keys()[i as int]),
            *r.1 == self.map()[self.keys()[i as int]],
    {
        assert(self.keys().contains(self.keys()[i as int]));
        let e = &self.entries[i];
        (&e.0, &e.1)
    }

    pub fn get(&self, k: &String) -> (r: Option<&V>)
        requires
            self.wf(),
        ensures
            match r {
                Some(v) => self.map().contains_key(k@) && *v == self.map()[k@],
                None => !self.map().contains_key(k@),
            },
    {
        match self.find(k) {
            Some(i) => {
                assert(self.keys().contains(k@));
                Some(&self.entries[i].1)
            },
            None => None,
        }
    }

    /// Stores `v` under `k`, replacing any earlier value; a new key goes last in the order.
    pub fn upsert(&mut self, k: String, v: V)
        requires
            old(self).wf(),
        ensures
            final(self).wf(),
            final(self).map() == old(self).map().insert(k@, v),
            final(self).keys() == if old(self).map().contains_key(k@) {
                old(self).keys()
            } else {
                old(self).keys().push(k@)
            },
    {
        let ghost kv = k@;
        let ghost old_keys = self.keys();
        let ghost old_map = self.contents@;
        match self.find(&k) {
            Some(i) => {
                self.entries.set(i, (k, v));
                self.contents = Ghost(self.contents@.insert(kv, v));
                assert(self.keys() =~= old_keys);
                assert forall|j: int| 0 <= j < self.entries@.len() implies #[trigger]
                    self.contents@[self.entries@[j].0@] == self.entries@[j].1 by {
                    if j != i {
                        assert(old_keys[j] != old_keys[i as int]);
                    }
                }
            },
            None => {
                self.entries.push((k, v));
                self.contents = Ghost(self.contents@.insert(kv, v));
                assert(self.keys() =~= old_keys.push(kv));
                assert forall|j: int| 0 <= j < self.entries@.len() implies #[trigger]
                    self.contents@[self.entries@[j].0@] == self.entries@[j].1 by {
                    if j < old_keys.len() {
                        assert(old_keys.contains(old_keys[j]));
                    }
                }
                assert forall|kk: Seq<char>| #[trigger]
                    self.contents@.contains_key(kk) <==> self.keys().contains(kk) by {
                    assert(old_map.contains_key(kk) <==> old_keys.contains(kk));
                    if kk == kv {
                        assert(self.keys()[old_keys.len() as int] == kv);
                    }
                    if kk != kv && self.keys().contains(kk) {
                        let j = choose|j: int| 0 <= j < self.keys().len() && self.keys()[j] == kk;
                        assert(old_keys[j] == kk);
                    }
                    if old_keys.contains(kk) {
                        let j = choose|j: int| 0 <= j < old_keys.len() && old_keys[j] == kk;
                        assert(self.keys()[j] == kk);
                    }
                }
            },
        }
    }
}

} // verus!
