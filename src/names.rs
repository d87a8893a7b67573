use vstd::prelude::*;

verus! {

/// A map from names to values, kept as a list of distinct names.
pub struct NameMap<V> {
    entries: Vec<(String, V)>,
    contents: Ghost<Map<Seq<char>, V>>,
}

impl<V> View for NameMap<V> {
    type V = Map<Seq<char>, V>;

    closed spec fn view(&self) -> Map<Seq<char>, V> {
        self.contents@
    }
}

impl<V> NameMap<V> {
    /// The list holds each name once, and exactly the names of the map, each
    /// with its value.
    pub closed spec fn wf(&self) -> bool {
        &&& forall|i: int, j: int|
            0 <= i < j < self.entries@.len() ==> self.entries@[i].0@ != self.entries@[j].0@
        &&& forall|i: int|
            0 <= i < self.entries@.len() ==> #[trigger] self.contents@.contains_key(self.entries@[i].0@)
                && self.contents@[self.entries@[i].0@] == self.entries@[i].1
        &&& forall|k: Seq<char>|
            #[trigger] self.contents@.contains_key(k) ==> exists|i: int|
                0 <= i < self.entries@.len() && self.entries@[i].0@ == k
    }

    pub fn new() -> (r: Self)
        ensures
            r.wf(),
            r@ == Map::<Seq<char>, V>::empty(),
    {
        NameMap { entries: Vec::new(), contents: Ghost(Map::empty()) }
    }

    /// The place of `key` in the list, if it is there.
    fn find(&self, key: &String) -> (r: Option<usize>)
        requires
            self.wf(),
        ensures
            r is Some == self@.contains_key(key@),
            r is Some ==> r->Some_0 < self.entries@.len() && self.entries@[r->Some_0 as int].0@ == key@,
    {
        let mut i: usize = 0;
        while i < self.entries.len()
            invariant
                self.wf(),
                0 <= i <= self.entries@.len(),
                forall|j: int| 0 <= j < i ==> self.entries@[j].0@ != key@,
            decreases self.entries.len() - i,
        {
            if self.entries[i].0 == *key {
                return Some(i);
            }
            i = i + 1;
        }
        None
    }

    pub fn len(&self) -> (r: usize)
        requires
            self.wf(),
        ensures
            r == self@.len(),
    {
        proof {
            self.lemma_len();
        }
        self.entries.len()
    }

    proof fn lemma_len(&self)
        requires
            self.wf(),
        ensures
            self@.len() == self.entries@.len(),
        decreases self.entries@.len(),
    {
        let names = self.entries@.map_values(|e: (String, V)| e.0@);
        assert(self@.dom() =~= names.to_set()) by {
            assert forall|k: Seq<char>| self@.dom().contains(k) implies names.to_set().contains(k) by {
                let i = choose|i: int| 0 <= i < self.entries@.len() && self.entries@[i].0@ == k;
                assert(names[i] == k);
            }
            assert forall|k: Seq<char>| names.to_set().contains(k) implies self@.dom().contains(k) by {
                let i = choose|i: int| 0 <= i < names.len() && names[i] == k;
                assert(self.contents@.contains_key(self.entries@[i].0@));
            }
        }
        assert(names.no_duplicates()) by {
            assert forall|i: int, j: int| 0 <= i < names.len() && 0 <= j < names.len() && i != j implies names[i] != names[j] by {
                if i < j {
                    assert(self.entries@[i].0@ != self.entries@[j].0@);
                } else {
                    assert(self.entries@[j].0@ != self.entries@[i].0@);
                }
            }
        }
        names.unique_seq_to_set();
    }

    pub fn contains_key(&self, name: &str) -> (r: bool)
        requires
            self.wf(),
        ensures
            r == self@.contains_key(name@),
    {
        let key = name.to_owned();
        self.find(&key).is_some()
    }

    pub fn get(&self, name: &str) -> (r: Option<&V>)
        requires
            self.wf(),
        ensures
            r is Some == self@.contains_key(name@),
            r is Some ==> *r->Some_0 == self@[name@],
    {
        let key = name.to_owned();
        match self.find(&key) {
            Some(i) => Some(&self.entries[i].1),
            None => None,
        }
    }

    /// Binds `name` to `v`, and hands back the value it replaces.
    pub fn insert(&mut self, name: &str, v: V) -> (r: Option<V>)
        requires
            old(self).wf(),
        ensures
            final(self).wf(),
            final(self)@ == old(self)@.insert(name@, v),
            r is Some == old(self)@.contains_key(name@),
            r is Some ==> r->Some_0 == old(self)@[name@],
    {
        let key = name.to_owned();
        let ghost before = self.entries@;
        match self.find(&key) {
            Some(i) => {
                let ghost value = v;
                let mut previous = v;
                std::mem::swap(&mut self.entries[i].1, &mut previous);
                self.contents = Ghost(self.contents@.insert(name@, value));
                proof {
                    assert(self.entries@[i as int].0@ == name@);
                    assert forall|j: int| 0 <= j < self.entries@.len() && j != i implies self.entries@[j] == before[j] by {}
                    assert forall|k: Seq<char>| #[trigger] self.contents@.contains_key(k) implies exists|j: int|
                        0 <= j < self.entries@.len() && self.entries@[j].0@ == k by {
                        if k != name@ {
                            let j = choose|j: int| 0 <= j < before.len() && before[j].0@ == k;
                            assert(self.entries@[j].0@ == k);
                        }
                    }
                }
                Some(previous)
            },
            None => {
                let ghost value = v;
                self.entries.push((key, v));
                self.contents = Ghost(self.contents@.insert(name@, value));
                proof {
                    let n = before.len() as int;
                    assert(self.entries@[n].0@ == name@);
                    assert forall|j: int| 0 <= j < n implies self.entries@[j] == before[j] by {}
                    assert forall|k: Seq<char>| #[trigger] self.contents@.contains_key(k) implies exists|j: int|
                        0 <= j < self.entries@.len() && self.entries@[j].0@ == k by {
                        if k != name@ {
                            let j = choose|j: int| 0 <= j < before.len() && before[j].0@ == k;
                            assert(self.entries@[j].0@ == k);
                        }
                    }
                }
                None
            },
        }
    }
}

} // verus!
