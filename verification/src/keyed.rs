//! A map keyed by strings, held as a list of entries with distinct keys.
use vstd::prelude::*;

verus! {

/// A map from string keys to values.
pub struct KeyedMap<V> {
    entries: Vec<(String, V)>,
    contents: Ghost<Map<Seq<char>, V>>,
}

impl<V> View for KeyedMap<V> {
    type V = Map<Seq<char>, V>;

    closed spec fn view(&self) -> Map<Seq<char>, V> {
        self.contents@
    }
}

impl<V> KeyedMap<V> {
    /// The entries hold each key once, and the map of keys to values is
    /// the view.
    #[verifier::type_invariant]
    spec fn entries_match(self) -> bool {
        &&& forall|i: int, j: int|
            0 <= i < j < self.entries@.len() ==> self.entries@[i].0@ != self.entries@[j].0@
        &&& forall|k: Seq<char>|
            self.contents@.contains_key(k) <==> exists|i: int|
                0 <= i < self.entries@.len() && #[trigger] self.entries@[i].0@ == k
        &&& forall|i: int|
            0 <= i < self.entries@.len() ==> #[trigger] self.contents@[self.entries@[i].0@]
                == self.entries@[i].1
    }

    /// An empty map.
    pub fn new() -> (m: KeyedMap<V>)
        ensures
            m@ == Map::<Seq<char>, V>::empty(),
    {
        KeyedMap { entries: Vec::new(), contents: Ghost(Map::empty()) }
    }

    /// The index of the entry for `key`.
    fn position(&self, key: &String) -> (r: Option<usize>)
        ensures
            match r {
                Some(i) => i < self.entries@.len() && self.entries@[i as int].0@ == key@,
                None => !self@.contains_key(key@),
            },
    {
        proof {
            use_type_invariant(self);
        }
        let n = self.entries.len();
        let mut i: usize = 0;
        while i < n
            invariant
                i <= n,
                n == self.entries@.len(),
                forall|j: int| 0 <= j < i ==> self.entries@[j].0@ != key@,
            decreases n - i,
        {
            if self.entries[i].0 == *key {
                return Some(i);
            }
            i = i + 1;
        }
        None
    }

    /// The value held for `key`.
    pub fn get(&self, key: &str) -> (r: Option<&V>)
        ensures
            match r {
                Some(v) => self@.contains_key(key@) && *v == self@[key@],
                None => !self@.contains_key(key@),
            },
    {
        proof {
            use_type_invariant(self);
        }
        let k = key.to_owned();
        match self.position(&k) {
            Some(i) => Some(&self.entries[i].1),
            None => None,
        }
    }

    /// Holds `value` for `key`, in place of any value held before.
    pub fn insert(&mut self, key: &str, value: V)
        ensures
            final(self)@ == old(self)@.insert(key@, value),
    {
        proof {
            use_type_invariant(&*self);
        }
        let k = key.to_owned();
        let found = self.position(&k);
        let mut taken = KeyedMap::new();
        std::mem::swap(self, &mut taken);
        proof {
            use_type_invariant(&taken);
        }
        let ghost before = taken.contents@;
        let ghost after = before.insert(key@, value);
        let KeyedMap { mut entries, contents } = taken;
        let ghost old_entries = entries@;
        match found {
            Some(i) => {
                entries.set(i, (k, value));
                proof {
                    assert forall|j: int| 0 <= j < entries@.len() implies #[trigger] after[entries@[j].0@]
                        == entries@[j].1 by {
                        if j != i {
                            assert(old_entries[j].0@ != old_entries[i as int].0@);
                        }
                    }
                    assert forall|j: int, l: int| 0 <= j < l < entries@.len() implies entries@[j].0@
                        != entries@[l].0@ by {
                        if j == i as int {
                            assert(old_entries[l].0@ != old_entries[i as int].0@);
                        } else if l == i as int {
                            assert(old_entries[j].0@ != old_entries[i as int].0@);
                        }
                    }
                    assert forall|q: Seq<char>|
                        after.contains_key(q) implies exists|j: int|
                            0 <= j < entries@.len() && #[trigger] entries@[j].0@ == q by {
                        if q != key@ {
                            assert(before.contains_key(q));
                            let j = choose|j: int|
                                0 <= j < old_entries.len() && #[trigger] old_entries[j].0@ == q;
                            assert(entries@[j].0@ == q);
                        } else {
                            assert(entries@[i as int].0@ == q);
                        }
                    }
                }
            },
            None => {
                let ghost old_len = entries@.len();
                entries.push((k, value));
                proof {
                    assert forall|j: int| 0 <= j < old_len implies old_entries[j].0@ != key@ by {
                        assert(before.contains_key(old_entries[j].0@));
                    }
                    assert forall|j: int| 0 <= j < entries@.len() implies #[trigger] after[entries@[j].0@]
                        == entries@[j].1 by {
                        if j < old_len {
                            assert(entries@[j] == old_entries[j]);
                        }
                    }
                    assert forall|q: Seq<char>|
                        after.contains_key(q) implies exists|j: int|
                            0 <= j < entries@.len() && #[trigger] entries@[j].0@ == q by {
                        if q != key@ {
                            assert(before.contains_key(q));
                            let j = choose|j: int|
                                0 <= j < old_entries.len() && #[trigger] old_entries[j].0@ == q;
                            assert(entries@[j].0@ == q);
                        } else {
                            assert(entries@[old_len as int].0@ == q);
                        }
                    }
                    assert forall|j: int| 0 <= j < old_len implies entries@[j].0@ != key@ by {
                        assert(before.contains_key(old_entries[j].0@));
                    }
                }
            },
        }
        assert(forall|i: int, j: int|
            0 <= i < j < entries@.len() ==> entries@[i].0@ != entries@[j].0@);
        assert(forall|q: Seq<char>|
            after.contains_key(q) <==> exists|i: int|
                0 <= i < entries@.len() && #[trigger] entries@[i].0@ == q);
        assert(forall|i: int|
            0 <= i < entries@.len() ==> #[trigger] after[entries@[i].0@] == entries@[i].1);
        let ghost rebuilt = KeyedMap { entries: entries, contents: Ghost(after) };
        assert(rebuilt.entries@ == entries@ && rebuilt.contents@ == after);
        assert(rebuilt.entries_match());
        *self = KeyedMap { entries, contents: Ghost(after) };
    }
}

} // verus!
