use crate::aid::AidKey;
use vstd::prelude::*;

verus! {

/// A table keyed by actor identity, holding at most one entry per key.
/// Entries keep the order in which their keys first arrived, which is one of
/// the orders a hash map may walk them in.
///
/// An actor's identity is a pair of UUIDs. vstd specifies std's hash maps
/// only for keys of primitive types (integers, `bool`, boxes of them), not
/// for tuples or structs, so a std map keyed by the pair would come with no
/// contract. A single integer cannot hold both UUIDs, and a map of maps keyed
/// by one UUID each would leave the order in which the table is walked (the
/// order of a broadcast, or of the shutdown of monitored actors) to a hasher
/// seeded per process, so those operations could be stated only up to a
/// permutation. The table keeps its entries in a vector with distinct keys,
/// states what it holds as a map, and fixes the walk order as arrival order.
pub struct AidTable<V> {
    entries: Vec<(AidKey, V)>,
    map: Ghost<Map<AidKey, V>>,
}

/// The entries of a table describe the map `m`: their keys are distinct and
/// they are exactly the pairs of `m`.
pub open spec fn entries_match<V>(entries: Seq<(AidKey, V)>, m: Map<AidKey, V>) -> bool {
    &&& forall|i: int, j: int|
        0 <= i < j < entries.len() ==> #[trigger] entries[i].0 != #[trigger] entries[j].0
    &&& forall|i: int|
        0 <= i < entries.len() ==> #[trigger] m.contains_key(entries[i].0) && m[entries[i].0]
            == entries[i].1
    &&& forall|k: AidKey| #[trigger]
        m.contains_key(k) ==> exists|i: int| 0 <= i < entries.len() && entries[i].0 == k
}

impl<V> View for AidTable<V> {
    type V = Map<AidKey, V>;

    closed spec fn view(&self) -> Map<AidKey, V> {
        self.map@
    }
}

impl<V> AidTable<V> {
    /// The entries in table order.
    pub closed spec fn entries_spec(&self) -> Seq<(AidKey, V)> {
        self.entries@
    }

    /// Well-formedness: the entries describe the view.
    pub closed spec fn wf(&self) -> bool {
        entries_match(self.entries@, self.map@)
    }

    /// An empty table.
    pub fn new() -> (r: Self)
        ensures
            r.wf(),
            r@ == Map::<AidKey, V>::empty(),
            r.entries_spec() == Seq::<(AidKey, V)>::empty(),
    {
        AidTable { entries: Vec::new(), map: Ghost(Map::empty()) }
    }

    fn find(&self, key: &AidKey) -> (r: Option<usize>)
        requires
            self.wf(),
        ensures
            match r {
                Some(i) => i < self.entries@.len() && self.entries@[i as int].0 == *key,
                None => !self@.contains_key(*key),
            },
    {
        let mut i: usize = 0;
        while i < self.entries.len()
            invariant
                i <= self.entries@.len(),
                forall|j: int| 0 <= j < i ==> self.entries@[j].0 != *key,
            decreases self.entries@.len() - i,
        {
            if self.entries[i].0 == *key {
                return Some(i);
            }
            i = i + 1;
        }
        None
    }

    /// Whether the table has an entry for `key`.
    pub fn contains(&self, key: &AidKey) -> (r: bool)
        requires
            self.wf(),
        ensures
            r == self@.contains_key(*key),
    {
        match self.find(key) {
            Some(i) => true,
            None => false,
        }
    }

    /// The value stored under `key`.
    pub fn get(&self, key: &AidKey) -> (r: Option<&V>)
        requires
            self.wf(),
        ensures
            match r {
                Some(v) => self@.contains_key(*key) && self@[*key] == *v,
                None => !self@.contains_key(*key),
            },
    {
        match self.find(key) {
            Some(i) => Some(&self.entries[i].1),
            None => None,
        }
    }

    /// Stores `value` under `key`, replacing and returning an earlier value.
    /// A new key goes to the end of the table order.
    pub fn insert(&mut self, key: AidKey, value: V) -> (r: Option<V>)
        requires
            old(self).wf(),
        ensures
            final(self).wf(),
            final(self)@ == old(self)@.insert(key, value),
            match r {
                Some(v) => old(self)@.contains_key(key) && old(self)@[key] == v,
                None => !old(self)@.contains_key(key),
            },
            !old(self)@.contains_key(key) ==> final(self).entries_spec() == old(
                self,
            ).entries_spec().push((key, value)),
    {
        match self.find(&key) {
            Some(i) => {
                let ghost m = self.map@;
                let ghost before = self.entries@;
                proof {
                    assert(m.contains_key(before[i as int].0));
                }
                let (_, previous) = self.entries.remove(i);
                self.entries.insert(i, (key, value));
                self.map = Ghost(m.insert(key, value));
                proof {
                    let e = self.entries@;
                    assert(e =~= before.update(i as int, (key, value)));
                    assert forall|a: int, b: int| 0 <= a < b < e.len() implies #[trigger] e[a].0
                        != #[trigger] e[b].0 by {
                        if a != i && b != i {
                            assert(e[a] == before[a] && e[b] == before[b]);
                        } else if a == i {
                            assert(e[b] == before[b]);
                        } else {
                            assert(e[a] == before[a]);
                        }
                    }
                    assert forall|j: int| 0 <= j < e.len() implies #[trigger] self.map@.contains_key(
                        e[j].0,
                    ) && self.map@[e[j].0] == e[j].1 by {
                        if j != i {
                            assert(e[j] == before[j]);
                        }
                    }
                    assert forall|k: AidKey| #[trigger]
                        self.map@.contains_key(k) implies exists|j: int|
                        0 <= j < e.len() && e[j].0 == k by {
                        if k != key {
                            let j = choose|j: int| 0 <= j < old(self).entries@.len() && old(self).entries@[j].0 == k;
                            assert(e[j].0 == k);
                        } else {
                            assert(e[i as int].0 == k);
                        }
                    }
                }
                Some(previous)
            },
            None => {
                let ghost m = self.map@;
                self.entries.push((key, value));
                self.map = Ghost(m.insert(key, value));
                proof {
                    let e = self.entries@;
                    assert forall|k: AidKey| #[trigger]
                        self.map@.contains_key(k) implies exists|j: int|
                        0 <= j < e.len() && e[j].0 == k by {
                        if k != key {
                            let j = choose|j: int| 0 <= j < old(self).entries@.len() && old(self).entries@[j].0 == k;
                            assert(e[j].0 == k);
                        } else {
                            assert(e[e.len() - 1].0 == k);
                        }
                    }
                }
                None
            },
        }
    }

    /// Stores `value` under `key` unless the key is already present, in
    /// which case the table is left as it is. Returns whether it stored.
    pub fn insert_absent(&mut self, key: AidKey, value: V) -> (r: bool)
        requires
            old(self).wf(),
        ensures
            final(self).wf(),
            r == !old(self)@.contains_key(key),
            final(self)@ == (if r { old(self)@.insert(key, value) } else { old(self)@ }),
            r ==> final(self).entries_spec() == old(self).entries_spec().push((key, value)),
            !r ==> final(self).entries_spec() == old(self).entries_spec(),
    {
        if self.contains(&key) {
            false
        } else {
            self.insert(key, value);
            true
        }
    }

    /// Takes the entry for `key` out of the table, returning its value.
    pub fn remove(&mut self, key: &AidKey) -> (r: Option<V>)
        requires
            old(self).wf(),
        ensures
            final(self).wf(),
            final(self)@ == old(self)@.remove(*key),
            match r {
                Some(v) => old(self)@.contains_key(*key) && old(self)@[*key] == v,
                None => !old(self)@.contains_key(*key),
            },
    {
        match self.find(key) {
            Some(i) => {
                let ghost m = self.map@;
                let ghost before = self.entries@;
                proof {
                    assert(m.contains_key(before[i as int].0));
                }
                let (_, v) = self.entries.remove(i);
                self.map = Ghost(m.remove(*key));
                proof {
                    let e = self.entries@;
                    assert forall|j: int| 0 <= j < e.len() implies #[trigger] self.map@.contains_key(
                        e[j].0,
                    ) && self.map@[e[j].0] == e[j].1 by {
                        if j < i {
                            assert(e[j] == before[j]);
                        } else {
                            assert(e[j] == before[j + 1]);
                        }
                    }
                    assert forall|k: AidKey| #[trigger]
                        self.map@.contains_key(k) implies exists|j: int|
                        0 <= j < e.len() && e[j].0 == k by {
                        let j = choose|j: int| 0 <= j < before.len() && before[j].0 == k;
                        if j < i {
                            assert(e[j].0 == k);
                        } else {
                            assert(e[j - 1].0 == k);
                        }
                    }
                }
                Some(v)
            },
            None => {
                proof {
                    assert(self.map@.remove(*key) =~= self.map@);
                }
                None
            },
        }
    }

    /// Empties the table, returning its entries in table order.
    pub fn drain(&mut self) -> (r: Vec<(AidKey, V)>)
        requires
            old(self).wf(),
        ensures
            final(self).wf(),
            final(self)@ == Map::<AidKey, V>::empty(),
            final(self).entries_spec() == Seq::<(AidKey, V)>::empty(),
            r@ == old(self).entries_spec(),
            entries_match(r@, old(self)@),
    {
        let mut taken = Vec::new();
        std::mem::swap(&mut taken, &mut self.entries);
        self.map = Ghost(Map::empty());
        taken
    }

    /// The entries in table order.
    pub fn entries(&self) -> (r: &[(AidKey, V)])
        requires
            self.wf(),
        ensures
            r@ == self.entries_spec(),
            entries_match(r@, self@),
    {
        self.entries.as_slice()
    }
}

} // verus!
