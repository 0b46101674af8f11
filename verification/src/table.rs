//! A small association table keyed by anything that can be compared for sameness.
use vstd::prelude::*;

verus! {

/// A key of a [`Table`].
pub trait Key: View + Sized {
    /// Whether two keys are the same.
    fn same(&self, other: &Self) -> (same: bool)
        ensures
            same == (self@ == other@),
    ;

    /// Another copy of the key.
    fn duplicate(&self) -> (copy: Self)
        ensures
            copy@ == self@,
    ;
}

/// A value that can be copied and compared.
pub trait Value: Sized {
    /// Whether two values are equal.
    fn same(&self, other: &Self) -> (same: bool)
        ensures
            same == (*self == *other),
    ;

    /// Another copy of the value.
    fn duplicate(&self) -> (copy: Self)
        ensures
            copy == *self,
    ;
}

/// The map that a list of entries stands for.
pub open spec fn entries_map<K: Key, V>(entries: Seq<(K, V)>) -> Map<K::V, V>
    decreases entries.len(),
{
    if entries.len() == 0 {
        Map::empty()
    } else {
        entries_map(entries.drop_last()).insert(entries.last().0@, entries.last().1)
    }
}

/// Whether no two entries share a key.
pub open spec fn distinct_keys<K: Key, V>(entries: Seq<(K, V)>) -> bool {
    forall|i: int, j: int|
        0 <= i < j < entries.len() ==> (#[trigger] entries[i]).0@ != (#[trigger] entries[j]).0@
}

/// An association table.
pub struct Table<K: Key, V> {
    entries: Vec<(K, V)>,
}

impl<K: Key, V> View for Table<K, V> {
    type V = Map<K::V, V>;

    closed spec fn view(&self) -> Map<K::V, V> {
        entries_map(self.entries@)
    }
}

/// An entry of a list is in its map, and nothing else is.
proof fn lemma_entries<K: Key, V>(entries: Seq<(K, V)>)
    requires
        distinct_keys(entries),
    ensures
        forall|i: int|
            0 <= i < entries.len() ==> {
                &&& entries_map(entries).dom().contains((#[trigger] entries[i]).0@)
                &&& entries_map(entries)[entries[i].0@] == entries[i].1
            },
        forall|k: K::V|
            #[trigger] entries_map(entries).dom().contains(k) ==> exists|i: int|
                0 <= i < entries.len() && (#[trigger] entries[i]).0@ == k,
    decreases entries.len(),
{
    if entries.len() > 0 {
        let init = entries.drop_last();
        assert forall|i: int, j: int| 0 <= i < j < init.len() implies (#[trigger] init[i]).0@ != (
        #[trigger] init[j]).0@ by {
            assert(entries[i].0@ != entries[j].0@);
        }
        lemma_entries(init);
        assert forall|i: int| 0 <= i < entries.len() implies {
            &&& entries_map(entries).dom().contains((#[trigger] entries[i]).0@)
            &&& entries_map(entries)[entries[i].0@] == entries[i].1
        } by {
            if i < init.len() {
                assert(init[i] == entries[i]);
                assert(entries[i].0@ != entries[entries.len() - 1].0@);
            }
        }
        assert forall|k: K::V| #[trigger] entries_map(entries).dom().contains(k) implies exists|
            i: int,
        |
            0 <= i < entries.len() && (#[trigger] entries[i]).0@ == k by {
            if k == entries.last().0@ {
                assert(entries[entries.len() - 1].0@ == k);
            } else {
                assert(entries_map(init).dom().contains(k));
                let i = choose|i: int| 0 <= i < init.len() && (#[trigger] init[i]).0@ == k;
                assert(entries[i].0@ == k);
            }
        }
    }
}

/// Taking an entry out of a list takes its key out of the map.
proof fn lemma_entry_removed<K: Key, V>(entries: Seq<(K, V)>, at: int)
    requires
        distinct_keys(entries),
        0 <= at < entries.len(),
    ensures
        distinct_keys(entries.remove(at)),
        entries_map(entries.remove(at)) == entries_map(entries).remove(entries[at].0@),
{
    let rest = entries.remove(at);
    assert forall|i: int, j: int| 0 <= i < j < rest.len() implies (#[trigger] rest[i]).0@ != (
    #[trigger] rest[j]).0@ by {
        let a = if i < at {
            i
        } else {
            i + 1
        };
        let b = if j < at {
            j
        } else {
            j + 1
        };
        assert(entries[a].0@ != entries[b].0@);
    }
    lemma_entries(entries);
    lemma_entries(rest);
    let whole = entries_map(entries).remove(entries[at].0@);
    let map = entries_map(rest);
    assert forall|k: K::V| map.dom().contains(k) <==> whole.dom().contains(k) by {
        if map.dom().contains(k) {
            let i = choose|i: int| 0 <= i < rest.len() && (#[trigger] rest[i]).0@ == k;
            let a = if i < at {
                i
            } else {
                i + 1
            };
            assert(entries[a] == rest[i]);
            if a < at {
                assert(entries[a].0@ != entries[at].0@);
            } else {
                assert(entries[at].0@ != entries[a].0@);
            }
        }
        if whole.dom().contains(k) {
            let a = choose|a: int| 0 <= a < entries.len() && (#[trigger] entries[a]).0@ == k;
            let i = if a < at {
                a
            } else {
                a - 1
            };
            assert(rest[i] == entries[a]);
        }
    }
    assert forall|k: K::V| map.dom().contains(k) implies map[k] == whole[k] by {
        let i = choose|i: int| 0 <= i < rest.len() && (#[trigger] rest[i]).0@ == k;
        let a = if i < at {
            i
        } else {
            i + 1
        };
        assert(entries[a] == rest[i]);
        assert(map[rest[i].0@] == rest[i].1);
        assert(entries_map(entries)[entries[a].0@] == entries[a].1);
    }
    assert(map =~= whole);
}

impl<K: Key, V> Table<K, V> {
    #[verifier::type_invariant]
    spec fn inv(self) -> bool {
        distinct_keys(self.entries@)
    }

    /// An empty table.
    pub fn new() -> (table: Self)
        ensures
            table@ == Map::<K::V, V>::empty(),
    {
        Table { entries: Vec::new() }
    }

    /// Number of entries.
    pub fn len(&self) -> (count: usize)
        ensures
            count == self@.len(),
            self@.dom().finite(),
    {
        proof {
            use_type_invariant(self);
            lemma_entry_count(self.entries@);
        }
        self.entries.len()
    }

    /// Whether there are no entries.
    pub fn is_empty(&self) -> (empty: bool)
        ensures
            empty == (self@ == Map::<K::V, V>::empty()),
    {
        proof {
            use_type_invariant(self);
            lemma_entries(self.entries@);
            if self.entries@.len() > 0 {
                assert(self@.dom().contains(self.entries@[0].0@));
            }
        }
        self.entries.len() == 0
    }

    /// Position of a key; the length where there is none.
    fn position(&self, key: &K) -> (at: usize)
        ensures
            at <= self.entries@.len(),
            at < self.entries@.len() ==> self.entries@[at as int].0@ == key@,
            at == self.entries@.len() ==> forall|i: int|
                0 <= i < self.entries@.len() ==> (#[trigger] self.entries@[i]).0@ != key@,
    {
        let mut i: usize = 0;
        while i < self.entries.len()
            invariant
                i <= self.entries@.len(),
                forall|j: int| 0 <= j < i ==> (#[trigger] self.entries@[j]).0@ != key@,
            decreases self.entries@.len() - i,
        {
            if self.entries[i].0.same(key) {
                return i;
            }
            i = i + 1;
        }
        i
    }

    /// The value under a key.
    pub fn get(&self, key: &K) -> (value: Option<&V>)
        ensures
            value == (if self@.dom().contains(key@) {
                Some(&self@[key@])
            } else {
                None
            }),
    {
        let at: usize = self.position(key);
        proof {
            use_type_invariant(self);
            lemma_entries(self.entries@);
        }
        if at < self.entries.len() {
            assert(self@[self.entries@[at as int].0@] == self.entries@[at as int].1);
            Some(&self.entries[at].1)
        } else {
            None
        }
    }

    /// Whether there is a value under a key.
    pub fn contains_key(&self, key: &K) -> (found: bool)
        ensures
            found == self@.dom().contains(key@),
    {
        self.get(key).is_some()
    }

    /// Takes the value under a key out of the table.
    pub fn take(&mut self, key: &K) -> (value: Option<V>)
        ensures
            value == (if old(self)@.dom().contains(key@) {
                Some(old(self)@[key@])
            } else {
                None
            }),
            final(self)@ == old(self)@.remove(key@),
    {
        let at: usize = self.position(key);
        proof {
            use_type_invariant(&*self);
            lemma_entries(self.entries@);
        }
        if at < self.entries.len() {
            proof {
                lemma_entry_removed(self.entries@, at as int);
                assert(self@[self.entries@[at as int].0@] == self.entries@[at as int].1);
            }
            let mut entries: Vec<(K, V)> = Vec::new();
            core::mem::swap(&mut entries, &mut self.entries);
            let (_, value) = entries.remove(at);
            self.entries = entries;
            Some(value)
        } else {
            proof {
                assert(self@.remove(key@) =~= self@);
            }
            None
        }
    }

    /// Puts a value under a key, replacing the one that was there.
    pub fn insert(&mut self, key: K, value: V)
        ensures
            final(self)@ == old(self)@.insert(key@, value),
    {
        let _ = self.take(&key);
        let ghost rest = self@;
        proof {
            use_type_invariant(&*self);
            lemma_entries(self.entries@);
            assert forall|i: int| 0 <= i < self.entries@.len() implies (
            #[trigger] self.entries@[i]).0@ != key@ by {
                assert(rest.dom().contains(self.entries@[i].0@));
            }
        }
        let ghost before = self.entries@;
        let mut entries: Vec<(K, V)> = Vec::new();
        core::mem::swap(&mut entries, &mut self.entries);
        entries.push((key, value));
        proof {
            assert(entries@.drop_last() =~= before);
        }
        self.entries = entries;
        assert(rest.insert(key@, value) =~= old(self)@.insert(key@, value));
    }

    /// Empties the table.
    pub fn clear(&mut self)
        ensures
            final(self)@ == Map::<K::V, V>::empty(),
    {
        self.entries = Vec::new();
    }
}

proof fn lemma_entry_count<K: Key, V>(entries: Seq<(K, V)>)
    requires
        distinct_keys(entries),
    ensures
        entries_map(entries).dom().finite(),
        entries_map(entries).len() == entries.len(),
    decreases entries.len(),
{
    if entries.len() > 0 {
        let init = entries.drop_last();
        assert forall|i: int, j: int| 0 <= i < j < init.len() implies (#[trigger] init[i]).0@ != (
        #[trigger] init[j]).0@ by {
            assert(entries[i].0@ != entries[j].0@);
        }
        lemma_entry_count(init);
        lemma_entries(init);
        if entries_map(init).dom().contains(entries.last().0@) {
            let i = choose|i: int|
                0 <= i < init.len() && (#[trigger] init[i]).0@ == entries.last().0@;
            assert(entries[i].0@ != entries[entries.len() - 1].0@);
        }
    }
}

/// What each key of a list says.
pub open spec fn key_views<K: Key>(keys: Seq<K>) -> Seq<K::V> {
    keys.map_values(|key: K| key@)
}

impl<K: Key, V> Table<K, V> {
    /// Takes every listed key out of the table.
    pub fn remove_all(&mut self, keys: &Vec<K>)
        ensures
            final(self)@ == old(self)@.restrict(
                old(self)@.dom().filter(|k: K::V| !key_views(keys@).contains(k)),
            ),
    {
        let ghost before = self@;
        let ghost names = key_views(keys@);
        let mut i: usize = 0;
        while i < keys.len()
            invariant
                i <= keys@.len(),
                before == old(self)@,
                names == key_views(keys@),
                forall|k: K::V| #[trigger]
                    self@.dom().contains(k) <==> before.dom().contains(k) && !names.take(
                        i as int,
                    ).contains(k),
                forall|k: K::V| #[trigger] self@.dom().contains(k) ==> self@[k] == before[k],
            decreases keys@.len() - i,
        {
            let ghost prior = self@;
            let ghost name = keys@[i as int]@;
            let _ = self.take(&keys[i]);
            proof {
                let shorter = names.take(i as int);
                let longer = names.take(i as int + 1);
                assert(longer =~= shorter.push(name));
                assert forall|k: K::V| #[trigger] self@.dom().contains(k) <==> before.dom().contains(
                    k,
                ) && !longer.contains(k) by {
                    assert(prior.dom().contains(k) <==> before.dom().contains(k)
                        && !shorter.contains(k));
                    assert(longer[i as int] == name);
                    if shorter.contains(k) {
                        let j = choose|j: int| 0 <= j < shorter.len() && shorter[j] == k;
                        assert(longer[j] == k);
                    }
                    if longer.contains(k) && k != name {
                        let j = choose|j: int| 0 <= j < longer.len() && longer[j] == k;
                        assert(shorter[j] == k);
                    }
                }
                assert forall|k: K::V| #[trigger] self@.dom().contains(k) implies self@[k]
                    == before[k] by {
                    assert(prior.dom().contains(k));
                }
            }
            i = i + 1;
        }
        proof {
            assert(names.take(i as int) =~= names);
            assert(self@ =~= before.restrict(
                before.dom().filter(|k: K::V| !names.contains(k)),
            ));
        }
    }

    /// The keys, each once.
    pub fn keys(&self) -> (keys: Vec<K>)
        ensures
            forall|i: int|
                0 <= i < keys@.len() ==> self@.dom().contains((#[trigger] keys@[i])@),
            forall|k: K::V| #[trigger]
                self@.dom().contains(k) ==> exists|i: int|
                    0 <= i < keys@.len() && (#[trigger] keys@[i])@ == k,
            forall|i: int, j: int|
                0 <= i < j < keys@.len() ==> (#[trigger] keys@[i])@ != (#[trigger] keys@[j])@,
    {
        proof {
            use_type_invariant(self);
            lemma_entries(self.entries@);
        }
        let mut keys: Vec<K> = Vec::new();
        let mut i: usize = 0;
        while i < self.entries.len()
            invariant
                i <= self.entries@.len(),
                keys@.len() == i,
                forall|j: int| 0 <= j < i ==> (#[trigger] keys@[j])@ == self.entries@[j].0@,
            decreases self.entries@.len() - i,
        {
            keys.push(self.entries[i].0.duplicate());
            i = i + 1;
        }
        proof {
            assert forall|k: K::V| #[trigger] self@.dom().contains(k) implies exists|i: int|
                0 <= i < keys@.len() && (#[trigger] keys@[i])@ == k by {
                let i = choose|i: int|
                    0 <= i < self.entries@.len() && (#[trigger] self.entries@[i]).0@ == k;
                assert(keys@[i]@ == k);
            }
            assert forall|i: int| 0 <= i < keys@.len() implies self@.dom().contains(
                (#[trigger] keys@[i])@,
            ) by {
                assert(self@.dom().contains(self.entries@[i].0@));
            }
        }
        keys
    }
}

impl<K: Key, V: Value> Table<K, V> {
    /// Another table with the same entries.
    pub fn duplicate(&self) -> (copy: Self)
        ensures
            copy@ == self@,
    {
        proof {
            use_type_invariant(self);
        }
        let mut entries: Vec<(K, V)> = Vec::new();
        let mut i: usize = 0;
        while i < self.entries.len()
            invariant
                i <= self.entries@.len(),
                entries@.len() == i,
                forall|j: int|
                    0 <= j < i ==> (#[trigger] entries@[j]).0@ == self.entries@[j].0@
                        && entries@[j].1 == self.entries@[j].1,
            decreases self.entries@.len() - i,
        {
            let (key, value) = &self.entries[i];
            entries.push((key.duplicate(), value.duplicate()));
            i = i + 1;
        }
        proof {
            lemma_same_entries(entries@, self.entries@);
        }
        Table { entries }
    }

    /// Whether every entry of this table is in the other.
    fn is_within(&self, other: &Self) -> (within: bool)
        ensures
            within == (forall|k: K::V| #[trigger]
                self@.dom().contains(k) ==> other@.dom().contains(k) && other@[k] == self@[k]),
    {
        proof {
            use_type_invariant(self);
            lemma_entries(self.entries@);
        }
        let mut i: usize = 0;
        while i < self.entries.len()
            invariant
                i <= self.entries@.len(),
                forall|j: int|
                    0 <= j < i ==> other@.dom().contains((#[trigger] self.entries@[j]).0@)
                        && other@[self.entries@[j].0@] == self.entries@[j].1,
            decreases self.entries@.len() - i,
        {
            let (key, value) = &self.entries[i];
            let held: bool = match other.get(key) {
                Some(theirs) => theirs.same(value),
                None => false,
            };
            if !held {
                proof {
                    use_type_invariant(self);
                    lemma_entries(self.entries@);
                    assert(self@.dom().contains(self.entries@[i as int].0@));
                }
                return false;
            }
            i = i + 1;
        }
        proof {
            use_type_invariant(self);
            lemma_entries(self.entries@);
            assert forall|k: K::V| #[trigger] self@.dom().contains(k) implies other@.dom().contains(
                k,
            ) && other@[k] == self@[k] by {
                let j = choose|j: int|
                    0 <= j < self.entries@.len() && (#[trigger] self.entries@[j]).0@ == k;
                assert(self@[self.entries@[j].0@] == self.entries@[j].1);
            }
        }
        true
    }

    /// Whether two tables hold the same entries.
    pub fn same(&self, other: &Self) -> (same: bool)
        ensures
            same == (self@ == other@),
    {
        let same: bool = self.is_within(other) && other.is_within(self);
        proof {
            if same {
                assert(self@ =~= other@);
            }
        }
        same
    }
}

proof fn lemma_same_entries<K: Key, V>(a: Seq<(K, V)>, b: Seq<(K, V)>)
    requires
        a.len() == b.len(),
        distinct_keys(b),
        forall|i: int|
            0 <= i < a.len() ==> (#[trigger] a[i]).0@ == b[i].0@ && a[i].1 == b[i].1,
    ensures
        distinct_keys(a),
        entries_map(a) == entries_map(b),
    decreases a.len(),
{
    assert forall|i: int, j: int| 0 <= i < j < a.len() implies (#[trigger] a[i]).0@ != (
    #[trigger] a[j]).0@ by {
        assert(b[i].0@ != b[j].0@);
    }
    if a.len() > 0 {
        let (x, y) = (a.drop_last(), b.drop_last());
        assert forall|i: int| 0 <= i < x.len() implies (#[trigger] x[i]).0@ == y[i].0@ && x[i].1
            == y[i].1 by {
            assert(a[i].0@ == b[i].0@);
        }
        assert forall|i: int, j: int| 0 <= i < j < y.len() implies (#[trigger] y[i]).0@ != (
        #[trigger] y[j]).0@ by {
            assert(b[i].0@ != b[j].0@);
        }
        lemma_same_entries(x, y);
        assert(a[a.len() - 1].0@ == b[b.len() - 1].0@);
    }
}

} // verus!
