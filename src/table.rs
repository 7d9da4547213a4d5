use vstd::prelude::*;

verus! {

/// The key-value view of a sequence of (key, record) entries: each key maps
/// to the record of its last entry.
pub open spec fn entries_map<V>(s: Seq<(String, V)>) -> Map<Seq<char>, V>
    decreases s.len(),
{
    if s.len() == 0 {
        Map::empty()
    } else {
        entries_map(s.drop_last()).insert(s.last().0@, s.last().1)
    }
}

/// Replacing the last entry of a key keeps the other keys and rebinds that one.
proof fn lemma_update_last<V>(s: Seq<(String, V)>, i: int, e: (String, V))
    requires
        0 <= i < s.len(),
        s[i].0@ == e.0@,
        forall|j: int| i < j < s.len() ==> (#[trigger] s[j]).0@ != e.0@,
    ensures
        entries_map(s.update(i, e)) == entries_map(s).insert(e.0@, e.1),
    decreases s.len(),
{
    let t = s.update(i, e);
    if i == s.len() - 1 {
        assert(t.drop_last() =~= s.drop_last());
        assert(entries_map(t) =~= entries_map(s).insert(e.0@, e.1));
    } else {
        assert(t.drop_last() =~= s.drop_last().update(i, e));
        assert forall|j: int| i < j < s.drop_last().len() implies (
        #[trigger] s.drop_last()[j]).0@ != e.0@ by {
            assert(s.drop_last()[j] == s[j]);
        }
        lemma_update_last(s.drop_last(), i, e);
        assert(entries_map(t) =~= entries_map(s).insert(e.0@, e.1));
    }
}

proof fn lemma_entries_map_size<V>(s: Seq<(String, V)>)
    ensures
        entries_map(s).dom().finite(),
        entries_map(s).dom().len() <= s.len(),
    decreases s.len(),
{
    if s.len() > 0 {
        lemma_entries_map_size(s.drop_last());
    }
}

/// A table of records keyed by text, as a flat key-value store holds them.
pub struct Table<V> {
    entries: Vec<(String, V)>,
}

impl<V> View for Table<V> {
    type V = Map<Seq<char>, V>;

    closed spec fn view(&self) -> Map<Seq<char>, V> {
        entries_map(self.entries@)
    }
}

impl<V> Table<V> {
    pub fn new() -> (r: Table<V>)
        ensures
            r@ == Map::<Seq<char>, V>::empty(),
    {
        Table { entries: Vec::new() }
    }

    /// Position of the last entry for `key`, if any.
    fn find(&self, key: &String) -> (r: Option<usize>)
        ensures
            match r {
                Some(i) => {
                    &&& i < self.entries@.len()
                    &&& self.entries@[i as int].0@ == key@
                    &&& forall|j: int|
                        i < j < self.entries@.len() ==> (#[trigger] self.entries@[j]).0@ != key@
                    &&& self@.contains_key(key@)
                    &&& self@[key@] == self.entries@[i as int].1
                },
                None => !self@.contains_key(key@),
            },
    {
        let n = self.entries.len();
        let mut i: usize = n;
        assert(self.entries@.take(n as int) =~= self.entries@);
        while i > 0
            invariant
                n == self.entries@.len(),
                i <= n,
                forall|j: int| i <= j < n ==> (#[trigger] self.entries@[j]).0@ != key@,
                self@.contains_key(key@) == entries_map(self.entries@.take(i as int)).contains_key(
                    key@,
                ),
                self@.contains_key(key@) ==> self@[key@] == entries_map(
                    self.entries@.take(i as int),
                )[key@],
            decreases i,
        {
            let k = i - 1;
            let ghost pre = self.entries@.take(i as int);
            assert(pre.drop_last() =~= self.entries@.take(k as int));
            assert(pre.last() == self.entries@[k as int]);
            if self.entries[k].0 == *key {
                return Some(k);
            }
            i = k;
        }
        assert(self.entries@.take(0) =~= Seq::<(String, V)>::empty());
        None
    }

    /// A bound on the number of keys, which are finitely many.
    pub fn size_bound(&self) -> (r: usize)
        ensures
            self@.dom().finite(),
            self@.dom().len() <= r,
    {
        proof {
            lemma_entries_map_size(self.entries@);
        }
        self.entries.len()
    }

    pub fn contains(&self, key: &String) -> (r: bool)
        ensures
            r == self@.contains_key(key@),
    {
        self.find(key).is_some()
    }

    pub fn get(&self, key: &String) -> (r: Option<&V>)
        ensures
            match r {
                Some(v) => self@.contains_key(key@) && *v == self@[key@],
                None => !self@.contains_key(key@),
            },
    {
        match self.find(key) {
            Some(i) => Some(&self.entries[i].1),
            None => None,
        }
    }

    /// Binds `key` to `value`, whether or not the key was present.
    pub fn put(&mut self, key: String, value: V)
        ensures
            final(self)@ == old(self)@.insert(key@, value),
    {
        match self.find(&key) {
            Some(i) => {
                proof {
                    lemma_update_last(self.entries@, i as int, (key, value));
                }
                self.entries.set(i, (key, value));
            },
            None => {
                let ghost s = self.entries@;
                self.entries.push((key, value));
                assert(self.entries@.drop_last() =~= s);
            },
        }
    }
}

/// The values that a log of (key, value) pairs holds for `key`, in the order
/// they were appended.
pub open spec fn values_for(s: Seq<(String, String)>, key: Seq<char>) -> Seq<Seq<char>>
    decreases s.len(),
{
    if s.len() == 0 {
        Seq::empty()
    } else if s.last().0@ == key {
        values_for(s.drop_last(), key).push(s.last().1@)
    } else {
        values_for(s.drop_last(), key)
    }
}

/// An append-only secondary index: for each key, an ordered sequence of values.
pub struct IndexLog {
    log: Vec<(String, String)>,
}

/// The text of each string of a vector.
pub open spec fn texts(v: Seq<String>) -> Seq<Seq<char>> {
    v.map_values(|s: String| s@)
}

impl IndexLog {
    /// The sequence recorded under `key`.
    pub closed spec fn values(&self, key: Seq<char>) -> Seq<Seq<char>> {
        values_for(self.log@, key)
    }

    pub fn new() -> (r: IndexLog)
        ensures
            forall|k: Seq<char>| #[trigger] r.values(k) == Seq::<Seq<char>>::empty(),
    {
        IndexLog { log: Vec::new() }
    }

    /// Appends `value` to the sequence of `key`.
    pub fn append(&mut self, key: String, value: String)
        ensures
            final(self).values(key@) == old(self).values(key@).push(value@),
            forall|k: Seq<char>|
                k != key@ ==> #[trigger] final(self).values(k) == old(self).values(k),
    {
        let ghost s = self.log@;
        self.log.push((key, value));
        assert(self.log@.drop_last() =~= s);
    }

    /// The sequence recorded under `key`, oldest first.
    pub fn lookup(&self, key: &String) -> (r: Vec<String>)
        ensures
            texts(r@) == self.values(key@),
    {
        let mut r: Vec<String> = Vec::new();
        let n = self.log.len();
        let mut i: usize = 0;
        while i < n
            invariant
                n == self.log@.len(),
                i <= n,
                texts(r@) == values_for(self.log@.take(i as int), key@),
            decreases n - i,
        {
            let ghost pre = self.log@.take(i as int + 1);
            assert(pre.drop_last() =~= self.log@.take(i as int));
            if self.log[i].0 == *key {
                r.push(self.log[i].1.clone());
                assert(texts(r@) =~= values_for(pre, key@));
            }
            i = i + 1;
        }
        assert(self.log@.take(n as int) =~= self.log@);
        r
    }
}

} // verus!
