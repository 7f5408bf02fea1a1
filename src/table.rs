use vstd::prelude::*;

verus! {

/// A record kept in a [`Table`], identified by a string key.
pub trait Record: Sized {
    /// The key under which the record is stored.
    spec fn key_of(&self) -> Seq<char>;

    fn key(&self) -> (r: &String)
        ensures
            r@ == self.key_of(),
    ;

    /// A copy of the record that equals it.
    fn duplicate(&self) -> (r: Self)
        ensures
            r == *self,
    ;
}

/// `s` lists the map's records, each once: one element per key, in some order.
pub open spec fn lists_exactly<V: Record>(s: Seq<V>, m: Map<Seq<char>, V>) -> bool {
    &&& s.len() == m.len()
    &&& forall|i: int|
        0 <= i < s.len() ==> #[trigger] m.contains_key(s[i].key_of()) && m[s[i].key_of()] == s[i]
    &&& forall|k: Seq<char>|
        #[trigger] m.contains_key(k) ==> exists|i: int| 0 <= i < s.len() && #[trigger] s[i].key_of() == k
    &&& forall|i: int, j: int|
        0 <= i < s.len() && 0 <= j < s.len() && i != j ==> #[trigger] s[i].key_of() != #[trigger] s[j].key_of()
}

/// A keyed table of records. Its view is a map from key to record; each key
/// is held at most once.
pub struct Table<V> {
    entries: Vec<V>,
    contents: Ghost<Map<Seq<char>, V>>,
}

impl<V: Record> View for Table<V> {
    type V = Map<Seq<char>, V>;

    closed spec fn view(&self) -> Map<Seq<char>, V> {
        self.contents@
    }
}

impl<V: Record> Table<V> {
    /// The table holds its map exactly: one entry per key, no key twice.
    pub closed spec fn wf(&self) -> bool {
        &&& self.contents@.dom().finite()
        &&& self.entries@.len() == self.contents@.len()
        &&& forall|i: int|
            0 <= i < self.entries@.len() ==> {
                &&& #[trigger] self.contents@.contains_key(self.entries@[i].key_of())
                &&& self.contents@[self.entries@[i].key_of()] == self.entries@[i]
            }
        &&& forall|k: Seq<char>|
            #[trigger] self.contents@.contains_key(k) ==> exists|i: int|
                0 <= i < self.entries@.len() && #[trigger] self.entries@[i].key_of() == k
        &&& forall|i: int, j: int|
            0 <= i < self.entries@.len() && 0 <= j < self.entries@.len() && i != j
                ==> #[trigger] self.entries@[i].key_of() != #[trigger] self.entries@[j].key_of()
    }

    pub fn new() -> (r: Self)
        ensures
            r.wf(),
            r@ == Map::<Seq<char>, V>::empty(),
    {
        Table { entries: Vec::new(), contents: Ghost(Map::empty()) }
    }

    /// Position of the entry with the given key, if any.
    fn find(&self, key: &String) -> (r: Option<usize>)
        requires
            self.wf(),
        ensures
            match r {
                Some(i) => i < self.entries@.len() && self.entries@[i as int].key_of() == key@,
                None => !self@.contains_key(key@),
            },
    {
        let mut i: usize = 0;
        while i < self.entries.len()
            invariant
                self.wf(),
                i <= self.entries@.len(),
                forall|j: int| 0 <= j < i ==> self.entries@[j].key_of() != key@,
            decreases self.entries@.len() - i,
        {
            if self.entries[i].key().eq(key) {
                return Some(i);
            }
            i = i + 1;
        }
        None
    }

    pub fn len(&self) -> (r: usize)
        requires
            self.wf(),
        ensures
            r == self@.len(),
    {
        self.entries.len()
    }

    pub fn contains(&self, key: &String) -> (r: bool)
        requires
            self.wf(),
        ensures
            r == self@.contains_key(key@),
    {
        match self.find(key) {
            Some(_) => true,
            None => false,
        }
    }

    pub fn get(&self, key: &String) -> (r: Option<&V>)
        requires
            self.wf(),
        ensures
            match r {
                Some(v) => self@.contains_key(key@) && *v == self@[key@],
                None => !self@.contains_key(key@),
            },
    {
        match self.find(key) {
            Some(i) => {
                assert(self.contents@.contains_key(self.entries@[i as int].key_of()));
                Some(&self.entries[i])
            },
            None => None,
        }
    }

    /// Stores the record under its key, replacing any record held there.
    pub fn insert(&mut self, v: V)
        requires
            old(self).wf(),
        ensures
            final(self).wf(),
            final(self)@ == old(self)@.insert(v.key_of(), v),
    {
        let ghost k = v.key_of();
        match self.find(v.key()) {
            Some(i) => {
                self.entries.set(i, v);
                self.contents = Ghost(self.contents@.insert(k, v));
                assert(self.contents@.dom() =~= old(self).contents@.dom());
                assert forall|j: int| 0 <= j < self.entries@.len() implies {
                    &&& #[trigger] self.contents@.contains_key(self.entries@[j].key_of())
                    &&& self.contents@[self.entries@[j].key_of()] == self.entries@[j]
                } by {
                    if j != i {
                        assert(old(self).entries@[j].key_of() != k);
                    }
                }
                assert forall|kk: Seq<char>| #[trigger] self.contents@.contains_key(kk) implies exists|j: int|
                    0 <= j < self.entries@.len() && #[trigger] self.entries@[j].key_of() == kk by {
                    if kk != k {
                        let j = choose|j: int| 0 <= j < old(self).entries@.len() && #[trigger] old(self).entries@[j].key_of() == kk;
                        assert(self.entries@[j].key_of() == kk);
                    } else {
                        assert(self.entries@[i as int].key_of() == kk);
                    }
                }
            },
            None => {
                self.entries.push(v);
                self.contents = Ghost(self.contents@.insert(k, v));
                assert(self.contents@.dom() =~= old(self).contents@.dom().insert(k));
                let ghost n = self.entries@.len() - 1;
                assert(self.entries@[n].key_of() == k);
                assert forall|j: int| 0 <= j < self.entries@.len() implies {
                    &&& #[trigger] self.contents@.contains_key(self.entries@[j].key_of())
                    &&& self.contents@[self.entries@[j].key_of()] == self.entries@[j]
                } by {
                    if j != n {
                        assert(old(self).entries@[j] == self.entries@[j]);
                        assert(old(self).contents@.contains_key(old(self).entries@[j].key_of()));
                    }
                }
                assert forall|kk: Seq<char>| #[trigger] self.contents@.contains_key(kk) implies exists|j: int|
                    0 <= j < self.entries@.len() && #[trigger] self.entries@[j].key_of() == kk by {
                    if kk != k {
                        let j = choose|j: int| 0 <= j < old(self).entries@.len() && #[trigger] old(self).entries@[j].key_of() == kk;
                        assert(self.entries@[j].key_of() == kk);
                    }
                }
                assert forall|a: int, b: int|
                    0 <= a < self.entries@.len() && 0 <= b < self.entries@.len() && a != b
                    implies #[trigger] self.entries@[a].key_of() != #[trigger] self.entries@[b].key_of() by {
                    if a != n && b != n {
                        assert(old(self).entries@[a] == self.entries@[a]);
                        assert(old(self).entries@[b] == self.entries@[b]);
                    } else if a == n {
                        assert(old(self).contents@.contains_key(old(self).entries@[b].key_of()));
                    } else {
                        assert(old(self).contents@.contains_key(old(self).entries@[a].key_of()));
                    }
                }
            },
        }
    }

    /// Stores the record only where its key is not held yet; a record
    /// already held is kept. Returns whether the record was stored.
    pub fn insert_if_absent(&mut self, v: V) -> (r: bool)
        requires
            old(self).wf(),
        ensures
            final(self).wf(),
            r == !old(self)@.contains_key(v.key_of()),
            final(self)@ == if r {
                old(self)@.insert(v.key_of(), v)
            } else {
                old(self)@
            },
    {
        if self.contains(v.key()) {
            false
        } else {
            self.insert(v);
            true
        }
    }

    /// A copy of every record, one per key.
    pub fn snapshot(&self) -> (r: Vec<V>)
        requires
            self.wf(),
        ensures
            lists_exactly(r@, self@),
    {
        let mut out: Vec<V> = Vec::new();
        let mut i: usize = 0;
        while i < self.entries.len()
            invariant
                self.wf(),
                i <= self.entries@.len(),
                out@ == self.entries@.subrange(0, i as int),
            decreases self.entries@.len() - i,
        {
            out.push(self.entries[i].duplicate());
            i = i + 1;
            assert(out@ =~= self.entries@.subrange(0, i as int));
        }
        assert(out@ =~= self.entries@);
        out
    }
}

} // verus!
