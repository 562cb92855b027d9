//! Small keyed tables whose model is an association list: a lookup finds the
//! first entry with the key, an insert replaces that entry or appends a new one.
use vstd::prelude::*;

verus! {

/// Position of the first entry with key `k`.
pub open spec fn tindex<K, V>(s: Seq<(K, V)>, k: K) -> Option<int>
    decreases s.len(),
{
    if s.len() == 0 {
        None
    } else if s[0].0 == k {
        Some(0)
    } else {
        match tindex(s.subrange(1, s.len() as int), k) {
            Some(i) => Some(i + 1),
            None => None,
        }
    }
}

pub open spec fn tlookup<K, V>(s: Seq<(K, V)>, k: K) -> Option<V> {
    match tindex(s, k) {
        Some(i) => Some(s[i].1),
        None => None,
    }
}

pub open spec fn tinsert<K, V>(s: Seq<(K, V)>, k: K, v: V) -> Seq<(K, V)> {
    match tindex(s, k) {
        Some(i) => s.update(i, (k, v)),
        None => s.push((k, v)),
    }
}

pub open spec fn tremove<K, V>(s: Seq<(K, V)>, k: K) -> Seq<(K, V)> {
    match tindex(s, k) {
        Some(i) => s.remove(i),
        None => s,
    }
}

pub proof fn lemma_tindex<K, V>(s: Seq<(K, V)>, k: K, i: int)
    requires
        0 <= i <= s.len(),
        forall|j: int| 0 <= j < i ==> s[j].0 != k,
    ensures
        i == s.len() ==> tindex(s, k) is None,
        i < s.len() && s[i].0 == k ==> tindex(s, k) == Some(i),
    decreases i,
{
    if i > 0 {
        let t = s.subrange(1, s.len() as int);
        lemma_tindex(t, k, i - 1);
        if i < s.len() {
            assert(t[i - 1] == s[i]);
        }
    }
}

pub proof fn lemma_tindex_bounds<K, V>(s: Seq<(K, V)>, k: K)
    ensures
        tindex(s, k) matches Some(i) ==> 0 <= i < s.len() && s[i].0 == k,
        tindex(s, k) is None ==> forall|j: int| 0 <= j < s.len() ==> s[j].0 != k,
    decreases s.len(),
{
    if s.len() > 0 {
        let t = s.subrange(1, s.len() as int);
        lemma_tindex_bounds(t, k);
        if tindex(s, k) is None {
            assert forall|j: int| 0 <= j < s.len() implies s[j].0 != k by {
                if j > 0 {
                    assert(t[j - 1] == s[j]);
                }
            }
        }
    }
}

/// A lookup after an insert of the same key yields the inserted value.
pub proof fn lemma_tinsert_lookup<K, V>(s: Seq<(K, V)>, k: K, v: V, k2: K)
    ensures
        tlookup(tinsert(s, k, v), k2) == if k2 == k {
            Some(v)
        } else {
            tlookup(s, k2)
        },
{
    lemma_tindex_bounds(s, k);
    lemma_tindex_bounds(s, k2);
    let t = tinsert(s, k, v);
    lemma_tindex_bounds(t, k2);
    match tindex(s, k) {
        Some(i) => {
            assert forall|j: int| 0 <= j < i implies s[j].0 != k by {
                assert(tindex(s, k) == Some(i));
                lemma_first_index(s, k, i, j);
            }
            if k2 == k {
                lemma_tindex(t, k2, i);
            } else {
                match tindex(s, k2) {
                    Some(i2) => {
                        assert forall|j: int| 0 <= j < i2 implies t[j].0 != k2 by {
                            lemma_first_index(s, k2, i2, j);
                        }
                        lemma_tindex(t, k2, i2);
                    },
                    None => {
                        lemma_tindex(t, k2, t.len() as int);
                    },
                }
            }
        },
        None => {
            if k2 == k {
                lemma_tindex(t, k2, s.len() as int);
            } else {
                match tindex(s, k2) {
                    Some(i2) => {
                        assert forall|j: int| 0 <= j < i2 implies t[j].0 != k2 by {
                            lemma_first_index(s, k2, i2, j);
                        }
                        lemma_tindex(t, k2, i2);
                    },
                    None => {
                        lemma_tindex(t, k2, t.len() as int);
                    },
                }
            }
        },
    }
}

/// No two entries share a key (what inserts and removals keep).
pub open spec fn keys_unique<K, V>(s: Seq<(K, V)>) -> bool {
    forall|a: int, b: int| 0 <= a < b < s.len() ==> (#[trigger] s[a]).0 != (#[trigger] s[b]).0
}

/// An insert keeps the keys distinct.
pub proof fn lemma_tinsert_unique<K, V>(s: Seq<(K, V)>, k: K, v: V)
    requires
        keys_unique(s),
    ensures
        keys_unique(tinsert(s, k, v)),
{
    lemma_tindex_bounds(s, k);
    let t = tinsert(s, k, v);
    assert forall|a: int, b: int| 0 <= a < b < t.len() implies (#[trigger] t[a]).0 != (#[trigger] t[b]).0 by {
        match tindex(s, k) {
            Some(i) => {
                if a != i && b != i {
                    assert(t[a] == s[a] && t[b] == s[b]);
                } else if a == i {
                    assert(t[b] == s[b]);
                } else {
                    assert(t[a] == s[a]);
                }
            },
            None => {
                if b < s.len() {
                    assert(t[a] == s[a] && t[b] == s[b]);
                } else {
                    assert(t[a] == s[a]);
                }
            },
        }
    }
}

/// With distinct keys, a removal takes the key out and leaves the other
/// keys' entries as they were.
pub proof fn lemma_tremove_lookup<K, V>(s: Seq<(K, V)>, k: K, k2: K)
    requires
        keys_unique(s),
    ensures
        keys_unique(tremove(s, k)),
        tlookup(tremove(s, k), k2) == if k2 == k {
            None
        } else {
            tlookup(s, k2)
        },
{
    lemma_tindex_bounds(s, k);
    lemma_tindex_bounds(s, k2);
    let t = tremove(s, k);
    match tindex(s, k) {
        Some(i) => {
            assert(t =~= s.remove(i));
            assert forall|a: int, b: int| 0 <= a < b < t.len() implies (#[trigger] t[a]).0 != (#[trigger] t[b]).0 by {
                let a1 = if a < i { a } else { a + 1 };
                let b1 = if b < i { b } else { b + 1 };
                assert(t[a] == s[a1] && t[b] == s[b1]);
            }
            if k2 == k {
                assert forall|j: int| 0 <= j < t.len() implies t[j].0 != k2 by {
                    let j1 = if j < i { j } else { j + 1 };
                    assert(t[j] == s[j1]);
                    if j1 < i {
                        assert(s[j1].0 != s[i].0);
                    } else {
                        assert(s[i].0 != s[j1].0);
                    }
                }
                lemma_tindex(t, k2, t.len() as int);
            } else {
                match tindex(s, k2) {
                    Some(i2) => {
                        let j2 = if i2 < i { i2 } else { i2 - 1 };
                        assert(i2 != i);
                        assert forall|j: int| 0 <= j < j2 implies t[j].0 != k2 by {
                            let j1 = if j < i { j } else { j + 1 };
                            assert(t[j] == s[j1]);
                            if j1 != i {
                                lemma_first_index(s, k2, i2, j1);
                            }
                        }
                        assert(t[j2] == s[i2]);
                        lemma_tindex(t, k2, j2);
                    },
                    None => {
                        assert forall|j: int| 0 <= j < t.len() implies t[j].0 != k2 by {
                            let j1 = if j < i { j } else { j + 1 };
                            assert(t[j] == s[j1]);
                        }
                        lemma_tindex(t, k2, t.len() as int);
                    },
                }
            }
        },
        None => {},
    }
}

/// Entries before the first index of `k` have other keys.
pub proof fn lemma_first_index<K, V>(s: Seq<(K, V)>, k: K, i: int, j: int)
    requires
        tindex(s, k) == Some(i),
        0 <= j < i,
    ensures
        s[j].0 != k,
    decreases s.len(),
{
    lemma_tindex_bounds(s, k);
    if s.len() > 0 {
        let t = s.subrange(1, s.len() as int);
        if s[0].0 != k {
            if j > 0 {
                lemma_first_index(t, k, i - 1, j - 1);
                assert(t[j - 1] == s[j]);
            }
        }
    }
}

/// A table keyed by `u32`.
pub struct IndexTable<V> {
    entries: Vec<(u32, V)>,
}

impl<V: DeepView> View for IndexTable<V> {
    type V = Seq<(u32, V::V)>;

    closed spec fn view(&self) -> Seq<(u32, V::V)> {
        Seq::new(self.entries@.len(), |i: int| (self.entries@[i].0, self.entries@[i].1.deep_view()))
    }
}

impl<V: DeepView> IndexTable<V> {
    pub fn new() -> (r: Self)
        ensures
            r@ == Seq::<(u32, V::V)>::empty(),
    {
        let r = IndexTable { entries: Vec::new() };
        assert(r@ =~= Seq::<(u32, V::V)>::empty());
        r
    }

    fn find(&self, k: u32) -> (r: Option<usize>)
        ensures
            r matches Some(i) ==> i < self.entries@.len(),
            match r {
                Some(i) => tindex(self@, k) == Some(i as int),
                None => tindex(self@, k) is None,
            },
    {
        let mut i: usize = 0;
        while i < self.entries.len()
            invariant
                i <= self.entries@.len(),
                forall|j: int| 0 <= j < i ==> self@[j].0 != k,
            decreases self.entries@.len() - i,
        {
            if self.entries[i].0 == k {
                proof {
                    lemma_tindex(self@, k, i as int);
                }
                return Some(i);
            }
            i = i + 1;
        }
        proof {
            lemma_tindex(self@, k, i as int);
        }
        None
    }

    pub fn get(&self, k: u32) -> (r: Option<&V>)
        ensures
            r.deep_view() == tlookup(self@, k),
    {
        match self.find(k) {
            Some(i) => Some(&self.entries[i].1),
            None => None,
        }
    }

    pub fn insert(&mut self, k: u32, v: V)
        ensures
            final(self)@ == tinsert(old(self)@, k, v.deep_view()),
    {
        let ghost dv = v.deep_view();
        match self.find(k) {
            Some(i) => {
                self.entries.set(i, (k, v));
                assert(self@ =~= old(self)@.update(i as int, (k, dv)));
            },
            None => {
                self.entries.push((k, v));
                assert(self@ =~= old(self)@.push((k, dv)));
            },
        }
    }

    pub fn remove(&mut self, k: u32) -> (r: Option<V>)
        ensures
            r.deep_view() == tlookup(old(self)@, k),
            final(self)@ == tremove(old(self)@, k),
    {
        match self.find(k) {
            Some(i) => {
                let e = self.entries.remove(i);
                assert(self@ =~= old(self)@.remove(i as int));
                Some(e.1)
            },
            None => None,
        }
    }
}

/// A table keyed by 128-bit ids.
pub struct IdTable<V> {
    entries: Vec<(u128, V)>,
}

impl<V: DeepView> View for IdTable<V> {
    type V = Seq<(u128, V::V)>;

    closed spec fn view(&self) -> Seq<(u128, V::V)> {
        Seq::new(self.entries@.len(), |i: int| (self.entries@[i].0, self.entries@[i].1.deep_view()))
    }
}

impl<V: DeepView> IdTable<V> {
    pub fn new() -> (r: Self)
        ensures
            r@ == Seq::<(u128, V::V)>::empty(),
    {
        let r = IdTable { entries: Vec::new() };
        assert(r@ =~= Seq::<(u128, V::V)>::empty());
        r
    }

    fn find(&self, k: u128) -> (r: Option<usize>)
        ensures
            r matches Some(i) ==> i < self.entries@.len(),
            match r {
                Some(i) => tindex(self@, k) == Some(i as int),
                None => tindex(self@, k) is None,
            },
    {
        let mut i: usize = 0;
        while i < self.entries.len()
            invariant
                i <= self.entries@.len(),
                forall|j: int| 0 <= j < i ==> self@[j].0 != k,
            decreases self.entries@.len() - i,
        {
            if self.entries[i].0 == k {
                proof {
                    lemma_tindex(self@, k, i as int);
                }
                return Some(i);
            }
            i = i + 1;
        }
        proof {
            lemma_tindex(self@, k, i as int);
        }
        None
    }

    pub fn get(&self, k: u128) -> (r: Option<&V>)
        ensures
            r.deep_view() == tlookup(self@, k),
    {
        match self.find(k) {
            Some(i) => Some(&self.entries[i].1),
            None => None,
        }
    }

    pub fn insert(&mut self, k: u128, v: V)
        ensures
            final(self)@ == tinsert(old(self)@, k, v.deep_view()),
    {
        let ghost dv = v.deep_view();
        match self.find(k) {
            Some(i) => {
                self.entries.set(i, (k, v));
                assert(self@ =~= old(self)@.update(i as int, (k, dv)));
            },
            None => {
                self.entries.push((k, v));
                assert(self@ =~= old(self)@.push((k, dv)));
            },
        }
    }

    pub fn remove(&mut self, k: u128) -> (r: Option<V>)
        ensures
            r.deep_view() == tlookup(old(self)@, k),
            final(self)@ == tremove(old(self)@, k),
    {
        match self.find(k) {
            Some(i) => {
                let e = self.entries.remove(i);
                assert(self@ =~= old(self)@.remove(i as int));
                Some(e.1)
            },
            None => None,
        }
    }

    pub fn len(&self) -> (r: usize)
        ensures
            r == self@.len(),
    {
        self.entries.len()
    }

    /// The entry at position `i`.
    pub fn entry_at(&self, i: usize) -> (r: (u128, &V))
        requires
            i < self@.len(),
        ensures
            (r.0, r.1.deep_view()) == self@[i as int],
    {
        (self.entries[i].0, &self.entries[i].1)
    }
}

/// A table keyed by text.
pub struct NameTable<V> {
    entries: Vec<(String, V)>,
}

impl<V: DeepView> View for NameTable<V> {
    type V = Seq<(Seq<char>, V::V)>;

    closed spec fn view(&self) -> Seq<(Seq<char>, V::V)> {
        Seq::new(
            self.entries@.len(),
            |i: int| (self.entries@[i].0@, self.entries@[i].1.deep_view()),
        )
    }
}

impl<V: DeepView> NameTable<V> {
    pub fn new() -> (r: Self)
        ensures
            r@ == Seq::<(Seq<char>, V::V)>::empty(),
    {
        let r = NameTable { entries: Vec::new() };
        assert(r@ =~= Seq::<(Seq<char>, V::V)>::empty());
        r
    }

    fn find(&self, k: &str) -> (r: Option<usize>)
        ensures
            r matches Some(i) ==> i < self.entries@.len(),
            match r {
                Some(i) => tindex(self@, k@) == Some(i as int),
                None => tindex(self@, k@) is None,
            },
    {
        let key = k.to_owned();
        let mut i: usize = 0;
        while i < self.entries.len()
            invariant
                i <= self.entries@.len(),
                key@ == k@,
                forall|j: int| 0 <= j < i ==> self@[j].0 != k@,
            decreases self.entries@.len() - i,
        {
            if self.entries[i].0 == key {
                proof {
                    lemma_tindex(self@, k@, i as int);
                }
                return Some(i);
            }
            i = i + 1;
        }
        proof {
            lemma_tindex(self@, k@, i as int);
        }
        None
    }

    pub fn get(&self, k: &str) -> (r: Option<&V>)
        ensures
            r.deep_view() == tlookup(self@, k@),
    {
        match self.find(k) {
            Some(i) => Some(&self.entries[i].1),
            None => None,
        }
    }

    pub fn insert(&mut self, k: String, v: V)
        ensures
            final(self)@ == tinsert(old(self)@, k@, v.deep_view()),
    {
        let ghost dv = v.deep_view();
        let ghost kv = k@;
        match self.find(k.as_str()) {
            Some(i) => {
                self.entries.set(i, (k, v));
                assert(self@ =~= old(self)@.update(i as int, (kv, dv)));
            },
            None => {
                self.entries.push((k, v));
                assert(self@ =~= old(self)@.push((kv, dv)));
            },
        }
    }

    pub fn remove(&mut self, k: &str) -> (r: Option<V>)
        ensures
            r.deep_view() == tlookup(old(self)@, k@),
            final(self)@ == tremove(old(self)@, k@),
    {
        match self.find(k) {
            Some(i) => {
                let e = self.entries.remove(i);
                assert(self@ =~= old(self)@.remove(i as int));
                Some(e.1)
            },
            None => None,
        }
    }

    pub fn len(&self) -> (r: usize)
        ensures
            r == self@.len(),
    {
        self.entries.len()
    }

    /// The entry at position `i`.
    pub fn entry_at(&self, i: usize) -> (r: (&String, &V))
        requires
            i < self@.len(),
        ensures
            (r.0@, r.1.deep_view()) == self@[i as int],
    {
        (&self.entries[i as usize].0, &self.entries[i as usize].1)
    }

    /// Removes and returns the earliest entry.
    pub fn take_first(&mut self) -> (r: Option<(String, V)>)
        ensures
            old(self)@.len() == 0 ==> r is None && final(self)@ == old(self)@,
            old(self)@.len() > 0 ==> r.deep_view() == Some(old(self)@[0]) && final(self)@
                == old(self)@.subrange(1, old(self)@.len() as int),
    {
        if self.entries.len() == 0 {
            None
        } else {
            let e = self.entries.remove(0);
            assert(self@ =~= old(self)@.subrange(1, old(self)@.len() as int));
            Some(e)
        }
    }
}

/// A set of texts, kept in the order they were first added.
pub struct NameSet {
    items: Vec<String>,
}

impl View for NameSet {
    type V = Seq<Seq<char>>;

    closed spec fn view(&self) -> Seq<Seq<char>> {
        self.items@.map_values(|s: String| s@)
    }
}

/// `s` after adding `k`: unchanged when `k` is already there.
pub open spec fn set_add(s: Seq<Seq<char>>, k: Seq<char>) -> Seq<Seq<char>> {
    if s.contains(k) {
        s
    } else {
        s.push(k)
    }
}

impl NameSet {
    pub fn new() -> (r: Self)
        ensures
            r@ == Seq::<Seq<char>>::empty(),
    {
        let r = NameSet { items: Vec::new() };
        assert(r@ =~= Seq::<Seq<char>>::empty());
        r
    }

    pub fn contains(&self, k: &str) -> (r: bool)
        ensures
            r == self@.contains(k@),
    {
        let mut i: usize = 0;
        while i < self.items.len()
            invariant
                i <= self.items@.len(),
                self@.len() == self.items@.len(),
                forall|j: int| 0 <= j < i ==> self@[j] != k@,
            decreases self.items@.len() - i,
        {
            if crate::text::same_text(self.items[i].as_str(), k) {
                assert(self@[i as int] == k@);
                return true;
            }
            i = i + 1;
        }
        false
    }

    /// Adds `k`; reports whether it was new.
    pub fn insert(&mut self, k: String) -> (r: bool)
        ensures
            r == !old(self)@.contains(k@),
            final(self)@ == set_add(old(self)@, k@),
    {
        if self.contains(k.as_str()) {
            false
        } else {
            let ghost kv = k@;
            self.items.push(k);
            assert(self@ =~= old(self)@.push(kv));
            true
        }
    }
}

} // verus!
