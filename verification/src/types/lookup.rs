//! Insertion-ordered map from text keys to values, used for the
//! per-node and per-handle connection lookups.

use vstd::prelude::*;
use vstd::string::*;
use crate::utils::text::str_eq;

verus! {

/// Keys of a sequence of entries, as character sequences.
pub open spec fn keys_of<V>(s: Seq<(String, V)>) -> Seq<Seq<char>> {
    s.map_values(|e: (String, V)| e.0@)
}

/// Map from text keys to values that remembers insertion order; each key
/// occurs at most once.
pub struct StrMap<V> {
    entries: Vec<(String, V)>,
}

impl<W> View for StrMap<W> {
    type V = Map<Seq<char>, W>;

    /// The map as a mathematical map.
    open spec fn view(&self) -> Map<Seq<char>, W> {
        Map::new(|k: Seq<char>| self.contains(k), |k: Seq<char>| self.value_of(k))
    }
}

impl<V> StrMap<V> {
    /// The entries in insertion order.
    pub closed spec fn entries(&self) -> Seq<(String, V)> {
        self.entries@
    }

    /// Keys in insertion order.
    pub open spec fn keys(&self) -> Seq<Seq<char>> {
        keys_of(self.entries())
    }

    /// Well-formedness: no key occurs twice.
    pub open spec fn wf(&self) -> bool {
        self.keys().no_duplicates()
    }

    /// `true` when `k` is a key of the map.
    pub open spec fn contains(&self, k: Seq<char>) -> bool {
        self.keys().contains(k)
    }

    /// Position of key `k` in insertion order (meaningful when present).
    pub open spec fn index_of_key(&self, k: Seq<char>) -> int {
        choose|i: int| 0 <= i < self.keys().len() && self.keys()[i] == k
    }

    /// Value stored under `k` (meaningful when present).
    pub open spec fn value_of(&self, k: Seq<char>) -> V {
        self.entries()[self.index_of_key(k)].1
    }

    /// An empty map.
    pub fn new() -> (r: StrMap<V>)
        ensures
            r.wf(),
            r.entries() == Seq::<(String, V)>::empty(),
    {
        StrMap { entries: Vec::new() }
    }

    /// Number of keys.
    pub fn len(&self) -> (r: usize)
        ensures
            r == self.entries().len(),
    {
        self.entries.len()
    }

    /// `true` when the map holds no key.
    pub fn is_empty(&self) -> (r: bool)
        ensures
            r == (self.entries().len() == 0),
    {
        self.entries.len() == 0
    }

    /// Position of key `k`, if present.
    pub fn find(&self, k: &str) -> (r: Option<usize>)
        ensures
            match r {
                Some(i) => i < self.entries().len() && self.keys()[i as int] == k@,
                None => !self.contains(k@),
            },
    {
        let n = self.entries.len();
        let mut i: usize = 0;
        while i < n
            invariant
                n == self.entries@.len(),
                i <= n,
                forall|j: int| 0 <= j < i ==> self.keys()[j] != k@,
            decreases n - i,
        {
            if str_eq(self.entries[i].0.as_str(), k) {
                return Some(i);
            }
            i = i + 1;
        }
        None
    }

    /// `true` when `k` is a key of the map.
    pub fn contains_key(&self, k: &str) -> (r: bool)
        ensures
            r == self.contains(k@),
    {
        match self.find(k) {
            Some(_) => true,
            None => false,
        }
    }

    /// Value stored under `k`, if any.
    pub fn get(&self, k: &str) -> (r: Option<&V>)
        requires
            self.wf(),
        ensures
            match r {
                Some(v) => self.contains(k@) && *v == self.value_of(k@),
                None => !self.contains(k@),
            },
    {
        match self.find(k) {
            Some(i) => {
                proof {
                    self.lemma_index_of_key(i as int);
                }
                Some(&self.entries[i].1)
            },
            None => None,
        }
    }

    /// Key at position `i` in insertion order.
    pub fn key_at(&self, i: usize) -> (r: &String)
        requires
            i < self.entries().len(),
        ensures
            *r == self.entries()[i as int].0,
    {
        &self.entries[i].0
    }

    /// Value at position `i` in insertion order.
    pub fn value_at(&self, i: usize) -> (r: &V)
        requires
            i < self.entries().len(),
        ensures
            *r == self.entries()[i as int].1,
    {
        &self.entries[i].1
    }

    /// Remove every key.
    pub fn clear(&mut self)
        ensures
            final(self).wf(),
            final(self).entries() == Seq::<(String, V)>::empty(),
    {
        self.entries.clear();
    }

    /// In a well-formed map, the key at position `i` has position `i`.
    pub proof fn lemma_index_of_key(&self, i: int)
        requires
            self.wf(),
            0 <= i < self.entries().len(),
        ensures
            self.contains(self.keys()[i]),
            self.index_of_key(self.keys()[i]) == i,
            self.value_of(self.keys()[i]) == self.entries()[i].1,
    {
        let k = self.keys()[i];
        assert(self.keys()[i] == k);
        let j = self.index_of_key(k);
        assert(0 <= j < self.keys().len() && self.keys()[j] == k);
    }

    /// Store `v` under `k`: an existing key keeps its position and gets the
    /// new value, a new key goes last.
    pub fn insert(&mut self, k: String, v: V)
        requires
            old(self).wf(),
        ensures
            final(self).wf(),
            old(self).contains(k@) ==> final(self).entries() == old(self).entries().update(
                old(self).index_of_key(k@),
                (k, v),
            ),
            !old(self).contains(k@) ==> final(self).entries() == old(self).entries().push((k, v)),
            final(self)@ == old(self)@.insert(k@, v),
    {
        let ghost old_entries = self.entries@;
        match self.find(k.as_str()) {
            Some(i) => {
                proof {
                    self.lemma_index_of_key(i as int);
                }
                self.entries.set(i, (k, v));
                proof {
                    assert(keys_of(self.entries@) =~= keys_of(old_entries));
                    assert(self.wf());
                    assert forall|q: Seq<char>| #[trigger] self.contains(q) == old(self).contains(q) by {
                        assert(self.keys() =~= old(self).keys());
                    }
                    assert forall|q: Seq<char>| self.contains(q) implies #[trigger] self.value_of(q) == old(self)@.insert(k@, v)[q] by {
                        let j = self.index_of_key(q);
                        self.lemma_index_of_key(j);
                        if q != k@ {
                            old(self).lemma_index_of_key(j);
                        }
                    }
                    assert(self@ =~= old(self)@.insert(k@, v));
                }
            },
            None => {
                self.entries.push((k, v));
                proof {
                    assert(keys_of(self.entries@) =~= keys_of(old_entries).push(k@));
                    assert(self.wf());
                    let n = old_entries.len() as int;
                    assert forall|q: Seq<char>| #[trigger] self.contains(q) == (old(self).contains(q) || q == k@) by {
                        if q == k@ {
                            assert(self.keys()[n] == q);
                        }
                        if old(self).contains(q) {
                            let j = choose|j: int| 0 <= j < old(self).keys().len() && old(self).keys()[j] == q;
                            assert(self.keys()[j] == q);
                        }
                    }
                    assert forall|q: Seq<char>| self.contains(q) implies #[trigger] self.value_of(q) == old(self)@.insert(k@, v)[q] by {
                        let j = self.index_of_key(q);
                        self.lemma_index_of_key(j);
                        if q != k@ {
                            old(self).lemma_index_of_key(j);
                        }
                    }
                    assert(self@ =~= old(self)@.insert(k@, v));
                }
            },
        }
    }
}

/// Replacing the value at one position keeps the keys and changes only
/// that key's value.
pub proof fn lemma_replace_value<V>(before: StrMap<V>, after: StrMap<V>, i: int, v: V)
    requires
        before.wf(),
        0 <= i < before.entries().len(),
        after.entries() == before.entries().update(i, (before.entries()[i].0, v)),
    ensures
        after.wf(),
        after.keys() == before.keys(),
        after@ == before@.insert(before.keys()[i], v),
{
    let k = before.keys()[i];
    assert(after.keys() =~= before.keys());
    assert forall|q: Seq<char>| after.contains(q) implies #[trigger] after.value_of(q) == before@.insert(k, v)[q] by {
        let j = after.index_of_key(q);
        after.lemma_index_of_key(j);
        before.lemma_index_of_key(i);
        if q != k {
            before.lemma_index_of_key(j);
        }
    }
    assert(after@ =~= before@.insert(k, v));
}


/// A read gives back the last write: after storing `v` under `k`, the
/// map holds `k` with `v`, and every other key is present, with its
/// value, exactly as before.
pub proof fn lemma_read_after_write<V>(before: StrMap<V>, after: StrMap<V>, k: Seq<char>, v: V, q: Seq<char>)
    requires
        after@ == before@.insert(k, v),
    ensures
        after.contains(k),
        after.value_of(k) == v,
        q != k ==> after.contains(q) == before.contains(q),
        q != k && before.contains(q) ==> after.value_of(q) == before.value_of(q),
{
    assert(after@.dom().contains(k));
    assert(after@[k] == v);
    if q != k {
        assert(after@.dom().contains(q) == before@.dom().contains(q));
        if before.contains(q) {
            assert(after@[q] == before@[q]);
        }
    }
}

impl<V> StrMap<V> {
    /// Put `v` at position `i`, keeping the key there, and hand back the
    /// value it replaces.
    pub fn replace_at(&mut self, i: usize, v: V) -> (r: V)
        requires
            old(self).wf(),
            i < old(self).entries().len(),
        ensures
            r == old(self).entries()[i as int].1,
            final(self).entries() == old(self).entries().update(
                i as int,
                (old(self).entries()[i as int].0, v),
            ),
            final(self).wf(),
            final(self).keys() == old(self).keys(),
            final(self)@ == old(self)@.insert(old(self).keys()[i as int], v),
    {
        let (k, old_v) = self.entries.remove(i);
        self.entries.insert(i, (k, v));
        proof {
            assert(self.entries@ =~= old(self).entries@.update(i as int, (k, v)));
            lemma_replace_value(*old(self), *self, i as int, v);
        }
        old_v
    }
}

/// `m` with `v` stored under `inner` in the inner map kept under `outer`
/// (an empty inner map when `outer` is absent).
pub open spec fn add_nested<W>(
    m: Map<Seq<char>, Map<Seq<char>, W>>,
    outer: Seq<char>,
    inner: Seq<char>,
    v: W,
) -> Map<Seq<char>, Map<Seq<char>, W>> {
    m.insert(
        outer,
        (if m.dom().contains(outer) {
            m[outer]
        } else {
            Map::empty()
        }).insert(inner, v),
    )
}

/// Two-level lookup: outer text key to an inner [`StrMap`].
impl<W> StrMap<StrMap<W>> {
    /// The outer map and every inner map are well formed.
    pub open spec fn nested_wf(&self) -> bool {
        &&& self.wf()
        &&& forall|i: int| 0 <= i < self.entries().len() ==> (#[trigger] self.entries()[i]).1.wf()
    }

    /// Inner map stored under `k`, the empty map when there is none.
    pub open spec fn inner_view(&self, k: Seq<char>) -> Map<Seq<char>, W> {
        if self.contains(k) {
            self.value_of(k)@
        } else {
            Map::empty()
        }
    }

    /// The two-level lookup as a mathematical map of maps.
    pub open spec fn nested_view(&self) -> Map<Seq<char>, Map<Seq<char>, W>> {
        Map::new(|k: Seq<char>| self.contains(k), |k: Seq<char>| self.inner_view(k))
    }

    /// Store `value` under `inner` in the inner map kept under `outer`,
    /// creating that inner map (last in order) when it does not exist.
    pub fn insert_nested(&mut self, outer: &str, inner: String, value: W)
        requires
            old(self).nested_wf(),
        ensures
            final(self).nested_wf(),
            final(self).keys() == (if old(self).contains(outer@) {
                old(self).keys()
            } else {
                old(self).keys().push(outer@)
            }),
            final(self).inner_view(outer@) == old(self).inner_view(outer@).insert(inner@, value),
            forall|k: Seq<char>| k != outer@ ==> final(self).inner_view(k) == old(self).inner_view(k),
            final(self).nested_view() == add_nested(old(self).nested_view(), outer@, inner@, value),
    {
        self.insert_nested_inner(outer, inner, value);
        proof {
            let ghost nv = add_nested(old(self).nested_view(), outer@, inner@, value);
            assert forall|k: Seq<char>| #[trigger] self.contains(k) == nv.dom().contains(k) by {
                if k == outer@ {
                    if old(self).contains(outer@) {
                    } else {
                        assert(self.keys()[self.keys().len() - 1] == outer@);
                    }
                } else {
                    if old(self).contains(k) {
                        let j = choose|j: int| 0 <= j < old(self).keys().len() && old(self).keys()[j] == k;
                        assert(self.keys()[j] == k);
                    }
                    if self.contains(k) {
                        let j = choose|j: int| 0 <= j < self.keys().len() && self.keys()[j] == k;
                        if !old(self).contains(outer@) && j == old(self).keys().len() {
                        } else {
                            assert(old(self).keys()[j] == k);
                        }
                    }
                }
            }
            assert(self.nested_view() =~= nv);
        }
    }

    fn insert_nested_inner(&mut self, outer: &str, inner: String, value: W)
        requires
            old(self).nested_wf(),
        ensures
            final(self).nested_wf(),
            final(self).keys() == (if old(self).contains(outer@) {
                old(self).keys()
            } else {
                old(self).keys().push(outer@)
            }),
            final(self).inner_view(outer@) == old(self).inner_view(outer@).insert(inner@, value),
            forall|k: Seq<char>| k != outer@ ==> final(self).inner_view(k) == old(self).inner_view(k),
    {
        match self.find(outer) {
            Some(i) => {
                proof {
                    self.lemma_index_of_key(i as int);
                }
                let mut m = self.replace_at(i, StrMap::new());
                let ghost mid = *self;
                m.insert(inner, value);
                self.replace_at(i, m);
                proof {
                    assert forall|j: int| 0 <= j < self.entries().len() implies (#[trigger] self.entries()[j]).1.wf() by {
                        if j != i {
                            assert(self.entries()[j] == old(self).entries()[j]);
                        }
                    }
                    assert forall|k: Seq<char>| k != outer@ implies #[trigger] self.inner_view(k) == old(self).inner_view(k) by {
                        if old(self).contains(k) {
                            let j = old(self).index_of_key(k);
                            old(self).lemma_index_of_key(j);
                            self.lemma_index_of_key(j);
                            assert(self.entries()[j] == old(self).entries()[j]);
                        }
                    }
                    self.lemma_index_of_key(i as int);
                }
            },
            None => {
                let mut m = StrMap::new();
                m.insert(inner, value);
                let key = String::from_str(outer);
                let ghost before = *self;
                self.entries.push((key, m));
                proof {
                    let n = before.entries().len() as int;
                    assert(self.keys() =~= before.keys().push(outer@));
                    assert forall|j: int| 0 <= j < self.entries().len() implies (#[trigger] self.entries()[j]).1.wf() by {
                        if j < n {
                            assert(self.entries()[j] == before.entries()[j]);
                        }
                    }
                    assert(self.wf());
                    self.lemma_index_of_key(n);
                    assert(m@ =~= Map::<Seq<char>, W>::empty().insert(inner@, value));
                    assert forall|k: Seq<char>| k != outer@ implies #[trigger] self.inner_view(k) == old(self).inner_view(k) by {
                        if old(self).contains(k) {
                            let j = old(self).index_of_key(k);
                            old(self).lemma_index_of_key(j);
                            self.lemma_index_of_key(j);
                            assert(self.entries()[j] == old(self).entries()[j]);
                        } else {
                            if self.contains(k) {
                                let j = self.index_of_key(k);
                                self.lemma_index_of_key(j);
                                if j < n {
                                    assert(old(self).keys()[j] == k);
                                }
                            }
                        }
                    }
                }
            },
        }
    }
}

} // verus!
