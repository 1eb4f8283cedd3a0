//! A map keyed by text, kept as a list of entries sorted by key, each key
//! once: two maps with the same contents have the same entries, and the
//! entries come in key order.
//!
//! vstd's specification of `BTreeMap` holds only for keys whose ordering it
//! models, and `String` is not among them, so a `BTreeMap<String, _>` would
//! give no lookup a contract; this map gives every lookup one.

use vstd::prelude::*;

verus! {

/// A map from text keys to values; the entries are sorted by key and each
/// key occurs once.
#[derive(Debug, PartialEq, Eq)]
pub struct TextMap<V> {
    pub entries: Vec<(String, V)>,
}

/// No key occurs twice among the entries.
pub open spec fn distinct_keys<V>(e: Seq<(String, V)>) -> bool {
    forall|i: int, j: int| 0 <= i < j < e.len() ==> #[trigger] e[i].0@ != #[trigger] e[j].0@
}

/// `a` comes before `b` in the order of their characters' code points,
/// character by character, a proper prefix first: the order of `str`.
pub open spec fn text_lt(a: Seq<char>, b: Seq<char>) -> bool
    decreases a.len(),
{
    if a.len() == 0 {
        b.len() > 0
    } else if b.len() == 0 {
        false
    } else if (a[0] as int) < (b[0] as int) {
        true
    } else if a[0] == b[0] {
        text_lt(a.drop_first(), b.drop_first())
    } else {
        false
    }
}

/// The keys of the entries increase.
pub open spec fn sorted_keys<V>(e: Seq<(String, V)>) -> bool {
    forall|i: int, j: int| 0 <= i < j < e.len() ==> text_lt(#[trigger] e[i].0@, #[trigger] e[j].0@)
}

/// No text comes before itself.
pub proof fn lemma_text_lt_irreflexive(a: Seq<char>)
    ensures
        !text_lt(a, a),
    decreases a.len(),
{
    if a.len() > 0 {
        lemma_text_lt_irreflexive(a.drop_first());
    }
}

/// The order of texts is transitive.
pub proof fn lemma_text_lt_transitive(a: Seq<char>, b: Seq<char>, c: Seq<char>)
    requires
        text_lt(a, b),
        text_lt(b, c),
    ensures
        text_lt(a, c),
    decreases a.len(),
{
    if a.len() > 0 && b.len() > 0 && c.len() > 0 && a[0] == b[0] && b[0] == c[0] {
        lemma_text_lt_transitive(a.drop_first(), b.drop_first(), c.drop_first());
    }
}

/// Of two different texts, one comes before the other.
pub proof fn lemma_text_lt_total(a: Seq<char>, b: Seq<char>)
    requires
        a != b,
    ensures
        text_lt(a, b) || text_lt(b, a),
    decreases a.len(),
{
    if a.len() > 0 && b.len() > 0 && a[0] == b[0] {
        if a.drop_first() == b.drop_first() {
            assert(a =~= seq![a[0]] + a.drop_first());
            assert(b =~= seq![b[0]] + b.drop_first());
        }
        lemma_text_lt_total(a.drop_first(), b.drop_first());
    } else if a.len() == 0 && b.len() == 0 {
        assert(a =~= b);
    } else if a.len() > 0 && b.len() > 0 {
        assert((a[0] as int) != (b[0] as int));
    }
}

/// After a common prefix of `i` characters, the order is decided by what
/// follows it.
proof fn lemma_text_lt_skip(a: Seq<char>, b: Seq<char>, i: int)
    requires
        0 <= i <= a.len(),
        i <= b.len(),
        forall|k: int| 0 <= k < i ==> a[k] == b[k],
    ensures
        text_lt(a, b) == text_lt(a.subrange(i, a.len() as int), b.subrange(i, b.len() as int)),
    decreases i,
{
    if i == 0 {
        assert(a.subrange(0, a.len() as int) =~= a);
        assert(b.subrange(0, b.len() as int) =~= b);
    } else {
        let a1 = a.drop_first();
        let b1 = b.drop_first();
        assert forall|k: int| 0 <= k < i - 1 implies a1[k] == b1[k] by {
            assert(a1[k] == a[k + 1]);
            assert(b1[k] == b[k + 1]);
        }
        lemma_text_lt_skip(a1, b1, i - 1);
        assert(a1.subrange(i - 1, a1.len() as int) =~= a.subrange(i, a.len() as int));
        assert(b1.subrange(i - 1, b1.len() as int) =~= b.subrange(i, b.len() as int));
    }
}

/// Whether `a` comes before `b`.
pub fn text_less(a: &str, b: &str) -> (r: bool)
    ensures
        r == text_lt(a@, b@),
{
    let x = crate::text::chars_of(a);
    let y = crate::text::chars_of(b);
    let mut i: usize = 0;
    while i < x.len() && i < y.len()
        invariant
            x@ == a@,
            y@ == b@,
            i <= x.len(),
            i <= y.len(),
            forall|k: int| 0 <= k < i ==> x@[k] == y@[k],
        decreases x.len() - i,
    {
        if x[i] != y[i] {
            proof {
                lemma_text_lt_skip(a@, b@, i as int);
                let sa = a@.subrange(i as int, a@.len() as int);
                let sb = b@.subrange(i as int, b@.len() as int);
                assert(sa[0] == x@[i as int]);
                assert(sb[0] == y@[i as int]);
            }
            return x[i] < y[i];
        }
        i = i + 1;
    }
    proof {
        lemma_text_lt_skip(a@, b@, i as int);
        let sa = a@.subrange(i as int, a@.len() as int);
        let sb = b@.subrange(i as int, b@.len() as int);
        assert(sa.len() == a@.len() - i);
        assert(sb.len() == b@.len() - i);
    }
    i == x.len() && i < y.len()
}

/// The map that a list of entries with distinct keys stands for.
pub open spec fn entries_map<V>(e: Seq<(String, V)>) -> Map<Seq<char>, V>
    decreases e.len(),
{
    if e.len() == 0 {
        Map::empty()
    } else {
        entries_map(e.drop_last()).insert(e.last().0@, e.last().1)
    }
}

/// A key is in the map exactly when some entry carries it.
pub proof fn lemma_entries_map_dom<V>(e: Seq<(String, V)>, k: Seq<char>)
    ensures
        entries_map(e).contains_key(k) <==> exists|i: int| 0 <= i < e.len() && #[trigger] e[i].0@ == k,
    decreases e.len(),
{
    if e.len() > 0 {
        lemma_entries_map_dom(e.drop_last(), k);
        if exists|i: int| 0 <= i < e.len() && #[trigger] e[i].0@ == k {
            let i = choose|i: int| 0 <= i < e.len() && #[trigger] e[i].0@ == k;
            if i < e.len() - 1 {
                assert(e.drop_last()[i].0@ == k);
            }
        }
        if exists|i: int| 0 <= i < e.drop_last().len() && #[trigger] e.drop_last()[i].0@ == k {
            let i = choose|i: int| 0 <= i < e.drop_last().len() && #[trigger] e.drop_last()[i].0@ == k;
            assert(e[i].0@ == k);
        }
    }
}

proof fn lemma_entries_map_at<V>(e: Seq<(String, V)>, i: int)
    requires
        distinct_keys(e),
        0 <= i < e.len(),
    ensures
        entries_map(e).contains_key(e[i].0@),
        entries_map(e)[e[i].0@] == e[i].1,
    decreases e.len(),
{
    if i < e.len() - 1 {
        let d = e.drop_last();
        assert(d[i] == e[i]);
        assert(e.last().0@ != e[i].0@);
        lemma_entries_map_at(d, i);
    }
}

impl<V> TextMap<V> {
    /// The map's contents.
    pub open spec fn map(&self) -> Map<Seq<char>, V> {
        entries_map(self.entries@)
    }

    /// The entries keep their keys distinct and in order.
    pub open spec fn wf(&self) -> bool {
        &&& distinct_keys(self.entries@)
        &&& sorted_keys(self.entries@)
    }

    /// An empty map.
    pub fn new() -> (m: TextMap<V>)
        ensures
            m.wf(),
            m.map() == Map::<Seq<char>, V>::empty(),
    {
        TextMap { entries: Vec::new() }
    }

    /// Number of keys.
    pub fn len(&self) -> (n: usize)
        requires
            self.wf(),
        ensures
            n == self.entries@.len(),
    {
        self.entries.len()
    }

    /// Whether the map has no key.
    pub fn is_empty(&self) -> (b: bool)
        requires
            self.wf(),
        ensures
            b <==> self.map().dom().is_empty(),
    {
        proof {
            if self.entries@.len() > 0 {
                lemma_entries_map_at(self.entries@, 0);
            } else {
                assert(self.map() == Map::<Seq<char>, V>::empty());
            }
        }
        self.entries.len() == 0
    }

    /// Position of the entry with the given key.
    pub fn position(&self, key: &str) -> (r: Option<usize>)
        requires
            self.wf(),
        ensures
            r is None <==> !self.map().contains_key(key@),
            r matches Some(i) ==> i < self.entries@.len() && self.entries@[i as int].0@ == key@
                && self.map()[key@] == self.entries@[i as int].1,
    {
        let mut i: usize = 0;
        while i < self.entries.len()
            invariant
                self.wf(),
                i <= self.entries.len(),
                forall|j: int| 0 <= j < i ==> #[trigger] self.entries@[j].0@ != key@,
            decreases self.entries.len() - i,
        {
            if crate::text::str_eq(self.entries[i].0.as_str(), key) {
                proof {
                    lemma_entries_map_at(self.entries@, i as int);
                }
                return Some(i);
            }
            i = i + 1;
        }
        proof {
            lemma_entries_map_dom(self.entries@, key@);
        }
        None
    }

    /// The value under a key.
    pub fn get(&self, key: &str) -> (r: Option<&V>)
        requires
            self.wf(),
        ensures
            r is None <==> !self.map().contains_key(key@),
            r matches Some(v) ==> *v == self.map()[key@],
    {
        match self.position(key) {
            Some(i) => Some(&self.entries[i].1),
            None => None,
        }
    }

    /// Whether the key is present.
    pub fn contains_key(&self, key: &str) -> (b: bool)
        requires
            self.wf(),
        ensures
            b == self.map().contains_key(key@),
    {
        self.position(key).is_some()
    }

    /// Sets the value under a key, replacing any previous one; a new key
    /// goes where its order puts it.
    pub fn insert(&mut self, key: String, value: V)
        requires
            old(self).wf(),
        ensures
            final(self).wf(),
            final(self).map() == old(self).map().insert(key@, value),
    {
        match self.position(key.as_str()) {
            Some(i) => {
                let ghost k = self.entries@[i as int].0;
                self.entries.set(i, (key, value));
                proof {
                    // the stored key has the same text as the one it replaces
                    assert(self.entries@ =~= old(self).entries@.update(i as int, (key, value)));
                    assert(key@ == k@);
                    let e = old(self).entries@;
                    let u = self.entries@;
                    assert forall|a: int, b: int| 0 <= a < b < u.len() implies text_lt(#[trigger] u[a].0@, #[trigger] u[b].0@) by {
                        assert(u[a].0@ == e[a].0@);
                        assert(u[b].0@ == e[b].0@);
                    }
                }
                assert(self.map() =~= old(self).map().insert(key@, value)) by {
                    lemma_same_text_update(old(self).entries@, i as int, key, value);
                }
            },
            None => {
                proof {
                    lemma_entries_map_dom(self.entries@, key@);
                }
                let mut p: usize = 0;
                while p < self.entries.len() && !text_less(key.as_str(), self.entries[p].0.as_str())
                    invariant
                        *self == *old(self),
                        self.wf(),
                        p <= self.entries.len(),
                        forall|q: int| 0 <= q < self.entries@.len() ==> #[trigger] self.entries@[q].0@ != key@,
                        forall|q: int| 0 <= q < p ==> text_lt(#[trigger] self.entries@[q].0@, key@),
                    decreases self.entries.len() - p,
                {
                    proof {
                        lemma_text_lt_total(key@, self.entries@[p as int].0@);
                    }
                    p = p + 1;
                }
                let ghost e = self.entries@;
                let ghost x = (key, value);
                proof {
                    if p < e.len() {
                        assert(text_lt(key@, e[p as int].0@));
                    }
                    lemma_insert_at(e, p as int, key, value);
                }
                self.entries.insert(p, (key, value));
                proof {
                    let u = self.entries@;
                    assert(u =~= e.insert(p as int, x));
                    assert forall|a: int, b: int| 0 <= a < b < u.len() implies text_lt(#[trigger] u[a].0@, #[trigger] u[b].0@) by {
                        if b < p {
                            assert(u[a] == e[a] && u[b] == e[b]);
                        } else if b == p {
                            assert(u[a] == e[a]);
                        } else if a < p {
                            assert(u[a] == e[a] && u[b] == e[b - 1]);
                            assert(text_lt(e[p as int].0@, e[b - 1].0@) || b - 1 == p);
                            lemma_text_lt_transitive(e[a].0@, key@, e[p as int].0@);
                            if b - 1 > p {
                                lemma_text_lt_transitive(e[a].0@, e[p as int].0@, e[b - 1].0@);
                            }
                        } else if a == p {
                            assert(u[b] == e[b - 1]);
                            if b - 1 > p {
                                lemma_text_lt_transitive(key@, e[p as int].0@, e[b - 1].0@);
                            }
                        } else {
                            assert(u[a] == e[a - 1] && u[b] == e[b - 1]);
                        }
                    }
                }
            },
        }
    }

    /// Removes every key.
    pub fn clear(&mut self)
        ensures
            final(self).wf(),
            final(self).map() == Map::<Seq<char>, V>::empty(),
    {
        self.entries.clear();
    }
}

/// Adding an entry with a new key at any position stands for the map with
/// that key added, and keeps the keys distinct.
proof fn lemma_insert_at<V>(e: Seq<(String, V)>, p: int, key: String, v: V)
    requires
        distinct_keys(e),
        0 <= p <= e.len(),
        forall|q: int| 0 <= q < e.len() ==> #[trigger] e[q].0@ != key@,
    ensures
        distinct_keys(e.insert(p, (key, v))),
        entries_map(e.insert(p, (key, v))) == entries_map(e).insert(key@, v),
    decreases e.len(),
{
    let u = e.insert(p, (key, v));
    assert forall|a: int, b: int| 0 <= a < b < u.len() implies #[trigger] u[a].0@ != #[trigger] u[b].0@ by {
        if b < p {
            assert(u[a] == e[a] && u[b] == e[b]);
        } else if b == p {
            assert(u[a] == e[a]);
        } else if a < p {
            assert(u[a] == e[a] && u[b] == e[b - 1]);
        } else if a == p {
            assert(u[b] == e[b - 1]);
        } else {
            assert(u[a] == e[a - 1] && u[b] == e[b - 1]);
        }
    }
    if p == e.len() {
        assert(u.drop_last() =~= e);
        assert(u.last() == (key, v));
    } else {
        let d = e.drop_last();
        assert(u.drop_last() =~= d.insert(p, (key, v)));
        assert(u.last() == e.last());
        assert forall|q: int| 0 <= q < d.len() implies #[trigger] d[q].0@ != key@ by {
            assert(d[q] == e[q]);
        }
        assert forall|a: int, b: int| 0 <= a < b < d.len() implies #[trigger] d[a].0@ != #[trigger] d[b].0@ by {
            assert(d[a] == e[a] && d[b] == e[b]);
        }
        lemma_insert_at(d, p, key, v);
        assert(e.last().0@ != key@);
        assert(entries_map(u) =~= entries_map(e).insert(key@, v));
    }
}

proof fn lemma_same_text_update<V>(e: Seq<(String, V)>, i: int, key: String, v: V)
    requires
        distinct_keys(e),
        0 <= i < e.len(),
        e[i].0@ == key@,
    ensures
        distinct_keys(e.update(i, (key, v))),
        entries_map(e.update(i, (key, v))) == entries_map(e).insert(key@, v),
    decreases e.len(),
{
    let u = e.update(i, (key, v));
    assert forall|a: int, b: int| 0 <= a < b < u.len() implies #[trigger] u[a].0@ != #[trigger] u[b].0@ by {
        assert(u[a].0@ == e[a].0@);
        assert(u[b].0@ == e[b].0@);
    }
    if i == e.len() - 1 {
        assert(u.drop_last() =~= e.drop_last());
        assert(entries_map(u) =~= entries_map(e).insert(key@, v));
    } else {
        let d = e.drop_last();
        assert(u.drop_last() =~= d.update(i, (key, v)));
        lemma_same_text_update(d, i, key, v);
        assert(e.last().0@ != e[i].0@);
        assert(entries_map(u) =~= entries_map(e).insert(key@, v));
    }
}

} // verus!
