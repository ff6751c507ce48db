//! Maps and sets keyed by text. Both keep their entries in the order in which
//! the keys first came in, and no key occurs twice.
use vstd::prelude::*;

use crate::text::same;

verus! {

// ---------------------------------------------------------------------
// The model: a sequence of entries with distinct keys
// ---------------------------------------------------------------------

/// The position of the first entry under `k`, or the number of entries.
pub open spec fn key_index<T>(m: Seq<(Seq<char>, T)>, k: Seq<char>) -> int
    decreases m.len(),
{
    if m.len() == 0 || m[0].0 == k {
        0
    } else {
        1 + key_index(m.drop_first(), k)
    }
}

/// Whether there is an entry under `k`.
pub open spec fn has_key<T>(m: Seq<(Seq<char>, T)>, k: Seq<char>) -> bool {
    key_index(m, k) < m.len()
}

/// What stands under `k`.
pub open spec fn lookup<T>(m: Seq<(Seq<char>, T)>, k: Seq<char>) -> Option<T> {
    if has_key(m, k) {
        Some(m[key_index(m, k)].1)
    } else {
        None
    }
}

/// `m` with `v` under `k`: in place of what stood there, else at the end.
pub open spec fn put<T>(m: Seq<(Seq<char>, T)>, k: Seq<char>, v: T) -> Seq<(Seq<char>, T)> {
    if has_key(m, k) {
        m.update(key_index(m, k), (k, v))
    } else {
        m.push((k, v))
    }
}

/// `m` without the entry under `k`.
pub open spec fn removed<T>(m: Seq<(Seq<char>, T)>, k: Seq<char>) -> Seq<(Seq<char>, T)> {
    if has_key(m, k) {
        m.remove(key_index(m, k))
    } else {
        m
    }
}

/// No key occurs twice.
pub open spec fn distinct_keys<T>(m: Seq<(Seq<char>, T)>) -> bool {
    forall|i: int, j: int| 0 <= i < j < m.len() ==> m[i].0 != m[j].0
}

pub proof fn key_index_bounds<T>(m: Seq<(Seq<char>, T)>, k: Seq<char>)
    ensures
        0 <= key_index(m, k) <= m.len(),
        key_index(m, k) < m.len() ==> m[key_index(m, k)].0 == k,
        forall|i: int| 0 <= i < key_index(m, k) ==> m[i].0 != k,
    decreases m.len(),
{
    if m.len() > 0 && m[0].0 != k {
        key_index_bounds(m.drop_first(), k);
        assert forall|i: int| 0 <= i < key_index(m, k) implies m[i].0 != k by {
            if i > 0 {
                assert(m.drop_first()[i - 1] == m[i]);
            }
        }
    }
}

/// The first position whose key is `k` is `key_index`.
pub proof fn key_index_unique<T>(m: Seq<(Seq<char>, T)>, k: Seq<char>, i: int)
    requires
        0 <= i <= m.len(),
        i < m.len() ==> m[i].0 == k,
        forall|j: int| 0 <= j < i ==> m[j].0 != k,
    ensures
        key_index(m, k) == i,
{
    key_index_bounds(m, k);
    let p = key_index(m, k);
    if p < i {
        assert(m[p].0 != k);
    } else if i < p {
        assert(m[i].0 != k);
    }
}

/// After `put`, the key holds the new value, every other key what it held,
/// and keys stay distinct.
pub proof fn put_law<T>(m: Seq<(Seq<char>, T)>, k: Seq<char>, v: T, other: Seq<char>)
    ensures
        lookup(put(m, k, v), k) == Some(v),
        other != k ==> lookup(put(m, k, v), other) == lookup(m, other),
        distinct_keys(m) ==> distinct_keys(put(m, k, v)),
{
    key_index_bounds(m, k);
    key_index_bounds(m, other);
    let i = key_index(m, k);
    let p = put(m, k, v);
    key_index_unique(p, k, i);
    if other != k {
        let j = key_index(m, other);
        if j < m.len() {
            key_index_unique(p, other, j);
        } else {
            key_index_unique(p, other, p.len() as int);
        }
    }
    if distinct_keys(m) {
        assert forall|a: int, b: int| 0 <= a < b < p.len() implies p[a].0 != p[b].0 by {
            if has_key(m, k) {
                assert(p[a].0 == m[a].0 && p[b].0 == m[b].0);
            } else if b == m.len() {
                assert(m[a].0 != k);
            }
        }
    }
}

/// Of two values put under one key the second stays.
pub proof fn put_twice<T>(m: Seq<(Seq<char>, T)>, k: Seq<char>, a: T, b: T)
    ensures
        put(put(m, k, a), k, b) == put(m, k, b),
{
    put_law(m, k, a, k);
    key_index_bounds(m, k);
    let i = key_index(m, k);
    let p = put(m, k, a);
    key_index_unique(p, k, i);
    assert(put(p, k, b) =~= put(m, k, b));
}

/// An entry under a new key at the end is found under its key, and hides
/// nothing.
pub proof fn push_law<T>(m: Seq<(Seq<char>, T)>, k: Seq<char>, v: T, other: Seq<char>)
    requires
        lookup(m, k) is None,
    ensures
        lookup(m.push((k, v)), k) == Some(v),
        other != k ==> lookup(m.push((k, v)), other) == lookup(m, other),
{
    key_index_bounds(m, k);
    key_index_bounds(m, other);
    let p = m.push((k, v));
    key_index_unique(p, k, m.len() as int);
    if other != k {
        let j = key_index(m, other);
        if j < m.len() {
            key_index_unique(p, other, j);
        } else {
            key_index_unique(p, other, p.len() as int);
        }
    }
}

/// Leaving out entries leaves out exactly those: what stays is found as
/// before.
pub proof fn filter_law<T>(
    m: Seq<(Seq<char>, T)>,
    f: spec_fn((Seq<char>, T)) -> bool,
    k: Seq<char>,
)
    requires
        distinct_keys(m),
    ensures
        lookup(m.filter(f), k) == (match lookup(m, k) {
            Some(v) => if f((k, v)) {
                Some(v)
            } else {
                None
            },
            None => None,
        }),
    decreases m.len(),
{
    reveal(Seq::filter);
    if m.len() > 0 {
        let init = m.drop_last();
        let (last, v) = m.last();
        filter_law(init, f, k);
        filter_law(init, f, last);
        key_index_bounds(init, last);
        if has_key(init, last) {
            assert(m[key_index(init, last)].0 == last);
        }
        assert(lookup(init, last) is None);
        assert(init.push((last, v)) =~= m);
        push_law(init, last, v, k);
        push_law(init.filter(f), last, v, k);
    } else {
        key_index_bounds(m, k);
        key_index_bounds(m.filter(f), k);
    }
}

/// After `removed`, the key holds nothing, every other key what it held, and
/// keys stay distinct.
pub proof fn removed_law<T>(m: Seq<(Seq<char>, T)>, k: Seq<char>, other: Seq<char>)
    requires
        distinct_keys(m),
    ensures
        lookup(removed(m, k), k) is None,
        other != k ==> lookup(removed(m, k), other) == lookup(m, other),
        distinct_keys(removed(m, k)),
{
    key_index_bounds(m, k);
    key_index_bounds(m, other);
    let i = key_index(m, k);
    let p = removed(m, k);
    if i < m.len() {
        assert forall|a: int| 0 <= a < p.len() implies p[a] == (if a < i {
            m[a]
        } else {
            m[a + 1]
        }) by {}
        key_index_unique(p, k, p.len() as int);
        if other != k {
            let j = key_index(m, other);
            if j >= m.len() {
                key_index_unique(p, other, p.len() as int);
            } else if j < i {
                key_index_unique(p, other, j);
            } else {
                key_index_unique(p, other, j - 1);
            }
        }
    }
}

// ---------------------------------------------------------------------
// StrMap
// ---------------------------------------------------------------------

/// A map from text to `V`.
pub struct StrMap<V> {
    entries: Vec<(String, V)>,
}

impl<V: DeepView> DeepView for StrMap<V> {
    type V = Seq<(Seq<char>, V::V)>;

    closed spec fn deep_view(&self) -> Seq<(Seq<char>, V::V)> {
        self.entries.deep_view()
    }
}

impl<V> StrMap<V> {
    #[verifier::type_invariant]
    spec fn keys_are_distinct(self) -> bool {
        forall|i: int, j: int|
            0 <= i < j < self.entries@.len() ==> self.entries@[i].0@ != self.entries@[j].0@
    }
}

impl<V: DeepView> StrMap<V> {
    /// An empty map.
    pub fn new() -> (r: StrMap<V>)
        ensures
            r.deep_view() == Seq::<(Seq<char>, V::V)>::empty(),
    {
        let entries: Vec<(String, V)> = Vec::new();
        let r = StrMap { entries };
        assert(r.deep_view() =~= Seq::<(Seq<char>, V::V)>::empty());
        r
    }

    fn find(&self, k: &str) -> (r: usize)
        ensures
            r == key_index(self.deep_view(), k@),
            r <= self.entries@.len(),
    {
        let ghost m = self.deep_view();
        let mut i: usize = 0;
        while i < self.entries.len()
            invariant
                m == self.entries.deep_view(),
                i <= self.entries@.len(),
                forall|j: int| 0 <= j < i ==> m[j].0 != k@,
            decreases self.entries@.len() - i,
        {
            assert(m[i as int].0 == self.entries@[i as int].0@);
            if same(self.entries[i].0.as_str(), k) {
                proof {
                    key_index_unique(m, k@, i as int);
                }
                return i;
            }
            i = i + 1;
        }
        proof {
            key_index_unique(m, k@, i as int);
        }
        i
    }

    /// How many keys there are; no key is counted twice.
    pub fn len(&self) -> (r: usize)
        ensures
            r == self.deep_view().len(),
            distinct_keys(self.deep_view()),
    {
        proof {
            use_type_invariant(self);
            let m = self.deep_view();
            assert forall|i: int, j: int| 0 <= i < j < m.len() implies m[i].0 != m[j].0 by {
                assert(m[i].0 == self.entries@[i].0@ && m[j].0 == self.entries@[j].0@);
            }
        }
        self.entries.len()
    }

    /// Whether there is no key.
    pub fn is_empty(&self) -> (r: bool)
        ensures
            r == (self.deep_view().len() == 0),
    {
        self.entries.len() == 0
    }

    /// Whether `k` is a key.
    pub fn contains_key(&self, k: &str) -> (r: bool)
        ensures
            r == has_key(self.deep_view(), k@),
    {
        let i = self.find(k);
        i < self.entries.len()
    }

    /// What stands under `k`.
    pub fn get(&self, k: &str) -> (r: Option<&V>)
        ensures
            match r {
                Some(v) => lookup(self.deep_view(), k@) == Some(v.deep_view()),
                None => lookup(self.deep_view(), k@) is None,
            },
    {
        let i = self.find(k);
        if i < self.entries.len() {
            assert(self.deep_view()[i as int].1 == self.entries@[i as int].1.deep_view());
            Some(&self.entries[i].1)
        } else {
            None
        }
    }

    /// The key of the entry at `i`.
    pub fn key_at(&self, i: usize) -> (r: &String)
        requires
            i < self.deep_view().len(),
        ensures
            r@ == self.deep_view()[i as int].0,
    {
        &self.entries[i].0
    }

    /// The value of the entry at `i`.
    pub fn value_at(&self, i: usize) -> (r: &V)
        requires
            i < self.deep_view().len(),
        ensures
            r.deep_view() == self.deep_view()[i as int].1,
    {
        &self.entries[i].1
    }

    /// Puts `v` under `k`.
    pub fn insert(&mut self, k: String, v: V)
        ensures
            final(self).deep_view() == put(old(self).deep_view(), k@, v.deep_view()),
    {
        let i = self.find(k.as_str());
        let n = self.len();
        proof {
            put_law(self.deep_view(), k@, v.deep_view(), k@);
        }
        if i < n {
            self.replace_at(i, k, v);
        } else {
            self.push_new(k, v);
        }
    }

    fn replace_at(&mut self, i: usize, k: String, v: V)
        requires
            i < old(self).deep_view().len(),
            distinct_keys(old(self).deep_view().update(i as int, (k@, v.deep_view()))),
        ensures
            final(self).deep_view() == old(self).deep_view().update(i as int, (k@, v.deep_view())),
    {
        let ghost before = self.deep_view();
        let ghost target = before.update(i as int, (k@, v.deep_view()));
        let ghost es = self.entries@.update(i as int, (k, v));
        assert(Seq::new(es.len(), |j: int| es[j].deep_view()) =~= target);
        let mut entries: Vec<(String, V)> = Vec::new();
        core::mem::swap(&mut self.entries, &mut entries);
        entries[i] = (k, v);
        proof {
            assert(entries.deep_view() =~= target);
            assert forall|a: int, b: int| 0 <= a < b < entries@.len() implies entries@[a].0@
                != entries@[b].0@ by {
                assert(target[a].0 == entries@[a].0@ && target[b].0 == entries@[b].0@);
            }
        }
        self.entries = entries;
        assert(self.deep_view() =~= target);
    }

    fn push_new(&mut self, k: String, v: V)
        requires
            distinct_keys(old(self).deep_view().push((k@, v.deep_view()))),
        ensures
            final(self).deep_view() == old(self).deep_view().push((k@, v.deep_view())),
    {
        let ghost before = self.deep_view();
        let ghost target = before.push((k@, v.deep_view()));
        let ghost es = self.entries@.push((k, v));
        assert(Seq::new(es.len(), |j: int| es[j].deep_view()) =~= target);
        let mut entries: Vec<(String, V)> = Vec::new();
        core::mem::swap(&mut self.entries, &mut entries);
        entries.push((k, v));
        proof {
            assert(entries.deep_view() =~= target);
            assert forall|a: int, b: int| 0 <= a < b < entries@.len() implies entries@[a].0@
                != entries@[b].0@ by {
                assert(target[a].0 == entries@[a].0@ && target[b].0 == entries@[b].0@);
            }
        }
        self.entries = entries;
        assert(self.deep_view() =~= target);
    }

    /// Puts `v` under `k` and returns what stood there.
    pub fn replace(&mut self, k: &str, v: V) -> (r: Option<V>)
        ensures
            r.deep_view() == lookup(old(self).deep_view(), k@),
            final(self).deep_view() == put(old(self).deep_view(), k@, v.deep_view()),
    {
        let i = self.find(k);
        let n = self.len();
        proof {
            put_law(self.deep_view(), k@, v.deep_view(), k@);
        }
        if i < n {
            Some(self.exchange_at(i, k, v))
        } else {
            self.push_new(k.to_owned(), v);
            None
        }
    }

    fn exchange_at(&mut self, i: usize, k: &str, v: V) -> (r: V)
        requires
            i < old(self).deep_view().len(),
            distinct_keys(old(self).deep_view().update(i as int, (k@, v.deep_view()))),
        ensures
            r.deep_view() == old(self).deep_view()[i as int].1,
            final(self).deep_view() == old(self).deep_view().update(i as int, (k@, v.deep_view())),
    {
        let ghost before = self.deep_view();
        let ghost target = before.update(i as int, (k@, v.deep_view()));
        let mut entries: Vec<(String, V)> = Vec::new();
        core::mem::swap(&mut self.entries, &mut entries);
        let r = entries.remove(i).1;
        entries.insert(i, (k.to_owned(), v));
        proof {
            assert(entries.deep_view() =~= target);
            assert forall|a: int, b: int| 0 <= a < b < entries@.len() implies entries@[a].0@
                != entries@[b].0@ by {
                assert(target[a].0 == entries@[a].0@ && target[b].0 == entries@[b].0@);
            }
        }
        self.entries = entries;
        assert(self.deep_view() =~= target);
        r
    }

    /// Takes the entry under `k` out and returns what stood there.
    pub fn remove(&mut self, k: &str) -> (r: Option<V>)
        ensures
            r.deep_view() == lookup(old(self).deep_view(), k@),
            final(self).deep_view() == removed(old(self).deep_view(), k@),
    {
        let i = self.find(k);
        if i < self.entries.len() {
            Some(self.remove_at(i).1)
        } else {
            None
        }
    }

    /// Takes the entry at `i` out and returns it.
    pub fn remove_at(&mut self, i: usize) -> (r: (String, V))
        requires
            i < old(self).deep_view().len(),
        ensures
            r.deep_view() == old(self).deep_view()[i as int],
            final(self).deep_view() == old(self).deep_view().remove(i as int),
    {
        proof {
            use_type_invariant(&*self);
            let before = self.deep_view();
            let target = before.remove(i as int);
            let es = self.entries@.remove(i as int);
            assert(Seq::new(es.len(), |j: int| es[j].deep_view()) =~= target);
            assert forall|a: int, b: int| 0 <= a < b < target.len() implies target[a].0
                != target[b].0 by {
                let x = if a < i { a } else { a + 1 };
                let y = if b < i { b } else { b + 1 };
                assert(target[a] == before[x] && target[b] == before[y]);
            }
        }
        let mut entries: Vec<(String, V)> = Vec::new();
        core::mem::swap(&mut self.entries, &mut entries);
        let r = entries.remove(i);
        self.entries = entries;
        assert(self.deep_view() =~= old(self).deep_view().remove(i as int));
        r
    }

    /// Takes every entry out.
    pub fn clear(&mut self)
        ensures
            final(self).deep_view() == Seq::<(Seq<char>, V::V)>::empty(),
    {
        *self = StrMap::new();
    }
}

// ---------------------------------------------------------------------
// StrSet
// ---------------------------------------------------------------------

/// `s` with `k` in it: unchanged when it was there, else with `k` at the end.
pub open spec fn with_member(s: Seq<Seq<char>>, k: Seq<char>) -> Seq<Seq<char>> {
    if s.contains(k) {
        s
    } else {
        s.push(k)
    }
}

/// `s` without `k`.
pub open spec fn without_member(s: Seq<Seq<char>>, k: Seq<char>) -> Seq<Seq<char>> {
    if s.contains(k) {
        s.remove(s.index_of(k))
    } else {
        s
    }
}

/// A member that is put in is there, and the others are as before.
pub proof fn with_member_law(s: Seq<Seq<char>>, k: Seq<char>, other: Seq<char>)
    ensures
        with_member(s, k).contains(k),
        other != k ==> with_member(s, k).contains(other) == s.contains(other),
{
    let n = s.push(k);
    if !s.contains(k) {
        assert(n[s.len() as int] == k);
        if s.contains(other) {
            assert(n[s.index_of(other)] == other);
        }
    }
}

/// A member that is taken out is gone, and the others are as before.
pub proof fn without_member_law(s: Seq<Seq<char>>, k: Seq<char>, other: Seq<char>)
    requires
        s.no_duplicates(),
    ensures
        !without_member(s, k).contains(k),
        other != k ==> without_member(s, k).contains(other) == s.contains(other),
{
    if s.contains(k) {
        let at = s.index_of(k);
        let n = s.remove(at);
        if n.contains(k) {
            let i = n.index_of(k);
            assert(s[if i < at {
                i
            } else {
                i + 1
            }] == k);
        }
        if other != k && s.contains(other) {
            let i = s.index_of(other);
            assert(n[if i < at {
                i
            } else {
                i - 1
            }] == other);
        }
        if other != k && n.contains(other) {
            let i = n.index_of(other);
            assert(s[if i < at {
                i
            } else {
                i + 1
            }] == other);
        }
    }
}

/// A set of texts.
pub struct StrSet {
    members: Vec<String>,
}

impl DeepView for StrSet {
    type V = Seq<Seq<char>>;

    closed spec fn deep_view(&self) -> Seq<Seq<char>> {
        self.members.deep_view()
    }
}

impl StrSet {
    #[verifier::type_invariant]
    spec fn members_are_distinct(self) -> bool {
        self.members.deep_view().no_duplicates()
    }

    /// An empty set.
    pub fn new() -> (r: StrSet)
        ensures
            r.deep_view() == Seq::<Seq<char>>::empty(),
    {
        let members: Vec<String> = Vec::new();
        let r = StrSet { members };
        assert(r.deep_view() =~= Seq::<Seq<char>>::empty());
        r
    }

    fn find(&self, k: &str) -> (r: Option<usize>)
        ensures
            match r {
                Some(i) => i < self.members@.len() && self.deep_view().contains(k@)
                    && self.deep_view().index_of(k@) == i,
                None => !self.deep_view().contains(k@),
            },
    {
        let ghost m = self.deep_view();
        let mut i: usize = 0;
        while i < self.members.len()
            invariant
                m == self.members.deep_view(),
                i <= self.members@.len(),
                forall|j: int| 0 <= j < i ==> m[j] != k@,
            decreases self.members@.len() - i,
        {
            assert(m[i as int] == self.members@[i as int]@);
            if same(self.members[i].as_str(), k) {
                proof {
                    use_type_invariant(self);
                    let p = m.index_of(k@);
                    assert(m.contains(k@));
                    assert(m[p] == k@);
                    assert(p == i);
                }
                return Some(i);
            }
            i = i + 1;
        }
        None
    }

    /// How many members there are; none is counted twice.
    pub fn len(&self) -> (r: usize)
        ensures
            r == self.deep_view().len(),
            self.deep_view().no_duplicates(),
    {
        proof {
            use_type_invariant(self);
        }
        self.members.len()
    }

    /// Whether there is no member.
    pub fn is_empty(&self) -> (r: bool)
        ensures
            r == (self.deep_view().len() == 0),
    {
        self.members.len() == 0
    }

    /// Whether `k` is a member.
    pub fn contains(&self, k: &str) -> (r: bool)
        ensures
            r == self.deep_view().contains(k@),
    {
        self.find(k).is_some()
    }

    /// The member at `i`.
    pub fn at(&self, i: usize) -> (r: &String)
        requires
            i < self.deep_view().len(),
        ensures
            r@ == self.deep_view()[i as int],
    {
        &self.members[i]
    }

    /// Makes `k` a member; `true` when it was none before.
    pub fn insert(&mut self, k: String) -> (r: bool)
        ensures
            r == !old(self).deep_view().contains(k@),
            final(self).deep_view() == with_member(old(self).deep_view(), k@),
    {
        if self.contains(k.as_str()) {
            return false;
        }
        let ghost target = self.deep_view().push(k@);
        proof {
            use_type_invariant(&*self);
            let es = self.members@.push(k);
            assert(Seq::new(es.len(), |j: int| es[j].deep_view()) =~= target);
            assert(target.no_duplicates());
        }
        let mut members: Vec<String> = Vec::new();
        core::mem::swap(&mut self.members, &mut members);
        members.push(k);
        self.members = members;
        assert(self.deep_view() =~= target);
        true
    }

    /// Takes `k` out; `true` when it was a member.
    pub fn remove(&mut self, k: &str) -> (r: bool)
        ensures
            r == old(self).deep_view().contains(k@),
            final(self).deep_view() == without_member(old(self).deep_view(), k@),
    {
        match self.find(k) {
            Some(i) => {
                let ghost before = self.deep_view();
                let ghost target = before.remove(i as int);
                proof {
                    use_type_invariant(&*self);
                    let es = self.members@.remove(i as int);
                    assert(Seq::new(es.len(), |j: int| es[j].deep_view()) =~= target);
                    assert forall|a: int, b: int|
                        0 <= a < target.len() && 0 <= b < target.len() && a != b implies target[a]
                        != target[b] by {
                        let x = if a < i { a } else { a + 1 };
                        let y = if b < i { b } else { b + 1 };
                        assert(target[a] == before[x] && target[b] == before[y]);
                    }
                }
                let mut members: Vec<String> = Vec::new();
                core::mem::swap(&mut self.members, &mut members);
                let _ = members.remove(i);
                self.members = members;
                assert(self.deep_view() =~= target);
                true
            },
            None => false,
        }
    }

    /// Takes every member out.
    pub fn clear(&mut self)
        ensures
            final(self).deep_view() == Seq::<Seq<char>>::empty(),
    {
        *self = StrSet::new();
    }
}

} // verus!
