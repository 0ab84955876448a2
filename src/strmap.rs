//! Maps from strings to strings, kept sorted by key with each key once:
//! metadata and merge variables.
use vstd::prelude::*;
use crate::text::str_eq;

verus! {

/// Key-value pairs of strings, each as characters.
pub open spec fn pairs_view(s: Seq<(String, String)>) -> Seq<(Seq<char>, Seq<char>)> {
    s.map_values(|p: (String, String)| (p.0@, p.1@))
}

/// No key occurs twice.
pub open spec fn keys_unique(s: Seq<(Seq<char>, Seq<char>)>) -> bool {
    forall|i: int, j: int| 0 <= i < j < s.len() ==> s[i].0 != s[j].0
}

/// The map that a list of pairs describes.
pub open spec fn map_of(s: Seq<(Seq<char>, Seq<char>)>) -> Map<Seq<char>, Seq<char>>
    decreases s.len(),
{
    if s.len() == 0 {
        Map::empty()
    } else {
        map_of(s.drop_last()).insert(s.last().0, s.last().1)
    }
}

/// The order of keys: lexicographic by code point, as `String`'s `Ord`
/// (and so `BTreeMap`) orders them.
pub open spec fn key_lt(a: Seq<char>, b: Seq<char>) -> bool
    decreases a.len(),
{
    if a.len() == 0 {
        b.len() > 0
    } else if b.len() == 0 {
        false
    } else if a[0] != b[0] {
        (a[0] as int) < (b[0] as int)
    } else {
        key_lt(a.drop_first(), b.drop_first())
    }
}

/// Keys strictly increase, so no key occurs twice.
pub open spec fn keys_sorted(s: Seq<(Seq<char>, Seq<char>)>) -> bool {
    forall|i: int, j: int| 0 <= i < j < s.len() ==> key_lt(s[i].0, s[j].0)
}

pub proof fn lemma_key_lt_irreflexive(a: Seq<char>)
    ensures
        !key_lt(a, a),
    decreases a.len(),
{
    if a.len() > 0 {
        lemma_key_lt_irreflexive(a.drop_first());
    }
}

pub proof fn lemma_key_lt_total(a: Seq<char>, b: Seq<char>)
    ensures
        a == b || key_lt(a, b) || key_lt(b, a),
    decreases a.len(),
{
    if a.len() > 0 && b.len() > 0 && a[0] == b[0] {
        lemma_key_lt_total(a.drop_first(), b.drop_first());
        if a.drop_first() == b.drop_first() {
            assert(a =~= seq![a[0]] + a.drop_first());
            assert(b =~= seq![b[0]] + b.drop_first());
        }
    } else if a.len() > 0 && b.len() > 0 {
        assert(a[0] as int != b[0] as int);
    } else if a.len() == 0 && b.len() == 0 {
        assert(a =~= b);
    }
}

pub proof fn lemma_key_lt_transitive(a: Seq<char>, b: Seq<char>, c: Seq<char>)
    requires
        key_lt(a, b),
        key_lt(b, c),
    ensures
        key_lt(a, c),
    decreases a.len(),
{
    if a.len() > 0 && b.len() > 0 && c.len() > 0 && a[0] == b[0] && b[0] == c[0] {
        lemma_key_lt_transitive(a.drop_first(), b.drop_first(), c.drop_first());
    }
}

/// Sorted keys are unique.
pub proof fn lemma_sorted_unique(s: Seq<(Seq<char>, Seq<char>)>)
    requires
        keys_sorted(s),
    ensures
        keys_unique(s),
{
    assert forall|i: int, j: int| 0 <= i < j < s.len() implies s[i].0 != s[j].0 by {
        lemma_key_lt_irreflexive(s[i].0);
    }
}

/// Whether `a` comes before `b` in key order.
pub fn str_lt(a: &str, b: &str) -> (r: bool)
    ensures
        r == key_lt(a@, b@),
{
    let n = a.unicode_len();
    let m = b.unicode_len();
    let mut i: usize = 0;
    assert(a@.skip(0) =~= a@ && b@.skip(0) =~= b@);
    loop
        invariant
            n == a@.len(),
            m == b@.len(),
            i <= n,
            i <= m,
            key_lt(a@, b@) == key_lt(a@.skip(i as int), b@.skip(i as int)),
        decreases n - i,
    {
        if i == n {
            return i < m;
        }
        if i == m {
            return false;
        }
        let ca = a.get_char(i);
        let cb = b.get_char(i);
        assert(a@.skip(i as int)[0] == ca && b@.skip(i as int)[0] == cb);
        if ca != cb {
            return ca < cb;
        }
        assert(a@.skip(i as int).drop_first() =~= a@.skip(i + 1));
        assert(b@.skip(i as int).drop_first() =~= b@.skip(i + 1));
        i = i + 1;
    }
}

/// Inserting a pair whose key is absent inserts it in the map.
pub proof fn lemma_map_of_insert(s: Seq<(Seq<char>, Seq<char>)>, p: int, x: (Seq<char>, Seq<char>))
    requires
        0 <= p <= s.len(),
        forall|i: int| 0 <= i < s.len() ==> s[i].0 != x.0,
    ensures
        map_of(s.insert(p, x)) == map_of(s).insert(x.0, x.1),
    decreases s.len(),
{
    let u = s.insert(p, x);
    if p == s.len() {
        assert(u.drop_last() =~= s);
    } else {
        let t = s.drop_last();
        assert forall|i: int| 0 <= i < t.len() implies t[i].0 != x.0 by {
            assert(t[i] == s[i]);
        }
        lemma_map_of_insert(t, p, x);
        assert(u.drop_last() =~= t.insert(p, x));
        assert(u.last() == s.last());
        assert(s.last().0 != x.0) by {
            assert(s.last() == s[s.len() - 1]);
        }
        assert(map_of(u) =~= map_of(s).insert(x.0, x.1));
    }
}

/// A key is in the map exactly when a pair has it, and then maps to that
/// pair's value.
pub proof fn lemma_map_of_index(s: Seq<(Seq<char>, Seq<char>)>, i: int)
    requires
        keys_unique(s),
        0 <= i < s.len(),
    ensures
        map_of(s).contains_key(s[i].0),
        map_of(s)[s[i].0] == s[i].1,
    decreases s.len(),
{
    let t = s.drop_last();
    if i < s.len() - 1 {
        assert(keys_unique(t));
        assert(t[i] == s[i]);
        lemma_map_of_index(t, i);
        assert(s[i].0 != s.last().0);
    }
}

/// A key that no pair has is not in the map.
pub proof fn lemma_map_of_absent(s: Seq<(Seq<char>, Seq<char>)>, k: Seq<char>)
    requires
        forall|i: int| 0 <= i < s.len() ==> s[i].0 != k,
    ensures
        !map_of(s).contains_key(k),
    decreases s.len(),
{
    if s.len() > 0 {
        let t = s.drop_last();
        assert forall|i: int| 0 <= i < t.len() implies t[i].0 != k by {
            assert(t[i] == s[i]);
        }
        lemma_map_of_absent(t, k);
        assert(s.last() == s[s.len() - 1]);
    }
}

/// Setting a present key in place sets it in the map.
pub proof fn lemma_map_of_update(s: Seq<(Seq<char>, Seq<char>)>, i: int, v: Seq<char>)
    requires
        keys_unique(s),
        0 <= i < s.len(),
    ensures
        map_of(s.update(i, (s[i].0, v))) == map_of(s).insert(s[i].0, v),
    decreases s.len(),
{
    let k = s[i].0;
    let u = s.update(i, (k, v));
    let t = s.drop_last();
    if i == s.len() - 1 {
        assert(u.drop_last() =~= t);
        assert(map_of(u) =~= map_of(s).insert(k, v));
    } else {
        assert(keys_unique(t));
        assert(t[i] == s[i]);
        lemma_map_of_update(t, i, v);
        assert(u.drop_last() =~= t.update(i, (k, v)));
        assert(u.last() == s.last());
        assert(s.last().0 != k) by {
            assert(s.last() == s[s.len() - 1]);
        }
        assert(map_of(u) =~= map_of(s).insert(k, v));
    }
}

/// Strings to strings, each key once, in increasing key order.
#[derive(Debug, Clone)]
pub struct StringMap {
    entries: Vec<(String, String)>,
}

impl View for StringMap {
    type V = Map<Seq<char>, Seq<char>>;

    closed spec fn view(&self) -> Map<Seq<char>, Seq<char>> {
        map_of(pairs_view(self.entries@))
    }
}

impl StringMap {
    /// The pairs, in order.
    pub closed spec fn entries_view(&self) -> Seq<(Seq<char>, Seq<char>)> {
        pairs_view(self.entries@)
    }

    /// Keys strictly increase.
    pub open spec fn wf(&self) -> bool {
        keys_sorted(self.entries_view())
    }

    /// An empty map.
    pub fn new() -> (r: StringMap)
        ensures
            r.wf(),
            r@ == Map::<Seq<char>, Seq<char>>::empty(),
            r.entries_view() == Seq::<(Seq<char>, Seq<char>)>::empty(),
    {
        let r = StringMap { entries: Vec::new() };
        assert(pairs_view(r.entries@) =~= Seq::<(Seq<char>, Seq<char>)>::empty());
        r
    }

    /// The pairs, in order.
    pub fn entries(&self) -> (r: &Vec<(String, String)>)
        ensures
            pairs_view(r@) == self.entries_view(),
    {
        &self.entries
    }

    /// The number of keys.
    pub fn len(&self) -> (r: usize)
        ensures
            r == self.entries_view().len(),
    {
        self.entries.len()
    }

    /// The position of `k` among the pairs, if present.
    fn position(&self, k: &str) -> (r: Option<usize>)
        ensures
            match r {
                Some(i) => i < self.entries_view().len() && self.entries_view()[i as int].0 == k@,
                None => forall|i: int| 0 <= i < self.entries_view().len() ==> self.entries_view()[i].0 != k@,
            },
    {
        let mut i: usize = 0;
        while i < self.entries.len()
            invariant
                i <= self.entries@.len(),
                forall|j: int| 0 <= j < i ==> self.entries_view()[j].0 != k@,
            decreases self.entries@.len() - i,
        {
            if str_eq(self.entries[i].0.as_str(), k) {
                return Some(i);
            }
            i = i + 1;
        }
        None
    }

    /// The value of `k`, if present.
    pub fn get(&self, k: &str) -> (r: Option<&String>)
        requires
            self.wf(),
        ensures
            match r {
                Some(v) => self@.contains_key(k@) && self@[k@] == v@,
                None => !self@.contains_key(k@),
            },
    {
        proof {
            lemma_sorted_unique(self.entries_view());
        }
        match self.position(k) {
            Some(i) => {
                proof {
                    lemma_map_of_index(self.entries_view(), i as int);
                }
                Some(&self.entries[i].1)
            },
            None => {
                proof {
                    lemma_map_of_absent(self.entries_view(), k@);
                }
                None
            },
        }
    }

    /// Sets `k` to `v`: in place when `k` is present, otherwise inserted
    /// where it keeps the keys in order.
    pub fn insert(&mut self, k: String, v: String)
        requires
            old(self).wf(),
        ensures
            final(self).wf(),
            final(self)@ == old(self)@.insert(k@, v@),
            final(self).entries_view().len() == old(self).entries_view().len()
                + if old(self)@.contains_key(k@) { 0int } else { 1int },
    {
        let ghost s = self.entries_view();
        proof {
            lemma_sorted_unique(s);
        }
        let mut p: usize = 0;
        while p < self.entries.len() && str_lt(self.entries[p].0.as_str(), k.as_str())
            invariant
                p <= self.entries@.len(),
                s == self.entries_view(),
                forall|j: int| 0 <= j < p ==> key_lt(#[trigger] s[j].0, k@),
            decreases self.entries@.len() - p,
        {
            p = p + 1;
        }
        if p < self.entries.len() && str_eq(self.entries[p].0.as_str(), k.as_str()) {
            proof {
                lemma_map_of_update(s, p as int, v@);
                lemma_map_of_index(s, p as int);
            }
            let ghost kv = k@;
            self.entries.set(p, (k, v));
            proof {
                assert(self.entries_view() =~= s.update(p as int, (kv, v@)));
                let u = self.entries_view();
                assert forall|a: int, b: int| 0 <= a < b < u.len() implies key_lt(u[a].0, u[b].0) by {
                    assert(u[a].0 == s[a].0);
                    assert(u[b].0 == s[b].0);
                }
            }
        } else {
            proof {
                assert forall|i: int| 0 <= i < s.len() implies s[i].0 != k@ by {
                    if i < p {
                        lemma_key_lt_irreflexive(k@);
                    } else {
                        lemma_key_lt_total(s[p as int].0, k@);
                        if i > p {
                            lemma_key_lt_transitive(k@, s[p as int].0, s[i].0);
                            lemma_key_lt_irreflexive(k@);
                        }
                    }
                }
                lemma_map_of_absent(s, k@);
                lemma_map_of_insert(s, p as int, (k@, v@));
            }
            let ghost kv = k@;
            let ghost vv = v@;
            self.entries.insert(p, (k, v));
            proof {
                assert(self.entries_view() =~= s.insert(p as int, (kv, vv)));
                let u = self.entries_view();
                assert forall|a: int, b: int| 0 <= a < b < u.len() implies key_lt(u[a].0, u[b].0) by {
                    if b < p {
                        assert(u[a] == s[a] && u[b] == s[b]);
                    } else if b == p {
                        assert(u[a] == s[a]);
                    } else if a == p {
                        assert(u[b] == s[b - 1]);
                        lemma_key_lt_total(s[p as int].0, kv);
                        if b - 1 > p {
                            lemma_key_lt_transitive(kv, s[p as int].0, s[b - 1].0);
                        }
                    } else if a < p {
                        assert(u[a] == s[a] && u[b] == s[b - 1]);
                    } else {
                        assert(u[a] == s[a - 1] && u[b] == s[b - 1]);
                    }
                }
            }
        }
    }
}

} // verus!
