//! A small map keyed by text, kept as a vector of distinct keys (insertion order kept).
use vstd::prelude::*;

verus! {

/// The map that a list of entries describes; a later entry overrides an earlier one.
pub open spec fn entries_map<V>(s: Seq<(String, V)>) -> Map<Seq<char>, V>
    decreases s.len(),
{
    if s.len() == 0 {
        Map::empty()
    } else {
        entries_map(s.drop_last()).insert(s.last().0@, s.last().1)
    }
}

/// No key occurs twice.
pub open spec fn distinct_keys<V>(s: Seq<(String, V)>) -> bool {
    forall|i: int, j: int| 0 <= i < j < s.len() ==> (#[trigger] s[i]).0@ != (#[trigger] s[j]).0@
}

/// The keys of the map are exactly the keys of the entries.
pub proof fn lemma_entries_dom<V>(s: Seq<(String, V)>, k: Seq<char>)
    ensures
        entries_map(s).contains_key(k) <==> exists|i: int| 0 <= i < s.len() && (#[trigger] s[i]).0@ == k,
    decreases s.len(),
{
    if s.len() > 0 {
        lemma_entries_dom(s.drop_last(), k);
        if entries_map(s.drop_last()).contains_key(k) {
            let i = choose|i: int| 0 <= i < s.drop_last().len() && (#[trigger] s.drop_last()[i]).0@ == k;
            assert(s[i].0@ == k);
        }
        if exists|i: int| 0 <= i < s.len() && (#[trigger] s[i]).0@ == k {
            let i = choose|i: int| 0 <= i < s.len() && (#[trigger] s[i]).0@ == k;
            if i < s.len() - 1 {
                assert(s.drop_last()[i].0@ == k);
            }
        }
    }
}

/// With distinct keys, the entry holding key `s[j].0` gives its value.
pub proof fn lemma_entries_value<V>(s: Seq<(String, V)>, j: int)
    requires
        distinct_keys(s),
        0 <= j < s.len(),
    ensures
        entries_map(s).contains_key(s[j].0@),
        entries_map(s)[s[j].0@] == s[j].1,
    decreases s.len(),
{
    if j < s.len() - 1 {
        lemma_entries_value(s.drop_last(), j);
        assert(s.drop_last()[j] == s[j]);
    }
}

/// Replacing the value of entry `j` replaces the value of its key.
pub proof fn lemma_entries_update<V>(s: Seq<(String, V)>, j: int, v: V)
    requires
        distinct_keys(s),
        0 <= j < s.len(),
    ensures
        entries_map(s.update(j, (s[j].0, v))) == entries_map(s).insert(s[j].0@, v),
    decreases s.len(),
{
    let t = s.update(j, (s[j].0, v));
    if j == s.len() - 1 {
        assert(t.drop_last() =~= s.drop_last());
        assert(entries_map(t) =~= entries_map(s).insert(s[j].0@, v));
    } else {
        lemma_entries_update(s.drop_last(), j, v);
        assert(t.drop_last() =~= s.drop_last().update(j, (s[j].0, v)));
        assert(s[j].0@ != s.last().0@);
        assert(entries_map(t) =~= entries_map(s).insert(s[j].0@, v));
    }
}

/// Removing entry `j` removes its key.
pub proof fn lemma_entries_remove<V>(s: Seq<(String, V)>, j: int)
    requires
        distinct_keys(s),
        0 <= j < s.len(),
    ensures
        entries_map(s.remove(j)) == entries_map(s).remove(s[j].0@),
    decreases s.len(),
{
    let t = s.remove(j);
    if j == s.len() - 1 {
        assert(t =~= s.drop_last());
        lemma_entries_dom(s.drop_last(), s[j].0@);
        assert(!entries_map(s.drop_last()).contains_key(s[j].0@));
        assert(entries_map(t) =~= entries_map(s).remove(s[j].0@));
    } else {
        lemma_entries_remove(s.drop_last(), j);
        assert(t.drop_last() =~= s.drop_last().remove(j));
        assert(t.last() == s.last());
        assert(s[j].0@ != s.last().0@);
        assert(entries_map(t) =~= entries_map(s).remove(s[j].0@));
    }
}

/// A map from text keys to values.
#[derive(Debug)]
pub struct StrMap<V> {
    entries: Vec<(String, V)>,
}

impl<V> View for StrMap<V> {
    type V = Map<Seq<char>, V>;

    closed spec fn view(&self) -> Map<Seq<char>, V> {
        entries_map(self.entries@)
    }
}

impl<V> StrMap<V> {
    #[verifier::type_invariant]
    closed spec fn inv(&self) -> bool {
        distinct_keys(self.entries@)
    }

    /// An empty map.
    pub fn new() -> (r: Self)
        ensures
            r@ == Map::<Seq<char>, V>::empty(),
    {
        StrMap { entries: Vec::new() }
    }

    /// Position of `key` among the entries.
    fn find(&self, key: &str) -> (r: Option<usize>)
        ensures
            match r {
                Some(j) => j < self.entries@.len() && self.entries@[j as int].0@ == key@,
                None => !self@.contains_key(key@),
            },
    {
        let mut i: usize = 0;
        while i < self.entries.len()
            invariant
                i <= self.entries@.len(),
                forall|k: int| 0 <= k < i ==> (#[trigger] self.entries@[k]).0@ != key@,
            decreases self.entries@.len() - i,
        {
            if crate::text::str_eq(self.entries[i].0.as_str(), key) {
                return Some(i);
            }
            i += 1;
        }
        proof {
            lemma_entries_dom(self.entries@, key@);
        }
        None
    }

    /// The value stored for `key`.
    pub fn get(&self, key: &str) -> (r: Option<&V>)
        ensures
            match r {
                Some(v) => self@.contains_key(key@) && self@[key@] == *v,
                None => !self@.contains_key(key@),
            },
    {
        proof {
            use_type_invariant(self);
        }
        match self.find(key) {
            Some(j) => {
                proof {
                    lemma_entries_value(self.entries@, j as int);
                }
                Some(&self.entries[j].1)
            },
            None => None,
        }
    }

    /// Whether `key` has a value.
    pub fn contains_key(&self, key: &str) -> (r: bool)
        ensures
            r == self@.contains_key(key@),
    {
        proof {
            use_type_invariant(self);
        }
        match self.find(key) {
            Some(j) => {
                proof {
                    lemma_entries_value(self.entries@, j as int);
                }
                true
            },
            None => false,
        }
    }

    /// Stores `value` for `key`, replacing any earlier value.
    pub fn insert(&mut self, key: &str, value: V)
        ensures
            final(self)@ == old(self)@.insert(key@, value),
    {
        proof {
            use_type_invariant(&*self);
        }
        match self.find(key) {
            Some(j) => {
                let ghost s = self.entries@;
                let k = self.entries[j].0.clone();
                proof {
                    lemma_entries_update(s, j as int, value);
                }
                let mut e: Vec<(String, V)> = Vec::new();
                std::mem::swap(&mut e, &mut self.entries);
                e.set(j, (k, value));
                assert(e@ =~= s.update(j as int, (s[j as int].0, value)));
                proof {
                    assert forall|a: int, b: int| 0 <= a < b < e@.len() implies (#[trigger] e@[a]).0@ != (#[trigger] e@[b]).0@ by {
                        assert(s[a].0@ != s[b].0@);
                    }
                }
                self.entries = e;
            },
            None => {
                let ghost s = self.entries@;
                proof {
                    lemma_entries_dom(s, key@);
                }
                let mut e: Vec<(String, V)> = Vec::new();
                std::mem::swap(&mut e, &mut self.entries);
                e.push((crate::text::to_owned_string(key), value));
                assert(e@.drop_last() =~= s);
                proof {
                    assert forall|a: int, b: int| 0 <= a < b < e@.len() implies (#[trigger] e@[a]).0@ != (#[trigger] e@[b]).0@ by {
                        if b == e@.len() - 1 {
                            assert(s[a].0@ != key@);
                        } else {
                            assert(s[a].0@ != s[b].0@);
                        }
                    }
                }
                self.entries = e;
            },
        }
    }

    /// Removes `key`, returning its value.
    pub fn remove(&mut self, key: &str) -> (r: Option<V>)
        ensures
            final(self)@ == old(self)@.remove(key@),
            match r {
                Some(v) => old(self)@.contains_key(key@) && old(self)@[key@] == v,
                None => !old(self)@.contains_key(key@),
            },
    {
        proof {
            use_type_invariant(&*self);
        }
        match self.find(key) {
            Some(j) => {
                let ghost s = self.entries@;
                proof {
                    lemma_entries_value(s, j as int);
                    lemma_entries_remove(s, j as int);
                }
                let mut e: Vec<(String, V)> = Vec::new();
                std::mem::swap(&mut e, &mut self.entries);
                let (_, v) = e.remove(j);
                assert(e@ =~= s.remove(j as int));
                proof {
                    assert forall|a: int, b: int| 0 <= a < b < e@.len() implies (#[trigger] e@[a]).0@ != (#[trigger] e@[b]).0@ by {
                        let a2 = if a < j { a } else { a + 1 };
                        let b2 = if b < j { b } else { b + 1 };
                        assert(e@[a] == s[a2]);
                        assert(e@[b] == s[b2]);
                        assert(s[a2].0@ != s[b2].0@);
                    }
                }
                self.entries = e;
                Some(v)
            },
            None => {
                assert(old(self)@.remove(key@) =~= old(self)@);
                None
            },
        }
    }

    /// Number of keys.
    pub fn len(&self) -> (r: usize)
        ensures
            r == self@.len(),
    {
        proof {
            use_type_invariant(self);
            lemma_entries_len(self.entries@);
        }
        self.entries.len()
    }
}

/// With distinct keys there are as many keys as entries.
pub proof fn lemma_entries_len<V>(s: Seq<(String, V)>)
    requires
        distinct_keys(s),
    ensures
        entries_map(s).len() == s.len(),
        entries_map(s).dom().finite(),
    decreases s.len(),
{
    if s.len() > 0 {
        lemma_entries_len(s.drop_last());
        lemma_entries_dom(s.drop_last(), s.last().0@);
        assert(!entries_map(s.drop_last()).contains_key(s.last().0@));
    }
}

/// How long ago `t` was at time `now` (0 for a time ahead of `now`).
pub open spec fn age(now: u64, t: u64) -> int {
    if now > t { now - t } else { 0 }
}

/// The keys of `m` whose time is less than `max_age` before `now`.
pub open spec fn recent_keys(m: Map<Seq<char>, u64>, now: u64, max_age: u64) -> Set<Seq<char>> {
    m.dom().filter(|k: Seq<char>| age(now, m[k]) < max_age)
}

/// Some text of `v` is `k`.
pub open spec fn listed(v: Seq<String>, k: Seq<char>) -> bool {
    exists|j: int| 0 <= j < v.len() && #[trigger] v[j]@ == k
}

/// Among the first `n` entries of `s`, one has key `k` and a time at least `max_age`
/// before `now`.
pub open spec fn stale_among(s: Seq<(String, u64)>, n: int, k: Seq<char>, now: u64, max_age: u64) -> bool {
    exists|j: int| 0 <= j < n && (#[trigger] s[j]).0@ == k && age(now, s[j].1) >= max_age
}

impl StrMap<u64> {
    fn stale_keys(&self, now: u64, max_age: u64) -> (r: Vec<String>)
        ensures
            forall|k: Seq<char>| #[trigger] listed(r@, k) <==> (self@.contains_key(k) && age(now, self@[k]) >= max_age),
    {
        proof {
            use_type_invariant(self);
        }
        let mut out: Vec<String> = Vec::new();
        let mut i: usize = 0;
        while i < self.entries.len()
            invariant
                i <= self.entries@.len(),
                distinct_keys(self.entries@),
                forall|k: Seq<char>| #[trigger] listed(out@, k) <==> stale_among(self.entries@, i as int, k, now, max_age),
            decreases self.entries@.len() - i,
        {
            let t = self.entries[i].1;
            let stale = if now > t { now - t >= max_age } else { 0 >= max_age };
            let ghost before = out@;
            let ghost e = self.entries@[i as int];
            if stale {
                out.push(self.entries[i].0.clone());
                assert(out@ == before.push(out@[before.len() as int]));
                assert(out@[before.len() as int]@ == e.0@);
            }
            assert(stale == (age(now, e.1) >= max_age));
            assert forall|k: Seq<char>| #[trigger] listed(out@, k) <==> stale_among(self.entries@, i + 1, k, now, max_age) by {
                if listed(out@, k) {
                    let j = choose|j: int| 0 <= j < out@.len() && #[trigger] out@[j]@ == k;
                    if j < before.len() {
                        assert(out@[j] == before[j]);
                        assert(listed(before, k));
                        assert(stale_among(self.entries@, i as int, k, now, max_age));
                        let j3 = choose|j3: int| 0 <= j3 < i && (#[trigger] self.entries@[j3]).0@ == k && age(now, self.entries@[j3].1) >= max_age;
                        assert(stale_among(self.entries@, i + 1, k, now, max_age));
                    } else {
                        assert(e.0@ == k);
                        assert(self.entries@[i as int].0@ == k);
                    }
                }
                if stale_among(self.entries@, i + 1, k, now, max_age) {
                    let j = choose|j: int| 0 <= j < i + 1 && (#[trigger] self.entries@[j]).0@ == k && age(now, self.entries@[j].1) >= max_age;
                    if j < i {
                        assert(stale_among(self.entries@, i as int, k, now, max_age));
                        assert(listed(before, k));
                        let j2 = choose|j2: int| 0 <= j2 < before.len() && #[trigger] before[j2]@ == k;
                        assert(out@[j2] == before[j2]);
                        assert(out@[j2]@ == k);
                    } else {
                        assert(j == i);
                        assert(stale);
                        assert(out@[before.len() as int]@ == k);
                    }
                }
            }
            i += 1;
        }
        assert forall|k: Seq<char>| #[trigger] listed(out@, k) <==> (self@.contains_key(k) && age(now, self@[k]) >= max_age) by {
            lemma_entries_dom(self.entries@, k);
            if self@.contains_key(k) {
                let j = choose|j: int| 0 <= j < self.entries@.len() && (#[trigger] self.entries@[j]).0@ == k;
                lemma_entries_value(self.entries@, j);
            }
            if stale_among(self.entries@, self.entries@.len() as int, k, now, max_age) {
                let j = choose|j: int| 0 <= j < self.entries@.len() && (#[trigger] self.entries@[j]).0@ == k && age(now, self.entries@[j].1) >= max_age;
                lemma_entries_value(self.entries@, j);
            }
        }
        out
    }

    /// Keeps only the keys whose time is less than `max_age` before `now`.
    pub fn retain_recent(&mut self, now: u64, max_age: u64)
        ensures
            final(self)@ == old(self)@.restrict(recent_keys(old(self)@, now, max_age)),
    {
        let stale = self.stale_keys(now, max_age);
        let ghost m0 = self@;
        let mut i: usize = 0;
        while i < stale.len()
            invariant
                i <= stale@.len(),
                forall|k: Seq<char>| #[trigger] listed(stale@, k) <==> (m0.contains_key(k) && age(now, m0[k]) >= max_age),
                forall|k: Seq<char>| #[trigger] self@.contains_key(k) <==> (m0.contains_key(k) && !listed(stale@.take(i as int), k)),
                forall|k: Seq<char>| #[trigger] self@.contains_key(k) ==> self@[k] == m0[k],
            decreases stale@.len() - i,
        {
            let ghost pre = self@;
            self.remove(stale[i].as_str());
            assert forall|k: Seq<char>| #[trigger] self@.contains_key(k) <==> (m0.contains_key(k) && !listed(stale@.take(i + 1), k)) by {
                if listed(stale@.take(i + 1), k) {
                    let j = choose|j: int| 0 <= j < stale@.take(i + 1).len() && #[trigger] stale@.take(i + 1)[j]@ == k;
                    if j < i {
                        assert(stale@.take(i as int)[j]@ == k);
                        assert(listed(stale@.take(i as int), k));
                    }
                }
                if listed(stale@.take(i as int), k) {
                    let j = choose|j: int| 0 <= j < stale@.take(i as int).len() && #[trigger] stale@.take(i as int)[j]@ == k;
                    assert(stale@.take(i + 1)[j]@ == k);
                }
                if k == stale@[i as int]@ {
                    assert(stale@.take(i + 1)[i as int]@ == k);
                }
            }
            i += 1;
        }
        assert(stale@.take(stale@.len() as int) =~= stale@);
        assert(self@ =~= m0.restrict(recent_keys(m0, now, max_age)));
    }
}

} // verus!
