//! A table of values under distinct string keys.

use vstd::prelude::*;
use vstd::string::StringExecFns;

verus! {

/// No key occurs twice (by content).
pub open spec fn keys_distinct<V>(entries: Seq<(String, V)>) -> bool {
    forall|i: int, j: int| 0 <= i < j < entries.len() ==> entries[i].0@ != entries[j].0@
}

/// The value stored under `id`, if any.
pub open spec fn lookup<V>(entries: Seq<(String, V)>, id: Seq<char>) -> Option<V> {
    if exists|i: int| 0 <= i < entries.len() && #[trigger] entries[i].0@ == id {
        Some(entries[choose|i: int| 0 <= i < entries.len() && #[trigger] entries[i].0@ == id].1)
    } else {
        None
    }
}

/// The keys, in order.
pub open spec fn keys_of<V>(entries: Seq<(String, V)>) -> Seq<Seq<char>> {
    entries.map_values(|e: (String, V)| e.0@)
}

/// `after` is `before` with the entry of `key` (if any) taken out and
/// `(key, value)` put last; the other entries keep their order.
pub open spec fn stored_last<V>(before: Seq<(String, V)>, after: Seq<(String, V)>, key: Seq<char>, value: V) -> bool {
    &&& after.len() > 0
    &&& after.last().0@ == key
    &&& after.last().1 == value
    &&& lookup(before, key) is None ==> after.drop_last() == before
    &&& forall|k: int| 0 <= k < before.len() && #[trigger] before[k].0@ == key ==> after.drop_last() == before.remove(k)
}

/// With distinct keys, the value under a key is the one at its index.
pub proof fn lemma_lookup_at<V>(entries: Seq<(String, V)>, id: Seq<char>, i: int)
    requires
        keys_distinct(entries),
        0 <= i < entries.len(),
        entries[i].0@ == id,
    ensures
        lookup(entries, id) == Some(entries[i].1),
{
    let j = choose|j: int| 0 <= j < entries.len() && #[trigger] entries[j].0@ == id;
    assert(entries[j].0@ == id);
    if j < i {
        assert(entries[j].0@ != entries[i].0@);
    } else if i < j {
        assert(entries[i].0@ != entries[j].0@);
    }
}

/// Removing an entry keeps keys distinct, drops that key, and keeps every
/// other key's value.
pub proof fn lemma_lookup_remove<V>(s: Seq<(String, V)>, k: int, x: Seq<char>)
    requires
        keys_distinct(s),
        0 <= k < s.len(),
    ensures
        keys_distinct(s.remove(k)),
        x != s[k].0@ ==> lookup(s.remove(k), x) == lookup(s, x),
        lookup(s.remove(k), s[k].0@) is None,
{
    let r = s.remove(k);
    assert forall|i: int, j: int| 0 <= i < j < r.len() implies r[i].0@ != r[j].0@ by {
        let i2 = if i < k { i } else { i + 1 };
        let j2 = if j < k { j } else { j + 1 };
        assert(r[i] == s[i2]);
        assert(r[j] == s[j2]);
    }
    if exists|j: int| 0 <= j < r.len() && #[trigger] r[j].0@ == s[k].0@ {
        let j = choose|j: int| 0 <= j < r.len() && #[trigger] r[j].0@ == s[k].0@;
        let j2 = if j < k { j } else { j + 1 };
        assert(r[j] == s[j2]);
    }
    if x != s[k].0@ {
        if exists|i: int| 0 <= i < s.len() && #[trigger] s[i].0@ == x {
            let i = choose|i: int| 0 <= i < s.len() && #[trigger] s[i].0@ == x;
            lemma_lookup_at(s, x, i);
            let i2 = if i < k { i } else { i - 1 };
            assert(r[i2] == s[i]);
            lemma_lookup_at(r, x, i2);
        } else {
            if exists|j: int| 0 <= j < r.len() && #[trigger] r[j].0@ == x {
                let j = choose|j: int| 0 <= j < r.len() && #[trigger] r[j].0@ == x;
                let j2 = if j < k { j } else { j + 1 };
                assert(r[j] == s[j2]);
            }
        }
    }
}

/// Appending an entry under a new key keeps keys distinct, stores the value
/// under that key, and keeps every other key's value.
pub proof fn lemma_lookup_push<V>(s: Seq<(String, V)>, e: (String, V), x: Seq<char>)
    requires
        keys_distinct(s),
        forall|i: int| 0 <= i < s.len() ==> #[trigger] s[i].0@ != e.0@,
    ensures
        keys_distinct(s.push(e)),
        lookup(s.push(e), e.0@) == Some(e.1),
        x != e.0@ ==> lookup(s.push(e), x) == lookup(s, x),
{
    let r = s.push(e);
    assert forall|i: int, j: int| 0 <= i < j < r.len() implies r[i].0@ != r[j].0@ by {
        if j == s.len() {
            assert(r[i] == s[i]);
        } else {
            assert(r[i] == s[i]);
            assert(r[j] == s[j]);
        }
    }
    lemma_lookup_at(r, e.0@, s.len() as int);
    if x != e.0@ {
        if exists|i: int| 0 <= i < s.len() && #[trigger] s[i].0@ == x {
            let i = choose|i: int| 0 <= i < s.len() && #[trigger] s[i].0@ == x;
            lemma_lookup_at(s, x, i);
            assert(r[i] == s[i]);
            lemma_lookup_at(r, x, i);
        } else {
            if exists|j: int| 0 <= j < r.len() && #[trigger] r[j].0@ == x {
                let j = choose|j: int| 0 <= j < r.len() && #[trigger] r[j].0@ == x;
                assert(r[j] == s[j]);
            }
        }
    }
}

/// The index of the entry with this key.
pub fn find_key<V>(entries: &Vec<(String, V)>, id: &str) -> (r: Option<usize>)
    ensures
        match r {
            Some(k) => k < entries@.len() && entries@[k as int].0@ == id@,
            None => forall|i: int| 0 <= i < entries@.len() ==> #[trigger] entries@[i].0@ != id@,
        },
{
    let key = String::from_str(id);
    let mut i: usize = 0;
    while i < entries.len()
        invariant
            i <= entries.len(),
            key@ == id@,
            forall|j: int| 0 <= j < i ==> #[trigger] entries@[j].0@ != id@,
        decreases entries.len() - i,
    {
        if entries[i].0 == key {
            return Some(i);
        }
        i = i + 1;
    }
    None
}

/// A table of values under distinct string keys.
pub struct Keyed<V> {
    entries: Vec<(String, V)>,
}

impl<V> Keyed<V> {
    /// The entries, in insertion order.
    pub closed spec fn entries(self) -> Seq<(String, V)> {
        self.entries@
    }

    /// The value under `key`, if any.
    pub open spec fn get_spec(self, key: Seq<char>) -> Option<V> {
        lookup(self.entries(), key)
    }

    /// The keys, in insertion order.
    pub open spec fn key_seq(self) -> Seq<Seq<char>> {
        keys_of(self.entries())
    }

    /// Keys are distinct.
    pub open spec fn wf(self) -> bool {
        keys_distinct(self.entries())
    }

    /// An empty table.
    pub fn new() -> (t: Keyed<V>)
        ensures
            t.wf(),
            t.entries().len() == 0,
            forall|k: Seq<char>| #[trigger] t.get_spec(k) is None,
    {
        Keyed { entries: Vec::new() }
    }

    /// The entries, in insertion order.
    pub fn as_vec(&self) -> (r: &Vec<(String, V)>)
        ensures
            r@ == self.entries(),
    {
        &self.entries
    }

    /// Stores `value` under `key`, replacing a value stored there; the entry
    /// goes last, the others keep their order.
    pub fn insert(&mut self, key: String, value: V)
        requires
            old(self).wf(),
        ensures
            final(self).wf(),
            final(self).get_spec(key@) == Some(value),
            forall|x: Seq<char>| x != key@ ==> #[trigger] final(self).get_spec(x) == old(self).get_spec(x),
            final(self).key_seq().contains(key@),
            stored_last(old(self).entries(), final(self).entries(), key@, value),
    {
        let ghost s0 = self.entries@;
        let ghost mut at: int = -1;
        match find_key(&self.entries, key.as_str()) {
            Some(k) => {
                self.entries.remove(k);
                proof {
                    assert forall|x: Seq<char>| x != key@ implies #[trigger] lookup(self.entries@, x) == lookup(s0, x) by {
                        lemma_lookup_remove(s0, k as int, x);
                    }
                    lemma_lookup_remove(s0, k as int, key@);
                    lemma_lookup_at(s0, key@, k as int);
                    at = k as int;
                }
            },
            None => {},
        }
        let ghost s1 = self.entries@;
        proof {
            if at >= 0 {
                assert(s1 == s0.remove(at));
                assert forall|k2: int| 0 <= k2 < s0.len() && #[trigger] s0[k2].0@ == key@ implies s1 == s0.remove(k2) by {
                    if k2 != at {
                        assert(s0[at].0@ == key@);
                    }
                }
            } else {
                assert(s1 == s0);
            }
        }
        proof {
            assert forall|i: int| 0 <= i < s1.len() implies #[trigger] s1[i].0@ != key@ by {
                if s1[i].0@ == key@ {
                    lemma_lookup_at(s1, key@, i);
                }
            }
        }
        let e = (key, value);
        let ghost eg = e;
        self.entries.push(e);
        proof {
            assert forall|x: Seq<char>| x != eg.0@ implies #[trigger] lookup(self.entries@, x) == lookup(s0, x) by {
                lemma_lookup_push(s1, eg, x);
            }
            lemma_lookup_push(s1, eg, eg.0@);
            let ids = keys_of(self.entries@);
            assert(ids[ids.len() - 1] == eg.0@);
            assert(self.entries@.drop_last() =~= s1);
        }
    }

    /// Removes and returns the value under `key`.
    pub fn remove(&mut self, key: &str) -> (r: Option<V>)
        requires
            old(self).wf(),
        ensures
            final(self).wf(),
            r == old(self).get_spec(key@),
            final(self).get_spec(key@) is None,
            forall|x: Seq<char>| x != key@ ==> #[trigger] final(self).get_spec(x) == old(self).get_spec(x),
    {
        let ghost s0 = self.entries@;
        match find_key(&self.entries, key) {
            Some(k) => {
                let (_, v) = self.entries.remove(k);
                proof {
                    lemma_lookup_at(s0, key@, k as int);
                    assert forall|x: Seq<char>| x != key@ implies #[trigger] lookup(self.entries@, x) == lookup(s0, x) by {
                        lemma_lookup_remove(s0, k as int, x);
                    }
                    lemma_lookup_remove(s0, k as int, key@);
                }
                Some(v)
            },
            None => None,
        }
    }

    /// The value under `key`.
    pub fn get(&self, key: &str) -> (r: Option<&V>)
        requires
            self.wf(),
        ensures
            match r {
                Some(v) => self.get_spec(key@) == Some(*v),
                None => self.get_spec(key@) is None,
            },
    {
        match find_key(&self.entries, key) {
            Some(k) => {
                proof {
                    lemma_lookup_at(self.entries@, key@, k as int);
                }
                Some(&self.entries[k].1)
            },
            None => None,
        }
    }

    /// Whether a value is stored under `key`.
    pub fn contains_key(&self, key: &str) -> (b: bool)
        requires
            self.wf(),
        ensures
            b == (self.get_spec(key@) is Some),
    {
        match self.get(key) {
            Some(_) => true,
            None => false,
        }
    }

    /// Drops every entry.
    pub fn clear(&mut self)
        ensures
            final(self).wf(),
            final(self).entries().len() == 0,
            forall|k: Seq<char>| #[trigger] final(self).get_spec(k) is None,
    {
        self.entries.clear();
    }

    /// The keys, in insertion order.
    pub fn keys(&self) -> (r: Vec<String>)
        ensures
            r@.map_values(|x: String| x@) == self.key_seq(),
    {
        let mut r: Vec<String> = Vec::new();
        let mut i: usize = 0;
        while i < self.entries.len()
            invariant
                i <= self.entries@.len(),
                r@.map_values(|x: String| x@) == keys_of(self.entries@.take(i as int)),
            decreases self.entries@.len() - i,
        {
            let ghost r0 = r@;
            let key = self.entries[i].0.clone();
            r.push(key);
            proof {
                assert(self.entries@.take(i + 1) == self.entries@.take(i as int).push(self.entries@[i as int]));
                assert(r@.map_values(|x: String| x@) =~= r0.map_values(|x: String| x@).push(self.entries@[i as int].0@));
                assert(keys_of(self.entries@.take(i + 1)) =~= keys_of(self.entries@.take(i as int)).push(self.entries@[i as int].0@));
            }
            i = i + 1;
        }
        proof {
            assert(self.entries@.take(self.entries@.len() as int) == self.entries@);
        }
        r
    }
}

} // verus!
