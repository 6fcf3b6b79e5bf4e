//! A table of values keyed by name, with the semantics of a `HashMap`
//! keyed by `String`: one value per key, and an insert replaces the value
//! of a key that is already present.
use vstd::prelude::*;
use crate::text::str_equals;

verus! {

/// The index of the first entry of `s` whose key is `k`, or `-1` when no
/// entry has that key.
pub open spec fn key_index<V>(s: Seq<(String, V)>, k: Seq<char>) -> int
    decreases s.len(),
{
    if s.len() == 0 {
        -1
    } else {
        let r = key_index(s.drop_last(), k);
        if r >= 0 {
            r
        } else if s.last().0@ == k {
            s.len() - 1
        } else {
            -1
        }
    }
}

/// No two entries of `s` share a key.
pub open spec fn keys_unique<V>(s: Seq<(String, V)>) -> bool {
    forall|i: int, j: int| 0 <= i < s.len() && 0 <= j < s.len() && i != j ==> s[i].0@ != s[j].0@
}

/// The map from key to value view that a list of entries stands for: each
/// key is mapped to the value of its first entry.
pub open spec fn entries_map<V: View>(s: Seq<(String, V)>) -> Map<Seq<char>, V::V> {
    Map::new(|k: Seq<char>| key_index(s, k) >= 0, |k: Seq<char>| s[key_index(s, k)].1@)
}

/// `key_index` finds exactly the first entry with the key.
pub proof fn lemma_key_index<V>(s: Seq<(String, V)>, k: Seq<char>)
    ensures
        -1 <= key_index(s, k) < s.len(),
        key_index(s, k) == -1 <==> (forall|j: int| 0 <= j < s.len() ==> s[j].0@ != k),
        key_index(s, k) >= 0 ==> s[key_index(s, k)].0@ == k,
        forall|j: int| 0 <= j < key_index(s, k) ==> s[j].0@ != k,
    decreases s.len(),
{
    if s.len() > 0 {
        let t = s.drop_last();
        lemma_key_index(t, k);
        assert forall|j: int| 0 <= j < t.len() implies t[j] == s[j] by {}
    }
}

/// Two lists of entries with the same keys in the same order find a key at
/// the same index.
pub proof fn lemma_key_index_same_keys<V, W>(s: Seq<(String, V)>, t: Seq<(String, W)>, k: Seq<char>)
    requires
        s.len() == t.len(),
        forall|j: int| 0 <= j < s.len() ==> s[j].0@ == t[j].0@,
    ensures
        key_index(s, k) == key_index(t, k),
{
    lemma_key_index(s, k);
    lemma_key_index(t, k);
    let a = key_index(s, k);
    let b = key_index(t, k);
    if a >= 0 && b >= 0 {
        if a < b {
            assert(t[a].0@ == k);
        } else if b < a {
            assert(s[b].0@ == k);
        }
    }
}

/// A table of values keyed by name.
#[derive(Debug)]
pub struct KeyedTable<V> {
    entries: Vec<(String, V)>,
}

impl<V: View> View for KeyedTable<V> {
    type V = Map<Seq<char>, V::V>;

    closed spec fn view(&self) -> Map<Seq<char>, V::V> {
        entries_map(self.entries@)
    }
}

impl<V> KeyedTable<V> {
    /// No key occurs twice among the entries.
    #[verifier::type_invariant]
    spec fn inv(self) -> bool {
        keys_unique(self.entries@)
    }

    /// The entries, in the order in which their keys were first inserted.
    pub closed spec fn entry_seq(&self) -> Seq<(String, V)> {
        self.entries@
    }

}

impl<V: Clone> Clone for KeyedTable<V> {
    /// A copy of the table: the same keys in the same order, each value
    /// cloned.
    fn clone(&self) -> (r: Self)
        ensures
            r.entry_seq().len() == self.entry_seq().len(),
            forall|i: int|
                #![trigger r.entry_seq()[i]]
                0 <= i < self.entry_seq().len() ==> r.entry_seq()[i].0 == self.entry_seq()[i].0
                    && cloned::<V>(self.entry_seq()[i].1, r.entry_seq()[i].1),
    {
        proof {
            use_type_invariant(self);
        }
        let n = self.entries.len();
        let mut entries: Vec<(String, V)> = Vec::new();
        let mut i: usize = 0;
        while i < n
            invariant
                n == self.entries@.len(),
                keys_unique(self.entries@),
                0 <= i <= n,
                entries@.len() == i,
                forall|j: int|
                    #![trigger entries@[j]]
                    0 <= j < i ==> entries@[j].0 == self.entries@[j].0 && cloned::<V>(
                        self.entries@[j].1,
                        entries@[j].1,
                    ),
            decreases n - i,
        {
            let key = self.entries[i].0.clone();
            let value = self.entries[i].1.clone();
            entries.push((key, value));
            i = i + 1;
        }
        assert forall|a: int, b: int|
            0 <= a < entries@.len() && 0 <= b < entries@.len() && a != b implies entries@[a].0@
            != entries@[b].0@ by {
            assert(entries@[a].0 == self.entries@[a].0);
            assert(entries@[b].0 == self.entries@[b].0);
        }
        KeyedTable { entries }
    }
}

impl<V: View> KeyedTable<V> {
    /// An empty table.
    pub fn new() -> (t: Self)
        ensures
            t@ == Map::<Seq<char>, V::V>::empty(),
            t.entry_seq().len() == 0,
    {
        let t = KeyedTable { entries: Vec::new() };
        assert(t@ =~= Map::<Seq<char>, V::V>::empty());
        t
    }

    /// The number of keys in the table.
    pub fn len(&self) -> (n: usize)
        ensures
            n == self.entry_seq().len(),
            n == self@.dom().len(),
    {
        proof {
            use_type_invariant(self);
            self.lemma_dom_len();
        }
        self.entries.len()
    }

    /// The map has one key per entry.
    proof fn lemma_dom_len(&self)
        requires
            keys_unique(self.entries@),
        ensures
            self@.dom().len() == self.entries@.len(),
            self@.dom() == self.entries@.map_values(|e: (String, V)| e.0@).to_set(),
    {
        let s = self.entries@;
        let ks = s.map_values(|e: (String, V)| e.0@);
        assert forall|k: Seq<char>| self@.dom().contains(k) <==> ks.to_set().contains(k) by {
            lemma_key_index(s, k);
            if ks.contains(k) {
                let j = choose|j: int| 0 <= j < ks.len() && ks[j] == k;
                assert(s[j].0@ == k);
            }
            if key_index(s, k) >= 0 {
                assert(ks[key_index(s, k)] == k);
            }
        }
        assert(self@.dom() =~= ks.to_set());
        assert(ks.no_duplicates());
        ks.unique_seq_to_set();
    }

    /// The position of the entry with key `key`, if there is one.
    fn find(&self, key: &str) -> (r: Option<usize>)
        ensures
            match r {
                Some(i) => i == key_index(self.entries@, key@) && i < self.entries@.len(),
                None => key_index(self.entries@, key@) == -1,
            },
    {
        let n = self.entries.len();
        let mut i: usize = 0;
        while i < n
            invariant
                n == self.entries@.len(),
                0 <= i <= n,
                forall|j: int| 0 <= j < i ==> self.entries@[j].0@ != key@,
            decreases n - i,
        {
            if str_equals(self.entries[i].0.as_str(), key) {
                proof {
                    lemma_key_index(self.entries@, key@);
                }
                return Some(i);
            }
            i = i + 1;
        }
        proof {
            lemma_key_index(self.entries@, key@);
        }
        None
    }

    /// The value stored under `key`, if any.
    pub fn get(&self, key: &str) -> (r: Option<&V>)
        ensures
            match r {
                Some(v) => self@.contains_key(key@) && v@ == self@[key@],
                None => !self@.contains_key(key@),
            },
    {
        match self.find(key) {
            Some(i) => Some(&self.entries[i].1),
            None => None,
        }
    }

    /// Stores `value` under `key`, replacing the value that was stored under
    /// it before.
    pub fn insert(&mut self, key: String, value: V)
        ensures
            final(self)@ == old(self)@.insert(key@, value@),
    {
        proof {
            use_type_invariant(&*self);
        }
        let ghost old_s = self.entries@;
        let ghost k0 = key@;
        let ghost v0 = value@;
        match self.find(key.as_str()) {
            Some(i) => {
                let mut entries = Vec::new();
                std::mem::swap(&mut entries, &mut self.entries);
                entries.set(i, (key, value));
                let ghost new_s = entries@;
                proof {
                    lemma_key_index(old_s, k0);
                    assert forall|a: int, b: int|
                        0 <= a < new_s.len() && 0 <= b < new_s.len() && a != b implies new_s[a].0@
                        != new_s[b].0@ by {
                        assert(old_s[a].0@ != old_s[b].0@);
                    }
                    assert forall|k: Seq<char>|
                        #![trigger entries_map(new_s).contains_key(k)]
                        (entries_map(
                            new_s,
                        ).contains_key(k) <==> old(self)@.insert(k0, v0).contains_key(k)) && (
                        entries_map(new_s).contains_key(k) ==> entries_map(new_s)[k] == old(
                            self,
                        )@.insert(k0, v0)[k]) by {
                        lemma_key_index_same_keys(new_s, old_s, k);
                        lemma_key_index(old_s, k);
                    }
                    assert(entries_map(new_s) =~= old(self)@.insert(k0, v0));
                }
                self.entries = entries;
            },
            None => {
                let mut entries = Vec::new();
                std::mem::swap(&mut entries, &mut self.entries);
                entries.push((key, value));
                let ghost new_s = entries@;
                proof {
                    lemma_key_index(old_s, k0);
                    assert(new_s.drop_last() =~= old_s);
                    assert forall|k: Seq<char>|
                        #![trigger entries_map(new_s).contains_key(k)]
                        (entries_map(new_s).contains_key(k) <==> old(self)@.insert(
                            k0,
                            v0,
                        ).contains_key(k)) && (entries_map(new_s).contains_key(k) ==> entries_map(
                            new_s,
                        )[k] == old(self)@.insert(k0, v0)[k]) by {
                        lemma_key_index(old_s, k);
                    }
                    assert(entries_map(new_s) =~= old(self)@.insert(k0, v0));
                }
                self.entries = entries;
            },
        }
    }

    /// The entries of the table, one per key.
    pub fn entries(&self) -> (r: &Vec<(String, V)>)
        ensures
            r@ == self.entry_seq(),
            keys_unique(r@),
            forall|i: int| 0 <= i < r@.len() ==> #[trigger] self@.contains_key(r@[i].0@) && self@[r@[i].0@] == r@[i].1@,
            forall|k: Seq<char>| #[trigger] self@.contains_key(k) ==> exists|i: int| 0 <= i < r@.len() && r@[i].0@ == k,
    {
        proof {
            use_type_invariant(self);
            let s = self.entries@;
            assert forall|i: int| 0 <= i < s.len() implies #[trigger] self@.contains_key(s[i].0@) && self@[s[i].0@] == s[i].1@ by {
                lemma_key_index(s, s[i].0@);
            }
            assert forall|k: Seq<char>| #[trigger] self@.contains_key(k) implies exists|i: int| 0 <= i < s.len() && s[i].0@ == k by {
                lemma_key_index(s, k);
            }
        }
        &self.entries
    }
}

/// Read after write: once `insert` has stored a value under a key, `get`
/// of that key gives that value, and `get` of any other key gives what it
/// gave before.
pub proof fn law_get_after_insert<V: View>(
    before: KeyedTable<V>,
    after: KeyedTable<V>,
    key: Seq<char>,
    value: V::V,
    other: Seq<char>,
)
    requires
        after@ == before@.insert(key, value),
        other != key,
    ensures
        after@.contains_key(key),
        after@[key] == value,
        after@.contains_key(other) == before@.contains_key(other),
        before@.contains_key(other) ==> after@[other] == before@[other],
{
}

} // verus!
