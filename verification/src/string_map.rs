//! A map from text keys to values, kept as a list of entries in which no key
//! occurs twice. Its view is the mathematical map from key text to value.

use vstd::prelude::*;

verus! {

/// Text-keyed map. Entries keep the order in which their keys first arrived.
#[derive(Debug)]
pub struct StringMap<V> {
    entries: Vec<(String, V)>,
}

/// No two entries of `entries` carry the same key text.
spec fn keys_distinct<V>(entries: Seq<(String, V)>) -> bool {
    forall|i: int, j: int|
        0 <= i < j < entries.len() ==> (#[trigger] entries[i]).0@ != (#[trigger] entries[j]).0@
}

/// Some entry of `entries` carries the key `key`.
spec fn has_key<V>(entries: Seq<(String, V)>, key: Seq<char>) -> bool {
    exists|i: int| 0 <= i < entries.len() && (#[trigger] entries[i]).0@ == key
}

/// The position of an entry that carries `key`.
spec fn position_of<V>(entries: Seq<(String, V)>, key: Seq<char>) -> int {
    choose|i: int| 0 <= i < entries.len() && (#[trigger] entries[i]).0@ == key
}

/// The map that a list of entries stands for.
spec fn entries_map<V>(entries: Seq<(String, V)>) -> Map<Seq<char>, V> {
    Map::new(
        |key: Seq<char>| has_key(entries, key),
        |key: Seq<char>| entries[position_of(entries, key)].1,
    )
}

/// The key texts of `entries`, in their order.
spec fn key_texts<V>(entries: Seq<(String, V)>) -> Seq<Seq<char>> {
    Seq::new(entries.len(), |i: int| entries[i].0@)
}

/// `keys` holds no text twice and holds exactly the keys of `map`.
pub open spec fn lists_keys<V>(keys: Seq<Seq<char>>, map: Map<Seq<char>, V>) -> bool {
    &&& keys.no_duplicates()
    &&& forall|i: int| 0 <= i < keys.len() ==> map.contains_key(#[trigger] keys[i])
    &&& forall|key: Seq<char>| map.contains_key(key) ==> keys.contains(key)
}

/// The key texts of a list with distinct keys list the keys of its map.
proof fn lemma_key_texts<V>(entries: Seq<(String, V)>)
    requires
        keys_distinct(entries),
    ensures
        lists_keys(key_texts(entries), entries_map(entries)),
{
    let keys = key_texts(entries);
    assert forall|i: int, j: int| 0 <= i < keys.len() && 0 <= j < keys.len() && i != j implies keys[i]
        != keys[j] by {
        if i < j {
            assert(entries[i].0@ != entries[j].0@);
        } else {
            assert(entries[j].0@ != entries[i].0@);
        }
    }
    assert forall|i: int| 0 <= i < keys.len() implies entries_map(entries).contains_key(
        #[trigger] keys[i],
    ) by {
        lemma_entry_lookup(entries, i);
    }
    assert forall|key: Seq<char>| entries_map(entries).contains_key(key) implies keys.contains(
        key,
    ) by {
        let p = position_of(entries, key);
        assert(keys[p] == key);
    }
}

/// In a list with distinct keys, the entry at `i` is the one its key maps to.
proof fn lemma_entry_lookup<V>(entries: Seq<(String, V)>, i: int)
    requires
        keys_distinct(entries),
        0 <= i < entries.len(),
    ensures
        entries_map(entries).contains_key(entries[i].0@),
        entries_map(entries)[entries[i].0@] == entries[i].1,
{
    let key = entries[i].0@;
    assert(has_key(entries, key));
    let p = position_of(entries, key);
    assert(0 <= p < entries.len() && entries[p].0@ == key);
    if p < i {
        assert(entries[p].0@ != entries[i].0@);
    } else if i < p {
        assert(entries[i].0@ != entries[p].0@);
    }
}

/// Appending an entry with a fresh key inserts it into the map.
proof fn lemma_push_fresh<V>(entries: Seq<(String, V)>, key: String, value: V)
    requires
        keys_distinct(entries),
        !has_key(entries, key@),
    ensures
        keys_distinct(entries.push((key, value))),
        entries_map(entries.push((key, value))) == entries_map(entries).insert(key@, value),
{
    let grown = entries.push((key, value));
    assert forall|i: int, j: int| 0 <= i < j < grown.len() implies (#[trigger] grown[i]).0@ != (
    #[trigger] grown[j]).0@ by {
        if j < entries.len() {
            assert(entries[i].0@ != entries[j].0@);
        } else {
            assert(entries[i].0@ != key@);
        }
    }
    let lhs = entries_map(grown);
    let rhs = entries_map(entries).insert(key@, value);
    assert forall|k: Seq<char>| lhs.contains_key(k) <==> rhs.contains_key(k) by {
        if has_key(grown, k) {
            let p = position_of(grown, k);
            if p < entries.len() {
                assert(entries[p].0@ == k);
            }
        }
        if has_key(entries, k) {
            let p = position_of(entries, k);
            assert(grown[p].0@ == k);
        }
        if k == key@ {
            assert(grown[entries.len() as int].0@ == k);
        }
    }
    assert forall|k: Seq<char>| lhs.contains_key(k) implies lhs[k] == rhs[k] by {
        let p = position_of(grown, k);
        lemma_entry_lookup(grown, p);
        if p < entries.len() {
            assert(entries[p].0@ == k);
            lemma_entry_lookup(entries, p);
        }
    }
    assert(lhs =~= rhs);
}

/// Replacing the value of the entry at `i` re-inserts its key with the new value.
proof fn lemma_replace_value<V>(entries: Seq<(String, V)>, i: int, value: V)
    requires
        keys_distinct(entries),
        0 <= i < entries.len(),
    ensures
        keys_distinct(entries.update(i, (entries[i].0, value))),
        entries_map(entries.update(i, (entries[i].0, value))) == entries_map(entries).insert(
            entries[i].0@,
            value,
        ),
{
    let key = entries[i].0;
    let changed = entries.update(i, (key, value));
    assert forall|a: int, b: int| 0 <= a < b < changed.len() implies (#[trigger] changed[a]).0@ != (
    #[trigger] changed[b]).0@ by {
        assert(entries[a].0@ != entries[b].0@);
    }
    let lhs = entries_map(changed);
    let rhs = entries_map(entries).insert(key@, value);
    assert forall|k: Seq<char>| lhs.contains_key(k) <==> rhs.contains_key(k) by {
        if has_key(changed, k) {
            let p = position_of(changed, k);
            assert(entries[p].0@ == k);
        }
        if has_key(entries, k) {
            let p = position_of(entries, k);
            assert(changed[p].0@ == k);
        }
        if k == key@ {
            assert(changed[i].0@ == k);
        }
    }
    assert forall|k: Seq<char>| lhs.contains_key(k) implies lhs[k] == rhs[k] by {
        let p = position_of(changed, k);
        lemma_entry_lookup(changed, p);
        assert(entries[p].0@ == k);
        lemma_entry_lookup(entries, p);
    }
    assert(lhs =~= rhs);
}

/// Dropping the last entry removes its key from the map.
proof fn lemma_drop_last<V>(entries: Seq<(String, V)>)
    requires
        keys_distinct(entries),
        entries.len() > 0,
    ensures
        keys_distinct(entries.drop_last()),
        entries_map(entries.drop_last()) == entries_map(entries).remove(entries.last().0@),
        entries_map(entries).contains_key(entries.last().0@),
        entries_map(entries)[entries.last().0@] == entries.last().1,
{
    let rest = entries.drop_last();
    let last = entries.len() - 1;
    let key = entries.last().0@;
    assert forall|a: int, b: int| 0 <= a < b < rest.len() implies (#[trigger] rest[a]).0@ != (
    #[trigger] rest[b]).0@ by {
        assert(entries[a].0@ != entries[b].0@);
    }
    lemma_entry_lookup(entries, last);
    let lhs = entries_map(rest);
    let rhs = entries_map(entries).remove(key);
    assert forall|k: Seq<char>| lhs.contains_key(k) <==> rhs.contains_key(k) by {
        if has_key(rest, k) {
            let p = position_of(rest, k);
            assert(entries[p].0@ == k);
            assert(entries[p].0@ != entries[last].0@);
        }
        if has_key(entries, k) && k != key {
            let p = position_of(entries, k);
            assert(rest[p].0@ == k);
        }
    }
    assert forall|k: Seq<char>| lhs.contains_key(k) implies lhs[k] == rhs[k] by {
        let p = position_of(rest, k);
        lemma_entry_lookup(rest, p);
        assert(entries[p].0@ == k);
        lemma_entry_lookup(entries, p);
    }
    assert(lhs =~= rhs);
}

/// A list without entries stands for the empty map.
proof fn lemma_empty_entries<V>(entries: Seq<(String, V)>)
    requires
        entries.len() == 0,
    ensures
        entries_map(entries) == Map::<Seq<char>, V>::empty(),
{
    assert(entries_map(entries) =~= Map::<Seq<char>, V>::empty());
}

impl<V> View for StringMap<V> {
    type V = Map<Seq<char>, V>;

    closed spec fn view(&self) -> Map<Seq<char>, V> {
        entries_map(self.entries@)
    }
}

impl<V> StringMap<V> {
    #[verifier::type_invariant]
    spec fn well_formed(&self) -> bool {
        keys_distinct(self.entries@)
    }

    /// The keys held, each once, in the order in which they first arrived.
    pub closed spec fn order(&self) -> Seq<Seq<char>> {
        key_texts(self.entries@)
    }

    /// The number of entries held.
    pub open spec fn count(&self) -> nat {
        self.order().len()
    }

    /// A map without entries.
    pub fn new() -> (map: Self)
        ensures
            map@ == Map::<Seq<char>, V>::empty(),
            map.order() == Seq::<Seq<char>>::empty(),
    {
        let map = StringMap { entries: Vec::new() };
        proof {
            lemma_empty_entries(map.entries@);
            assert(map.order() =~= Seq::<Seq<char>>::empty());
        }
        map
    }

    /// How many keys the map holds.
    pub fn len(&self) -> (n: usize)
        ensures
            n == self.count(),
            (n == 0) == (self@ == Map::<Seq<char>, V>::empty()),
            lists_keys(self.order(), self@),
    {
        proof {
            use_type_invariant(self);
            if self.entries@.len() == 0 {
                lemma_empty_entries(self.entries@);
            } else {
                lemma_entry_lookup(self.entries@, 0);
            }
            lemma_key_texts(self.entries@);
        }
        self.entries.len()
    }

    /// Whether the map holds no key.
    pub fn is_empty(&self) -> (empty: bool)
        ensures
            empty == (self.count() == 0),
            empty == (self@ == Map::<Seq<char>, V>::empty()),
    {
        self.len() == 0
    }

    /// The position of `key` among the entries, if the map holds it.
    fn find(&self, key: &str) -> (found: Option<usize>)
        ensures
            match found {
                Some(i) => i < self.entries@.len() && self.entries@[i as int].0@ == key@,
                None => !has_key(self.entries@, key@),
            },
    {
        let mut i: usize = 0;
        while i < self.entries.len()
            invariant
                i <= self.entries@.len(),
                forall|j: int| 0 <= j < i ==> (#[trigger] self.entries@[j]).0@ != key@,
            decreases self.entries@.len() - i,
        {
            if text_equal(self.entries[i].0.as_str(), key) {
                return Some(i);
            }
            i += 1;
        }
        None
    }

    /// Whether the map holds `key`.
    pub fn contains_key(&self, key: &str) -> (held: bool)
        ensures
            held == self@.contains_key(key@),
    {
        self.find(key).is_some()
    }

    /// The value stored under `key`, if any.
    pub fn get(&self, key: &str) -> (value: Option<&V>)
        ensures
            match value {
                Some(v) => self@.contains_key(key@) && *v == self@[key@],
                None => !self@.contains_key(key@),
            },
    {
        match self.find(key) {
            Some(i) => {
                proof {
                    use_type_invariant(self);
                    lemma_entry_lookup(self.entries@, i as int);
                }
                Some(&self.entries[i].1)
            },
            None => None,
        }
    }

    /// Stores `value` under `key`, replacing what the key held before.
    pub fn insert(&mut self, key: String, value: V)
        ensures
            final(self)@ == old(self)@.insert(key@, value),
            final(self).order() == if old(self)@.contains_key(key@) {
                old(self).order()
            } else {
                old(self).order().push(key@)
            },
    {
        proof {
            use_type_invariant(&*self);
        }
        match self.find(key.as_str()) {
            Some(i) => {
                proof {
                    lemma_replace_value(self.entries@, i as int, value);
                }
                let mut entries: Vec<(String, V)> = Vec::new();
                std::mem::swap(&mut self.entries, &mut entries);
                entries[i].1 = value;
                assert(entries@ =~= old(self).entries@.update(
                    i as int,
                    (old(self).entries@[i as int].0, value),
                ));
                self.entries = entries;
                proof {
                    lemma_entry_lookup(old(self).entries@, i as int);
                    assert(self.order() =~= old(self).order());
                }
            },
            None => {
                proof {
                    lemma_push_fresh(self.entries@, key, value);
                }
                let mut entries: Vec<(String, V)> = Vec::new();
                std::mem::swap(&mut self.entries, &mut entries);
                entries.push((key, value));
                self.entries = entries;
                proof {
                    assert(self.order() =~= old(self).order().push(key@));
                }
            },
        }
    }

    /// Takes one entry out of the map: the one whose key arrived last.
    pub fn pop(&mut self) -> (entry: Option<(String, V)>)
        ensures
            match entry {
                Some((key, value)) => {
                    &&& old(self)@.contains_key(key@)
                    &&& old(self)@[key@] == value
                    &&& final(self)@ == old(self)@.remove(key@)
                    &&& old(self).order().len() > 0
                    &&& old(self).order().last() == key@
                    &&& final(self).order() == old(self).order().drop_last()
                },
                None => {
                    &&& old(self).order().len() == 0
                    &&& old(self)@ == Map::<Seq<char>, V>::empty()
                    &&& final(self)@ == old(self)@
                    &&& final(self).order() == old(self).order()
                },
            },
    {
        proof {
            use_type_invariant(&*self);
            if self.entries@.len() > 0 {
                lemma_drop_last(self.entries@);
            } else {
                lemma_empty_entries(self.entries@);
            }
        }
        let mut entries: Vec<(String, V)> = Vec::new();
        std::mem::swap(&mut self.entries, &mut entries);
        let entry = entries.pop();
        self.entries = entries;
        proof {
            if old(self).entries@.len() > 0 {
                assert(self.order() =~= old(self).order().drop_last());
            } else {
                assert(self.order() =~= old(self).order());
            }
        }
        entry
    }

    /// The keys of the map, in the order in which they first arrived.
    pub fn keys(&self) -> (keys: Vec<String>)
        ensures
            keys@.map_values(|key: String| key@) == self.order(),
            lists_keys(self.order(), self@),
    {
        let mut keys: Vec<String> = Vec::new();
        let mut i: usize = 0;
        while i < self.entries.len()
            invariant
                i <= self.entries@.len(),
                keys@.len() == i,
                forall|j: int| 0 <= j < i ==> (#[trigger] keys@[j])@ == self.entries@[j].0@,
            decreases self.entries@.len() - i,
        {
            keys.push(self.entries[i].0.clone());
            i += 1;
        }
        proof {
            use_type_invariant(self);
            lemma_key_texts(self.entries@);
            assert(keys@.map_values(|key: String| key@) =~= self.order());
        }
        keys
    }
}

impl<V: Clone> Clone for StringMap<V> {
    /// A copy that holds the same keys in the same order, each with a clone
    /// of its value.
    fn clone(&self) -> (copy: Self)
        ensures
            copy.order() == self.order(),
            copy@.dom() == self@.dom(),
            forall|key: Seq<char>| #[trigger]
                self@.contains_key(key) ==> cloned(self@[key], copy@[key]),
    {
        let mut entries: Vec<(String, V)> = Vec::new();
        let mut i: usize = 0;
        proof {
            use_type_invariant(self);
        }
        while i < self.entries.len()
            invariant
                i <= self.entries@.len(),
                entries@.len() == i,
                keys_distinct(self.entries@),
                forall|j: int|
                    0 <= j < i ==> (#[trigger] entries@[j]).0@ == self.entries@[j].0@ && cloned(
                        self.entries@[j].1,
                        entries@[j].1,
                    ),
            decreases self.entries@.len() - i,
        {
            entries.push((self.entries[i].0.clone(), self.entries[i].1.clone()));
            i += 1;
        }
        proof {
            assert forall|a: int, b: int| 0 <= a < b < entries@.len() implies (
            #[trigger] entries@[a]).0@ != (#[trigger] entries@[b]).0@ by {
                assert(self.entries@[a].0@ != self.entries@[b].0@);
            }
            assert(key_texts(entries@) =~= key_texts(self.entries@));
            assert forall|key: Seq<char>| has_key(self.entries@, key) == has_key(entries@, key) by {
                if has_key(self.entries@, key) {
                    let p = position_of(self.entries@, key);
                    assert(entries@[p].0@ == key);
                }
                if has_key(entries@, key) {
                    let p = position_of(entries@, key);
                    assert(self.entries@[p].0@ == key);
                }
            }
            assert(entries_map(entries@).dom() =~= entries_map(self.entries@).dom());
            assert forall|key: Seq<char>| #[trigger]
                entries_map(self.entries@).contains_key(key) implies cloned(
                entries_map(self.entries@)[key],
                entries_map(entries@)[key],
            ) by {
                let p = position_of(self.entries@, key);
                lemma_entry_lookup(self.entries@, p);
                lemma_entry_lookup(entries@, p);
            }
        }
        StringMap { entries }
    }
}

/// Whether two pieces of text hold the same characters: `str`'s `==`, which
/// compares them character by character.
#[verifier::external_body]
pub(crate) fn text_equal(a: &str, b: &str) -> (same: bool)
    ensures
        same == (a@ == b@),
{
    a == b
}

} // verus!
