//! The cache that every store reads before it asks the database, and clears
//! or refreshes after it writes.
use vstd::prelude::*;
use vstd::string::*;
use crate::text::same_text;

verus! {

/// A text key-value cache. Entries stay until they are overwritten or
/// removed; nothing expires.
pub struct CacheDB {
    entries: Vec<(String, String)>,
}

/// No key stands twice in `entries`.
spec fn unique_keys(entries: Seq<(String, String)>) -> bool {
    forall|i: int, j: int| 0 <= i < j < entries.len() ==> entries[i].0@ != entries[j].0@
}

/// `key` stands at position `i` of `entries`.
spec fn held_at(entries: Seq<(String, String)>, key: Seq<char>, i: int) -> bool {
    0 <= i < entries.len() && entries[i].0@ == key
}

/// The map that a list of entries stands for.
spec fn entries_map(entries: Seq<(String, String)>) -> Map<Seq<char>, Seq<char>> {
    Map::new(
        |k: Seq<char>| exists|i: int| held_at(entries, k, i),
        |k: Seq<char>| entries[choose|i: int| held_at(entries, k, i)].1@,
    )
}

/// With unique keys, the entry at a position is what the map holds under its
/// key.
proof fn lemma_entry_in_map(entries: Seq<(String, String)>, i: int)
    requires
        unique_keys(entries),
        0 <= i < entries.len(),
    ensures
        entries_map(entries).contains_key(entries[i].0@),
        entries_map(entries)[entries[i].0@] == entries[i].1@,
{
    let k = entries[i].0@;
    assert(held_at(entries, k, i));
    let c = choose|c: int| held_at(entries, k, c);
    assert(c == i) by {
        if c < i {
            assert(entries[c].0@ != entries[i].0@);
        } else if i < c {
            assert(entries[i].0@ != entries[c].0@);
        }
    }
}

/// A key of the map stands at some position.
proof fn lemma_key_has_entry(entries: Seq<(String, String)>, key: Seq<char>) -> (i: int)
    requires
        entries_map(entries).contains_key(key),
    ensures
        held_at(entries, key, i),
{
    choose|i: int| held_at(entries, key, i)
}

impl View for CacheDB {
    type V = Map<Seq<char>, Seq<char>>;

    closed spec fn view(&self) -> Map<Seq<char>, Seq<char>> {
        entries_map(self.entries@)
    }
}

/// A map equals the map of a list of entries with unique keys if it holds
/// every entry and nothing else.
proof fn lemma_map_of_entries(entries: Seq<(String, String)>, m: Map<Seq<char>, Seq<char>>)
    requires
        unique_keys(entries),
        forall|i: int|
            0 <= i < entries.len() ==> m.dom().contains(#[trigger] entries[i].0@)
                && m[entries[i].0@] == entries[i].1@,
        forall|k: Seq<char>| #[trigger]
            m.dom().contains(k) ==> exists|i: int| held_at(entries, k, i),
    ensures
        entries_map(entries) == m,
{
    let e = entries_map(entries);
    assert forall|k: Seq<char>| #[trigger] e.dom().contains(k) == m.dom().contains(k) by {
        if e.dom().contains(k) {
            let i = lemma_key_has_entry(entries, k);
            assert(m.dom().contains(entries[i].0@));
        }
        if m.dom().contains(k) {
            let i = choose|i: int| held_at(entries, k, i);
            lemma_entry_in_map(entries, i);
        }
    }
    assert forall|k: Seq<char>| #[trigger] e.dom().contains(k) implies e[k] == m[k] by {
        let i = lemma_key_has_entry(entries, k);
        lemma_entry_in_map(entries, i);
        assert(m.dom().contains(entries[i].0@));
    }
    assert(e =~= m);
}

/// Replacing the entry at a position by one with the same key overwrites
/// the key in the map and keeps the keys unique.
proof fn lemma_replace(before: Seq<(String, String)>, i: int, entry: (String, String))
    requires
        unique_keys(before),
        0 <= i < before.len(),
        before[i].0@ == entry.0@,
    ensures
        unique_keys(before.update(i, entry)),
        entries_map(before.update(i, entry)) == entries_map(before).insert(entry.0@, entry.1@),
{
    let after = before.update(i, entry);
    let want = entries_map(before).insert(entry.0@, entry.1@);
    assert forall|a: int, b: int| 0 <= a < b < after.len() implies after[a].0@ != after[b].0@ by {
        assert(before[a].0@ != before[b].0@);
    }
    assert forall|j: int| 0 <= j < after.len() implies want.dom().contains(
        #[trigger] after[j].0@,
    ) && want[after[j].0@] == after[j].1@ by {
        if j != i {
            lemma_entry_in_map(before, j);
            if j < i {
                assert(before[j].0@ != before[i].0@);
            } else {
                assert(before[i].0@ != before[j].0@);
            }
        }
    }
    assert forall|k: Seq<char>| #[trigger] want.dom().contains(k) implies exists|j: int|
        held_at(after, k, j) by {
        if k == entry.0@ {
            assert(held_at(after, k, i));
        } else {
            let j = lemma_key_has_entry(before, k);
            assert(held_at(after, k, j));
        }
    }
    lemma_map_of_entries(after, want);
}

/// Adding an entry whose key is not held yet inserts it into the map and
/// keeps the keys unique.
proof fn lemma_append(before: Seq<(String, String)>, entry: (String, String))
    requires
        unique_keys(before),
        forall|j: int| 0 <= j < before.len() ==> before[j].0@ != entry.0@,
    ensures
        unique_keys(before.push(entry)),
        entries_map(before.push(entry)) == entries_map(before).insert(entry.0@, entry.1@),
{
    let after = before.push(entry);
    let want = entries_map(before).insert(entry.0@, entry.1@);
    assert forall|a: int, b: int| 0 <= a < b < after.len() implies after[a].0@ != after[b].0@ by {
        if b < before.len() {
            assert(before[a].0@ != before[b].0@);
        }
    }
    assert forall|j: int| 0 <= j < after.len() implies want.dom().contains(
        #[trigger] after[j].0@,
    ) && want[after[j].0@] == after[j].1@ by {
        if j < before.len() {
            lemma_entry_in_map(before, j);
        }
    }
    assert forall|k: Seq<char>| #[trigger] want.dom().contains(k) implies exists|j: int|
        held_at(after, k, j) by {
        if k == entry.0@ {
            assert(held_at(after, k, before.len() as int));
        } else {
            let j = lemma_key_has_entry(before, k);
            assert(held_at(after, k, j));
        }
    }
    lemma_map_of_entries(after, want);
}

/// Taking one entry out removes its key from the map and keeps the keys
/// unique.
proof fn lemma_take_out(before: Seq<(String, String)>, i: int)
    requires
        unique_keys(before),
        0 <= i < before.len(),
    ensures
        unique_keys(before.remove(i)),
        entries_map(before.remove(i)) == entries_map(before).remove(before[i].0@),
{
    let after = before.remove(i);
    let key = before[i].0@;
    let want = entries_map(before).remove(key);
    assert forall|a: int, b: int| 0 <= a < b < after.len() implies after[a].0@ != after[b].0@ by {
        let a0 = if a < i { a } else { a + 1 };
        let b0 = if b < i { b } else { b + 1 };
        assert(before[a0].0@ != before[b0].0@);
    }
    assert forall|j: int| 0 <= j < after.len() implies want.dom().contains(
        #[trigger] after[j].0@,
    ) && want[after[j].0@] == after[j].1@ by {
        let j0 = if j < i { j } else { j + 1 };
        lemma_entry_in_map(before, j0);
        if j0 < i {
            assert(before[j0].0@ != before[i].0@);
        } else {
            assert(before[i].0@ != before[j0].0@);
        }
    }
    assert forall|k: Seq<char>| #[trigger] want.dom().contains(k) implies exists|j: int|
        held_at(after, k, j) by {
        let j0 = lemma_key_has_entry(before, k);
        let j = if j0 < i { j0 } else { j0 - 1 };
        assert(held_at(after, k, j));
    }
    lemma_map_of_entries(after, want);
}

impl CacheDB {
    /// No key is held twice.
    #[verifier::type_invariant]
    spec fn keys_unique(self) -> bool {
        unique_keys(self.entries@)
    }

    /// Where `key` is held, if it is.
    fn position(&self, key: &str) -> (r: Option<usize>)
        ensures
            match r {
                Some(i) => i < self.entries.len() && self.entries[i as int].0@ == key@,
                None => forall|k: int| 0 <= k < self.entries.len() ==> self.entries[k].0@ != key@,
            },
    {
        let mut i: usize = 0;
        while i < self.entries.len()
            invariant
                i <= self.entries.len(),
                forall|k: int| 0 <= k < i ==> self.entries[k].0@ != key@,
            decreases self.entries.len() - i,
        {
            if same_text(self.entries[i].0.as_str(), key) {
                return Some(i);
            }
            i += 1;
        }
        None
    }

    /// An empty cache.
    pub fn new() -> (r: CacheDB)
        ensures
            r@ == Map::<Seq<char>, Seq<char>>::empty(),
    {
        let r = CacheDB { entries: Vec::new() };
        assert(r@ =~= Map::<Seq<char>, Seq<char>>::empty());
        r
    }

    /// The value held under `key`, if there is one.
    pub fn get(&self, key: &str) -> (r: Option<String>)
        ensures
            match r {
                Some(v) => self@.contains_key(key@) && self@[key@] == v@,
                None => !self@.contains_key(key@),
            },
    {
        proof {
            use_type_invariant(self);
        }
        match self.position(key) {
            Some(i) => {
                proof {
                    lemma_entry_in_map(self.entries@, i as int);
                }
                Some(self.entries[i].1.clone())
            },
            None => {
                proof {
                    if self@.contains_key(key@) {
                        lemma_key_has_entry(self.entries@, key@);
                    }
                }
                None
            },
        }
    }

    /// Puts `value` under `key`, whether or not the key was held before.
    pub fn set(&mut self, key: String, value: String)
        ensures
            final(self)@ == old(self)@.insert(key@, value@),
    {
        proof {
            use_type_invariant(&*self);
        }
        let found = self.position(key.as_str());
        let mut entries: Vec<(String, String)> = Vec::new();
        core::mem::swap(&mut self.entries, &mut entries);
        let ghost before = entries@;
        match found {
            Some(i) => {
                proof {
                    lemma_replace(before, i as int, (key, value));
                }
                entries.set(i, (key, value));
            },
            None => {
                proof {
                    lemma_append(before, (key, value));
                }
                entries.push((key, value));
            },
        }
        self.entries = entries;
    }

    /// Puts `value` under `key` if the key is held, and says whether it was.
    pub fn update(&mut self, key: &str, value: String) -> (r: bool)
        ensures
            r == old(self)@.contains_key(key@),
            final(self)@ == if r {
                old(self)@.insert(key@, value@)
            } else {
                old(self)@
            },
    {
        proof {
            use_type_invariant(&*self);
        }
        match self.position(key) {
            Some(i) => {
                let mut entries: Vec<(String, String)> = Vec::new();
                core::mem::swap(&mut self.entries, &mut entries);
                let ghost before = entries@;
                let held = entries[i].0.clone();
                proof {
                    lemma_entry_in_map(before, i as int);
                    lemma_replace(before, i as int, (held, value));
                }
                entries.set(i, (held, value));
                self.entries = entries;
                true
            },
            None => {
                proof {
                    if self@.contains_key(key@) {
                        lemma_key_has_entry(self.entries@, key@);
                    }
                }
                false
            },
        }
    }

    /// Drops what is held under `key`, and says whether anything was.
    pub fn remove(&mut self, key: &str) -> (r: bool)
        ensures
            r == old(self)@.contains_key(key@),
            final(self)@ == old(self)@.remove(key@),
    {
        proof {
            use_type_invariant(&*self);
        }
        match self.position(key) {
            Some(i) => {
                let mut entries: Vec<(String, String)> = Vec::new();
                core::mem::swap(&mut self.entries, &mut entries);
                let ghost before = entries@;
                entries.remove(i);
                assert(entries@ == before.remove(i as int));
                proof {
                    lemma_entry_in_map(before, i as int);
                    lemma_take_out(before, i as int);
                }
                self.entries = entries;
                true
            },
            None => {
                proof {
                    if self@.contains_key(key@) {
                        lemma_key_has_entry(self.entries@, key@);
                    }
                    assert(self@ =~= old(self)@.remove(key@));
                }
                false
            },
        }
    }
}

} // verus!
