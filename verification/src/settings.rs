//! An in-memory settings store: string keys to string values, modelled as
//! a map. The persistence layer around it loads the pairs from disk and
//! writes them back; everything it decides in between is verified here.

use vstd::prelude::*;
use crate::text::str_eq;

verus! {

/// No two entries share a key.
pub(crate) open spec fn unique_keys(entries: Seq<(String, String)>) -> bool {
    forall|i: int, j: int|
        #![trigger entries[i], entries[j]]
        0 <= i < j < entries.len() ==> entries[i].0@ != entries[j].0@
}

/// The map a sequence of key-value pairs denotes, later pairs overriding
/// earlier ones.
pub open spec fn pairs_map(pairs: Seq<(String, String)>) -> Map<Seq<char>, Seq<char>>
    decreases pairs.len(),
{
    if pairs.len() == 0 {
        Map::empty()
    } else {
        pairs_map(pairs.drop_last()).insert(pairs.last().0@, pairs.last().1@)
    }
}

/// A key matched by no entry is not in the denoted map.
proof fn lemma_pairs_map_no_match(entries: Seq<(String, String)>, key: Seq<char>)
    requires
        forall|i: int| 0 <= i < entries.len() ==> (#[trigger] entries[i]).0@ != key,
    ensures
        !pairs_map(entries).contains_key(key),
    decreases entries.len(),
{
    if entries.len() > 0 {
        lemma_pairs_map_no_match(entries.drop_last(), key);
    }
}

/// With unique keys, the entry holding a key gives its value in the
/// denoted map.
proof fn lemma_pairs_map_match(entries: Seq<(String, String)>, i: int)
    requires
        unique_keys(entries),
        0 <= i < entries.len(),
    ensures
        pairs_map(entries).contains_key(entries[i].0@),
        pairs_map(entries)[entries[i].0@] == entries[i].1@,
    decreases entries.len(),
{
    if i == entries.len() - 1 {
    } else {
        assert(entries[i].0@ != entries.last().0@);
        lemma_pairs_map_match(entries.drop_last(), i);
    }
}

/// Every key of the denoted map is held by some entry.
proof fn lemma_pairs_map_key_has_entry(entries: Seq<(String, String)>, key: Seq<char>)
    requires
        pairs_map(entries).contains_key(key),
    ensures
        exists|i: int| 0 <= i < entries.len() && (#[trigger] entries[i]).0@ == key,
    decreases entries.len(),
{
    if entries.len() > 0 && entries.last().0@ != key {
        lemma_pairs_map_key_has_entry(entries.drop_last(), key);
        let j = choose|j: int|
            0 <= j < entries.drop_last().len() && (#[trigger] entries.drop_last()[j]).0@ == key;
        assert(entries[j].0@ == key);
    }
}

/// With unique keys, removing the entry holding a key removes exactly that
/// key from the denoted map.
proof fn lemma_pairs_map_remove(entries: Seq<(String, String)>, i: int)
    requires
        unique_keys(entries),
        0 <= i < entries.len(),
    ensures
        pairs_map(entries.remove(i)) =~= pairs_map(entries).remove(entries[i].0@),
        unique_keys(entries.remove(i)),
    decreases entries.len(),
{
    let key = entries[i].0@;
    if i == entries.len() - 1 {
        assert(entries.remove(i) =~= entries.drop_last());
        assert(forall|j: int|
            0 <= j < entries.drop_last().len() ==> (#[trigger] entries.drop_last()[j]).0@ != key);
        lemma_pairs_map_no_match(entries.drop_last(), key);
        assert(pairs_map(entries.drop_last()) =~= pairs_map(entries).remove(key));
    } else {
        let shorter = entries.drop_last();
        lemma_pairs_map_remove(shorter, i);
        assert(entries.remove(i).drop_last() =~= shorter.remove(i));
        assert(entries.remove(i).last() == entries.last());
        assert(pairs_map(entries.remove(i)) == pairs_map(shorter.remove(i)).insert(
            entries.last().0@,
            entries.last().1@,
        ));
        assert(entries.last().0@ != key);
        assert(pairs_map(shorter).remove(key).insert(entries.last().0@, entries.last().1@)
            =~= pairs_map(entries).remove(key));
    }
}

/// The settings store: an association list with unique keys, read as a map
/// from key to value.
pub struct SettingsStore {
    entries: Vec<(String, String)>,
}

impl View for SettingsStore {
    type V = Map<Seq<char>, Seq<char>>;

    closed spec fn view(&self) -> Map<Seq<char>, Seq<char>> {
        pairs_map(self.entries@)
    }
}

/// Scan for the entry holding `key`.
fn find_key(entries: &Vec<(String, String)>, key: &str) -> (r: Option<usize>)
    ensures
        r is Some ==> r->0 < entries@.len() && entries@[r->0 as int].0@ == key@,
        r is None ==> forall|i: int| 0 <= i < entries@.len() ==> (#[trigger] entries@[i]).0@ != key@,
{
    let mut i: usize = 0;
    while i < entries.len()
        invariant
            i <= entries@.len(),
            forall|j: int| 0 <= j < i ==> (#[trigger] entries@[j]).0@ != key@,
        decreases entries@.len() - i,
    {
        let p = &entries[i];
        if str_eq(p.0.as_str(), key) {
            return Some(i);
        }
        i += 1;
    }
    None
}

impl SettingsStore {
    /// Well-formedness: no two entries share a key.
    pub closed spec fn wf(self) -> bool {
        unique_keys(self.entries@)
    }

    /// The value stored under a key, if any.
    pub open spec fn spec_get(self, key: Seq<char>) -> Option<Seq<char>> {
        if self@.contains_key(key) {
            Some(self@[key])
        } else {
            None
        }
    }

    /// An empty store.
    pub fn new() -> (r: SettingsStore)
        ensures
            r.wf(),
            r@ == Map::<Seq<char>, Seq<char>>::empty(),
    {
        SettingsStore { entries: Vec::new() }
    }

    /// Look a setting up.
    pub fn get_setting(&self, key: &str) -> (r: Option<&String>)
        requires
            self.wf(),
        ensures
            r is Some <==> self@.contains_key(key@),
            r is Some ==> r->0@ == self@[key@],
    {
        match find_key(&self.entries, key) {
            Some(i) => {
                proof {
                    lemma_pairs_map_match(self.entries@, i as int);
                }
                let p = &self.entries[i];
                Some(&p.1)
            },
            None => {
                proof {
                    lemma_pairs_map_no_match(self.entries@, key@);
                }
                None
            },
        }
    }

    /// Remove a setting; removing an absent key changes nothing.
    pub fn delete_setting(&mut self, key: &str)
        requires
            old(self).wf(),
        ensures
            final(self).wf(),
            final(self)@ == old(self)@.remove(key@),
            !final(self)@.contains_key(key@),
    {
        match find_key(&self.entries, key) {
            Some(i) => {
                let ghost before = self.entries@;
                proof {
                    lemma_pairs_map_remove(before, i as int);
                }
                self.entries.remove(i);
                proof {
                    assert forall|j: int| 0 <= j < self.entries@.len() implies (#[trigger] self
                        .entries@[j]).0@ != key@ by {
                        if j < i as int {
                            assert(self.entries@[j] == before[j]);
                            assert(before[j].0@ != before[i as int].0@);
                        } else {
                            assert(self.entries@[j] == before[j + 1]);
                            assert(before[i as int].0@ != before[j + 1].0@);
                        }
                    }
                    lemma_pairs_map_no_match(self.entries@, key@);
                }
            },
            None => {
                proof {
                    lemma_pairs_map_no_match(self.entries@, key@);
                    assert(self@.remove(key@) =~= self@);
                }
            },
        }
    }

    /// Store a setting, replacing any previous value under the key.
    pub fn set_setting(&mut self, key: String, value: String)
        requires
            old(self).wf(),
        ensures
            final(self).wf(),
            final(self)@ == old(self)@.insert(key@, value@),
    {
        self.delete_setting(key.as_str());
        let ghost before = self.entries@;
        proof {
            lemma_pairs_map_no_match_from_map(before, key@, self@);
        }
        self.entries.push((key, value));
        proof {
            assert(self.entries@.drop_last() =~= before);
            assert(self@ =~= old(self)@.insert(self.entries@.last().0@, self.entries@.last().1@));
        }
    }

    /// A read-only view of all stored pairs, for the persistence layer:
    /// each pair is in the map, and each key of the map is some pair's.
    pub fn all_entries(&self) -> (r: &Vec<(String, String)>)
        requires
            self.wf(),
        ensures
            forall|i: int|
                0 <= i < r@.len() ==> self@.contains_key((#[trigger] r@[i]).0@) && self@[r@[i].0@]
                    == r@[i].1@,
            forall|k: Seq<char>|
                self@.contains_key(k) ==> exists|i: int|
                    0 <= i < r@.len() && (#[trigger] r@[i]).0@ == k,
    {
        proof {
            assert forall|i: int| 0 <= i < self.entries@.len() implies self@.contains_key(
                (#[trigger] self.entries@[i]).0@,
            ) && self@[self.entries@[i].0@] == self.entries@[i].1@ by {
                lemma_pairs_map_match(self.entries@, i);
            }
            assert forall|k: Seq<char>| self@.contains_key(k) implies exists|i: int|
                0 <= i < self.entries@.len() && (#[trigger] self.entries@[i]).0@ == k by {
                lemma_pairs_map_key_has_entry(self.entries@, k);
            }
        }
        &self.entries
    }

    /// Build a store from loaded pairs, later pairs overriding earlier
    /// ones, exactly as storing them one by one would.
    pub fn from_pairs(pairs: &Vec<(String, String)>) -> (r: SettingsStore)
        ensures
            r.wf(),
            r@ == pairs_map(pairs@),
    {
        let mut store = SettingsStore::new();
        let mut i: usize = 0;
        while i < pairs.len()
            invariant
                store.wf(),
                i <= pairs@.len(),
                store@ == pairs_map(pairs@.take(i as int)),
            decreases pairs@.len() - i,
        {
            let p = &pairs[i];
            let key = p.0.clone();
            let value = p.1.clone();
            proof {
                assert(pairs@.take(i as int + 1).drop_last() =~= pairs@.take(i as int));
                assert(pairs@.take(i as int + 1).last() == pairs@[i as int]);
            }
            store.set_setting(key, value);
            i += 1;
        }
        proof {
            assert(pairs@.take(pairs@.len() as int) =~= pairs@);
        }
        store
    }
}

/// What a key's absence from the map says of the entries: no entry holds
/// it.
proof fn lemma_pairs_map_no_match_from_map(
    entries: Seq<(String, String)>,
    key: Seq<char>,
    m: Map<Seq<char>, Seq<char>>,
)
    requires
        m == pairs_map(entries),
        !m.contains_key(key),
    ensures
        forall|i: int| 0 <= i < entries.len() ==> (#[trigger] entries[i]).0@ != key,
{
    assert forall|i: int| 0 <= i < entries.len() implies (#[trigger] entries[i]).0@ != key by {
        if entries[i].0@ == key {
            lemma_pairs_map_key_gives_contains(entries, i);
        }
    }
}

/// The entry holding a key puts that key in the denoted map.
proof fn lemma_pairs_map_key_gives_contains(entries: Seq<(String, String)>, i: int)
    requires
        0 <= i < entries.len(),
    ensures
        pairs_map(entries).contains_key(entries[i].0@),
    decreases entries.len(),
{
    if i < entries.len() - 1 {
        lemma_pairs_map_key_gives_contains(entries.drop_last(), i);
        assert(entries.drop_last()[i] == entries[i]);
    }
}

} // verus!
