use vstd::prelude::*;

verus! {

/// The map that a list of (key, flag) entries denotes: a later entry for a
/// key replaces an earlier one.
pub open spec fn entries_map(entries: Seq<(String, bool)>) -> Map<Seq<char>, bool>
    decreases entries.len(),
{
    if entries.len() == 0 {
        Map::empty()
    } else {
        entries_map(entries.drop_last()).insert(entries.last().0@, entries.last().1)
    }
}

/// No key occurs twice among the entries.
pub open spec fn keys_distinct(entries: Seq<(String, bool)>) -> bool {
    forall|i: int, j: int|
        0 <= i < entries.len() && 0 <= j < entries.len() && i != j ==> #[trigger] entries[i].0@
            != #[trigger] entries[j].0@
}

/// A key belongs to the map exactly when some entry carries it.
pub proof fn lemma_entries_map_dom(entries: Seq<(String, bool)>, key: Seq<char>)
    ensures
        entries_map(entries).dom().contains(key) <==> exists|i: int|
            0 <= i < entries.len() && #[trigger] entries[i].0@ == key,
    decreases entries.len(),
{
    if entries.len() > 0 {
        let prefix = entries.drop_last();
        lemma_entries_map_dom(prefix, key);
        if entries_map(entries).dom().contains(key) && key != entries.last().0@ {
            let i = choose|i: int| 0 <= i < prefix.len() && #[trigger] prefix[i].0@ == key;
            assert(entries[i].0@ == key);
        }
        if exists|i: int| 0 <= i < entries.len() && #[trigger] entries[i].0@ == key {
            let i = choose|i: int| 0 <= i < entries.len() && #[trigger] entries[i].0@ == key;
            if i < entries.len() - 1 {
                assert(prefix[i].0@ == key);
            }
        }
    }
}

/// With distinct keys, the map sends each entry's key to that entry's flag.
pub proof fn lemma_entries_map_value(entries: Seq<(String, bool)>, i: int)
    requires
        keys_distinct(entries),
        0 <= i < entries.len(),
    ensures
        entries_map(entries).dom().contains(entries[i].0@),
        entries_map(entries)[entries[i].0@] == entries[i].1,
    decreases entries.len(),
{
    let prefix = entries.drop_last();
    if i < entries.len() - 1 {
        assert(keys_distinct(prefix)) by {
            assert forall|a: int, b: int|
                0 <= a < prefix.len() && 0 <= b < prefix.len() && a != b implies #[trigger] prefix[a].0@
                != #[trigger] prefix[b].0@ by {
                assert(prefix[a] == entries[a] && prefix[b] == entries[b]);
            }
        }
        lemma_entries_map_value(prefix, i);
        assert(prefix[i] == entries[i]);
        assert(entries[i].0@ != entries[entries.len() - 1].0@);
    }
}

/// The on/off switches of the items a panel shows, keyed by item name.
///
/// The entries never hold a key twice, so they denote a map (`view`).
pub struct ContentFlags {
    entries: Vec<(String, bool)>,
}

impl View for ContentFlags {
    type V = Map<Seq<char>, bool>;

    closed spec fn view(&self) -> Map<Seq<char>, bool> {
        entries_map(self.entries@)
    }
}

impl ContentFlags {
    #[verifier::type_invariant]
    spec fn distinct(&self) -> bool {
        keys_distinct(self.entries@)
    }

    /// The entries, in the order in which their keys were first inserted.
    pub closed spec fn entry_seq(&self) -> Seq<(String, bool)> {
        self.entries@
    }

    /// No switches at all.
    pub fn new() -> (flags: Self)
        ensures
            flags@ == Map::<Seq<char>, bool>::empty(),
    {
        ContentFlags { entries: Vec::new() }
    }

    /// Sets the switch of `key` to `value`, replacing any earlier setting.
    pub fn insert(&mut self, key: String, value: bool)
        ensures
            final(self)@ == old(self)@.insert(key@, value),
    {
        proof {
            use_type_invariant(&*self);
        }
        let mut entries: Vec<(String, bool)> = Vec::new();
        std::mem::swap(&mut entries, &mut self.entries);
        let ghost before = entries@;
        let mut i: usize = 0;
        let mut found: bool = false;
        while i < entries.len()
            invariant_except_break
                !found,
                entries@ == before,
                keys_distinct(before),
                0 <= i <= before.len(),
                forall|j: int| 0 <= j < i ==> #[trigger] before[j].0@ != key@,
            ensures
                entries@ == before,
                keys_distinct(before),
                found ==> i < before.len() && before[i as int].0@ == key@,
                !found ==> forall|j: int| 0 <= j < before.len() ==> #[trigger] before[j].0@ != key@,
            decreases before.len() - i,
        {
            if entries[i].0 == key {
                found = true;
                break;
            }
            i = i + 1;
        }
        if found {
            let ghost k = key@;
            let ghost replacement = (key, value);
            entries.set(i, (key, value));
            proof {
                let after = entries@;
                assert(after == before.update(i as int, replacement));
                assert(after[i as int].0@ == k);
                assert(keys_distinct(after)) by {
                    assert forall|a: int, b: int|
                        0 <= a < after.len() && 0 <= b < after.len() && a != b implies #[trigger] after[a].0@
                        != #[trigger] after[b].0@ by {
                        if a != i && b != i {
                            assert(after[a] == before[a] && after[b] == before[b]);
                        } else if a == i {
                            assert(after[b] == before[b]);
                        } else {
                            assert(after[a] == before[a]);
                        }
                    }
                }
                assert forall|q: Seq<char>|
                    #[trigger] entries_map(after).dom().contains(q)
                        == entries_map(before).insert(k, value).dom().contains(q) by {
                    lemma_entries_map_dom(after, q);
                    lemma_entries_map_dom(before, q);
                    if q == k {
                        assert(after[i as int].0@ == q);
                    }
                    if exists|j: int| 0 <= j < before.len() && #[trigger] before[j].0@ == q {
                        let j = choose|j: int| 0 <= j < before.len() && #[trigger] before[j].0@ == q;
                        if j != i {
                            assert(after[j] == before[j]);
                        }
                    }
                    if exists|j: int| 0 <= j < after.len() && #[trigger] after[j].0@ == q {
                        let j = choose|j: int| 0 <= j < after.len() && #[trigger] after[j].0@ == q;
                        if j != i {
                            assert(after[j] == before[j]);
                        }
                    }
                }
                assert forall|q: Seq<char>| #[trigger]
                    entries_map(after).dom().contains(q) implies entries_map(after)[q]
                    == entries_map(before).insert(k, value)[q] by {
                    lemma_entries_map_dom(after, q);
                    let j = choose|j: int| 0 <= j < after.len() && #[trigger] after[j].0@ == q;
                    lemma_entries_map_value(after, j);
                    if j != i {
                        assert(after[j] == before[j]);
                        lemma_entries_map_value(before, j);
                    }
                }
                assert(entries_map(after) =~= entries_map(before).insert(k, value));
            }
        } else {
            let ghost k = key@;
            entries.push((key, value));
            proof {
                let after = entries@;
                assert(after.drop_last() =~= before);
                assert(keys_distinct(after)) by {
                    assert forall|a: int, b: int|
                        0 <= a < after.len() && 0 <= b < after.len() && a != b implies #[trigger] after[a].0@
                        != #[trigger] after[b].0@ by {
                        if a < before.len() {
                            assert(after[a] == before[a]);
                        }
                        if b < before.len() {
                            assert(after[b] == before[b]);
                        }
                    }
                }
            }
        }
        self.entries = entries;
    }

    /// The switch of `key`, if it has one.
    pub fn get(&self, key: &String) -> (value: Option<bool>)
        ensures
            value == (if self@.dom().contains(key@) {
                Some(self@[key@])
            } else {
                None
            }),
    {
        proof {
            use_type_invariant(self);
        }
        let mut i: usize = 0;
        while i < self.entries.len()
            invariant
                keys_distinct(self.entries@),
                0 <= i <= self.entries@.len(),
                forall|j: int| 0 <= j < i ==> #[trigger] self.entries@[j].0@ != key@,
            decreases self.entries@.len() - i,
        {
            if self.entries[i].0 == *key {
                proof {
                    lemma_entries_map_value(self.entries@, i as int);
                }
                return Some(self.entries[i].1);
            }
            i = i + 1;
        }
        proof {
            lemma_entries_map_dom(self.entries@, key@);
        }
        None
    }

    /// The entries, each key once; they denote this map.
    pub fn entries(&self) -> (entries: &Vec<(String, bool)>)
        ensures
            entries@ == self.entry_seq(),
            keys_distinct(entries@),
            entries_map(entries@) == self@,
    {
        proof {
            use_type_invariant(self);
        }
        &self.entries
    }
}

/// Reading a switch gives back what was last written to it, and writing one
/// switch leaves the others as they were.
pub proof fn lemma_read_after_write(flags: Map<Seq<char>, bool>, key: Seq<char>, value: bool, other: Seq<char>)
    requires
        other != key,
    ensures
        flags.insert(key, value).dom().contains(key),
        flags.insert(key, value)[key] == value,
        flags.insert(key, value).dom().contains(other) == flags.dom().contains(other),
        flags.dom().contains(other) ==> flags.insert(key, value)[other] == flags[other],
{
}

} // verus!
