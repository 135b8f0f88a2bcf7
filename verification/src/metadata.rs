//! The string-to-string map that travels with every event.
use vstd::prelude::*;

verus! {

/// Whether no key occurs at two places.
pub open spec fn distinct_keys(entries: Seq<(String, String)>) -> bool {
    forall|i: int, j: int|
        0 <= i < j < entries.len() ==> (#[trigger] entries[i]).0@ != (#[trigger] entries[j]).0@
}

/// Whether `key` occurs at place `i`.
pub open spec fn key_at(entries: Seq<(String, String)>, key: Seq<char>, i: int) -> bool {
    0 <= i < entries.len() && entries[i].0@ == key
}

/// The map that a list of entries with distinct keys stands for.
pub open spec fn entries_map(entries: Seq<(String, String)>) -> Map<Seq<char>, Seq<char>> {
    Map::new(
        |key: Seq<char>| exists|i: int| key_at(entries, key, i),
        |key: Seq<char>| entries[choose|i: int| key_at(entries, key, i)].1@,
    )
}

/// A map from names to texts.
#[derive(Debug)]
pub struct Metadata {
    entries: Vec<(String, String)>,
}

impl View for Metadata {
    type V = Map<Seq<char>, Seq<char>>;

    closed spec fn view(&self) -> Map<Seq<char>, Seq<char>> {
        entries_map(self.entries@)
    }
}

impl Metadata {
    #[verifier::type_invariant]
    spec fn well_formed(self) -> bool {
        distinct_keys(self.entries@)
    }

    /// The empty map.
    pub fn new() -> (r: Metadata)
        ensures
            r@ == Map::<Seq<char>, Seq<char>>::empty(),
    {
        let r = Metadata { entries: Vec::new() };
        assert(r@ =~= Map::<Seq<char>, Seq<char>>::empty());
        r
    }

    /// The place of `key`, or the number of entries if it is not there.
    fn find(entries: &Vec<(String, String)>, key: &String) -> (r: usize)
        ensures
            r <= entries@.len(),
            r < entries@.len() ==> key_at(entries@, key@, r as int),
            r == entries@.len() ==> forall|i: int| !key_at(entries@, key@, i),
    {
        let mut i: usize = 0;
        while i < entries.len()
            invariant
                i <= entries@.len(),
                forall|j: int| 0 <= j < i ==> !key_at(entries@, key@, j),
            decreases entries@.len() - i,
        {
            if entries[i].0 == *key {
                return i;
            }
            i += 1;
        }
        i
    }

    /// What `key` is mapped to.
    pub fn get(&self, key: &str) -> (r: Option<&String>)
        ensures
            match r {
                Some(value) => self@.contains_key(key@) && value@ == self@[key@],
                None => !self@.contains_key(key@),
            },
    {
        proof {
            use_type_invariant(&*self);
        }
        let name = key.to_owned();
        let place: usize = Self::find(&self.entries, &name);
        if place < self.entries.len() {
            proof {
                lemma_lookup(self.entries@, place as int);
            }
            Some(&self.entries[place].1)
        } else {
            None
        }
    }

    /// Maps `key` to `value`, whatever it was mapped to before.
    pub fn insert(&mut self, key: String, value: String)
        ensures
            final(self)@ == old(self)@.insert(key@, value@),
    {
        proof {
            use_type_invariant(&*self);
        }
        let mut entries: Vec<(String, String)> = Vec::new();
        std::mem::swap(&mut entries, &mut self.entries);
        let ghost before = entries@;
        let place: usize = Self::find(&entries, &key);
        if place < entries.len() {
            entries.set(place, (key, value));
            proof {
                lemma_update(before, place as int, (key, value));
            }
        } else {
            entries.push((key, value));
            proof {
                lemma_push(before, (key, value));
            }
        }
        self.entries = entries;
    }

    /// Takes `key` out of the map, and gives what it was mapped to.
    pub fn remove(&mut self, key: &str) -> (r: Option<String>)
        ensures
            final(self)@ == old(self)@.remove(key@),
            match r {
                Some(value) => old(self)@.contains_key(key@) && value@ == old(self)@[key@],
                None => !old(self)@.contains_key(key@),
            },
    {
        proof {
            use_type_invariant(&*self);
        }
        let mut entries: Vec<(String, String)> = Vec::new();
        std::mem::swap(&mut entries, &mut self.entries);
        let ghost before = entries@;
        let name = key.to_owned();
        let place: usize = Self::find(&entries, &name);
        if place < entries.len() {
            let entry = entries.remove(place);
            proof {
                lemma_remove(before, place as int);
            }
            self.entries = entries;
            Some(entry.1)
        } else {
            assert(entries_map(before).remove(key@) =~= entries_map(before));
            self.entries = entries;
            None
        }
    }

    /// The entries of the map, each key once.
    pub fn into_entries(self) -> (r: Vec<(String, String)>)
        ensures
            distinct_keys(r@),
            entries_map(r@) == self@,
    {
        proof {
            use_type_invariant(&self);
        }
        self.entries
    }
}

/// With distinct keys, an entry's key is mapped to the entry's value.
proof fn lemma_lookup(entries: Seq<(String, String)>, i: int)
    requires
        distinct_keys(entries),
        0 <= i < entries.len(),
    ensures
        entries_map(entries).contains_key(entries[i].0@),
        entries_map(entries)[entries[i].0@] == entries[i].1@,
{
    let key = entries[i].0@;
    assert(key_at(entries, key, i));
    let j = choose|j: int| key_at(entries, key, j);
    assert(key_at(entries, key, j));
    assert(j == i);
}

/// A list with distinct keys stands for the map that holds each of its entries
/// and no other key.
proof fn lemma_stands_for(entries: Seq<(String, String)>, m: Map<Seq<char>, Seq<char>>)
    requires
        distinct_keys(entries),
        forall|i: int|
            0 <= i < entries.len() ==> m.contains_key((#[trigger] entries[i]).0@)
                && m[entries[i].0@] == entries[i].1@,
        forall|key: Seq<char>|
            #[trigger] m.contains_key(key) ==> exists|i: int| key_at(entries, key, i),
    ensures
        entries_map(entries) == m,
{
    assert forall|key: Seq<char>| #[trigger] entries_map(entries).contains_key(key) implies m[key]
        == entries_map(entries)[key] && m.contains_key(key) by {
        let i = choose|i: int| key_at(entries, key, i);
        assert(key_at(entries, key, i));
        assert(entries[i].0@ == key);
    }
    assert(entries_map(entries) =~= m);
}

proof fn lemma_push(entries: Seq<(String, String)>, entry: (String, String))
    requires
        distinct_keys(entries),
        forall|i: int| !key_at(entries, entry.0@, i),
    ensures
        distinct_keys(entries.push(entry)),
        entries_map(entries.push(entry)) == entries_map(entries).insert(entry.0@, entry.1@),
{
    let after = entries.push(entry);
    let m = entries_map(entries).insert(entry.0@, entry.1@);
    assert forall|i: int| 0 <= i < entries.len() implies (#[trigger] after[i]).0@ != entry.0@ by {
        assert(!key_at(entries, entry.0@, i));
    }
    assert forall|i: int| 0 <= i < after.len() implies m.contains_key((#[trigger] after[i]).0@)
        && m[after[i].0@] == after[i].1@ by {
        if i < entries.len() {
            lemma_lookup(entries, i);
        }
    }
    assert forall|key: Seq<char>| #[trigger] m.contains_key(key) implies exists|i: int|
        key_at(after, key, i) by {
        if key == entry.0@ {
            assert(key_at(after, key, entries.len() as int));
        } else {
            let i = choose|i: int| key_at(entries, key, i);
            assert(key_at(after, key, i));
        }
    }
    lemma_stands_for(after, m);
}

proof fn lemma_update(entries: Seq<(String, String)>, place: int, entry: (String, String))
    requires
        distinct_keys(entries),
        key_at(entries, entry.0@, place),
    ensures
        distinct_keys(entries.update(place, entry)),
        entries_map(entries.update(place, entry)) == entries_map(entries).insert(
            entry.0@,
            entry.1@,
        ),
{
    let after = entries.update(place, entry);
    let m = entries_map(entries).insert(entry.0@, entry.1@);
    assert forall|i: int| 0 <= i < after.len() implies (#[trigger] after[i]).0@
        == entries[i].0@ by {}
    assert forall|i: int| 0 <= i < after.len() implies m.contains_key((#[trigger] after[i]).0@)
        && m[after[i].0@] == after[i].1@ by {
        if i != place {
            lemma_lookup(entries, i);
        }
    }
    assert forall|key: Seq<char>| #[trigger] m.contains_key(key) implies exists|i: int|
        key_at(after, key, i) by {
        if key == entry.0@ {
            assert(key_at(after, key, place));
        } else {
            let i = choose|i: int| key_at(entries, key, i);
            assert(key_at(after, key, i));
        }
    }
    lemma_stands_for(after, m);
}

proof fn lemma_remove(entries: Seq<(String, String)>, place: int)
    requires
        distinct_keys(entries),
        0 <= place < entries.len(),
    ensures
        distinct_keys(entries.remove(place)),
        entries_map(entries.remove(place)) == entries_map(entries).remove(entries[place].0@),
        entries_map(entries).contains_key(entries[place].0@),
        entries_map(entries)[entries[place].0@] == entries[place].1@,
{
    let after = entries.remove(place);
    let m = entries_map(entries).remove(entries[place].0@);
    lemma_lookup(entries, place);
    assert forall|i: int| 0 <= i < after.len() implies m.contains_key((#[trigger] after[i]).0@)
        && m[after[i].0@] == after[i].1@ by {
        lemma_lookup(entries, if i < place { i } else { i + 1 });
    }
    assert forall|key: Seq<char>| #[trigger] m.contains_key(key) implies exists|i: int|
        key_at(after, key, i) by {
        let i = choose|i: int| key_at(entries, key, i);
        assert(key_at(entries, key, i));
        assert(key_at(after, key, if i < place { i } else { i - 1 }));
    }
    lemma_stands_for(after, m);
}

} // verus!
