//! A table from names to values, both text.
use vstd::prelude::*;
use crate::text::Entries;
use crate::text::str_eq;

verus! {

/// The map that a list of entries stands for: each entry overrides what the
/// entries before it say of the same name.
spec fn entries_map(entries: Seq<(Seq<char>, Seq<char>)>) -> Entries
    decreases entries.len(),
{
    if entries.len() == 0 {
        Map::empty()
    } else {
        entries_map(entries.drop_last()).insert(entries.last().0, entries.last().1)
    }
}

/// Entries from `from` on that do not mention `key` do not change what the
/// table says of `key`.
proof fn lemma_unmentioned_tail(entries: Seq<(Seq<char>, Seq<char>)>, from: int, key: Seq<char>)
    requires
        0 <= from <= entries.len(),
        forall|j: int| from <= j < entries.len() ==> entries[j].0 != key,
    ensures
        entries_map(entries).contains_key(key) == entries_map(entries.take(from)).contains_key(key),
        entries_map(entries).contains_key(key) ==> entries_map(entries)[key] == entries_map(
            entries.take(from),
        )[key],
    decreases entries.len() - from,
{
    if from == entries.len() {
        assert(entries.take(from) =~= entries);
    } else {
        let shorter = entries.drop_last();
        assert(shorter.take(from) =~= entries.take(from));
        lemma_unmentioned_tail(shorter, from, key);
    }
}

/// A table of named text values, such as the variables of an environment or
/// a list of aliases.
#[derive(Clone, Debug)]
pub struct Table {
    entries: Vec<(String, String)>,
}

impl View for Table {
    type V = Entries;

    closed spec fn view(&self) -> Entries {
        entries_map(self.entries@.map_values(|e: (String, String)| (e.0@, e.1@)))
    }
}

impl Table {
    /// The table without entries.
    pub fn new() -> (table: Table)
        ensures
            table@ == Entries::empty(),
    {
        Table { entries: Vec::new() }
    }

    /// Sets `key` to `value`, replacing what the table said of `key`.
    pub fn insert(&mut self, key: String, value: String)
        ensures
            final(self)@ == old(self)@.insert(key@, value@),
    {
        let ghost before = self.entries@.map_values(|e: (String, String)| (e.0@, e.1@));
        let ghost entry = (key@, value@);
        self.entries.push((key, value));
        proof {
            let after = self.entries@.map_values(|e: (String, String)| (e.0@, e.1@));
            assert(after.drop_last() =~= before);
            assert(after.last() == entry);
        }
    }

    /// The table with `key` set to `value`.
    pub fn with(self, key: &str, value: &str) -> (table: Table)
        ensures
            table@ == self@.insert(key@, value@),
    {
        let mut table = self;
        table.insert(key.to_owned(), value.to_owned());
        table
    }

    /// The value of `key`, if the table has one.
    pub fn get(&self, key: &str) -> (value: Option<&String>)
        ensures
            match value {
                Some(v) => self@.contains_key(key@) && self@[key@] == v@,
                None => !self@.contains_key(key@),
            },
    {
        let ghost entries = self.entries@.map_values(|e: (String, String)| (e.0@, e.1@));
        let mut i: usize = self.entries.len();
        while i > 0
            invariant
                i <= self.entries@.len(),
                entries == self.entries@.map_values(|e: (String, String)| (e.0@, e.1@)),
                forall|j: int| i <= j < entries.len() ==> entries[j].0 != key@,
            decreases i,
        {
            i -= 1;
            if str_eq(self.entries[i].0.as_str(), key) {
                proof {
                    lemma_unmentioned_tail(entries, i + 1, key@);
                    assert(entries.take(i + 1).drop_last() =~= entries.take(i as int));
                }
                return Some(&self.entries[i].1);
            }
        }
        proof {
            lemma_unmentioned_tail(entries, 0, key@);
        }
        None
    }
}

} // verus!
