//! A table from names to values, the shape of both the texture dictionary and
//! the dispatch table.
use vstd::prelude::*;

verus! {

/// One entry of a table.
#[derive(Clone, Debug)]
pub struct Entry<V> {
    pub name: String,
    pub value: V,
}

/// What a list of entries says, read front to back: a later entry for a name
/// replaces an earlier one.
pub open spec fn entries_map<V>(entries: Seq<Entry<V>>) -> Map<Seq<char>, V>
    decreases entries.len(),
{
    if entries.len() == 0 {
        Map::empty()
    } else {
        entries_map(entries.drop_last()).insert(entries.last().name@, entries.last().value)
    }
}

/// The entries from `from` on do not mention `name`, so they do not change
/// what the table says of it.
proof fn lemma_entries_map_ignores_tail<V>(entries: Seq<Entry<V>>, from: int, name: Seq<char>)
    requires
        0 <= from <= entries.len(),
        forall|j: int| from <= j < entries.len() ==> (#[trigger] entries[j]).name@ != name,
    ensures
        entries_map(entries).contains_key(name) == entries_map(entries.take(from)).contains_key(
            name,
        ),
        entries_map(entries).contains_key(name) ==> entries_map(entries)[name] == entries_map(
            entries.take(from),
        )[name],
    decreases entries.len() - from,
{
    if from == entries.len() {
        assert(entries.take(from) =~= entries);
    } else {
        let shorter = entries.drop_last();
        assert(shorter.take(from) =~= entries.take(from));
        lemma_entries_map_ignores_tail(shorter, from, name);
    }
}

/// A table from names to values.
#[derive(Clone, Debug)]
pub struct NameTable<V> {
    entries: Vec<Entry<V>>,
}

impl<V> View for NameTable<V> {
    type V = Map<Seq<char>, V>;

    closed spec fn view(&self) -> Map<Seq<char>, V> {
        entries_map(self.entries@)
    }
}

impl<V: Copy> NameTable<V> {
    /// A table without entries.
    pub fn new() -> (table: NameTable<V>)
        ensures
            table@ == Map::<Seq<char>, V>::empty(),
    {
        NameTable { entries: Vec::new() }
    }

    /// Files `value` under `name`, in place of what was filed under it.
    pub fn insert(&mut self, name: String, value: V)
        ensures
            final(self)@ == old(self)@.insert(name@, value),
    {
        self.entries.push(Entry { name, value });
        assert(self.entries@.drop_last() =~= old(self).entries@);
    }

    /// The value filed under `name`, if there is one.
    pub fn get(&self, name: &str) -> (found: Option<V>)
        ensures
            found == if self@.contains_key(name@) {
                Some(self@[name@])
            } else {
                None
            },
    {
        let wanted = name.to_owned();
        let mut i: usize = self.entries.len();
        while i > 0
            invariant
                i <= self.entries.len(),
                wanted@ == name@,
                forall|j: int|
                    i <= j < self.entries.len() ==> (#[trigger] self.entries@[j]).name@ != name@,
            decreases i,
        {
            i = i - 1;
            if self.entries[i].name == wanted {
                proof {
                    lemma_entries_map_ignores_tail(self.entries@, i + 1, name@);
                    assert(self.entries@.take(i + 1).drop_last() =~= self.entries@.take(i as int));
                }
                return Some(self.entries[i].value);
            }
        }
        proof {
            lemma_entries_map_ignores_tail(self.entries@, 0, name@);
            assert(self.entries@.take(0).len() == 0);
        }
        None
    }
}

} // verus!
