//! The in-memory execution record: captured output keyed by test id,
//! built during the execution phase and read during comparison. A repeated
//! id overwrites the earlier entry (last write wins).

use vstd::prelude::*;

verus! {

/// Captured textual output per test id, for one run.
pub struct Record {
    entries: Vec<(String, String)>,
}

/// The views of the entries, in insertion order.
pub open spec fn entry_views(entries: Seq<(String, String)>) -> Seq<(Seq<char>, Seq<char>)> {
    entries.map_values(|e: (String, String)| (e.0@, e.1@))
}

/// The map an entry list denotes, later entries overwriting earlier ones.
pub open spec fn map_of(entries: Seq<(Seq<char>, Seq<char>)>) -> Map<Seq<char>, Seq<char>>
    decreases entries.len(),
{
    if entries.len() == 0 {
        Map::empty()
    } else {
        map_of(entries.drop_last()).insert(entries.last().0, entries.last().1)
    }
}

/// A key held by no entry is outside the denoted map's domain.
proof fn lemma_map_of_absent(entries: Seq<(Seq<char>, Seq<char>)>, key: Seq<char>)
    requires
        forall|j: int| 0 <= j < entries.len() ==> (#[trigger] entries[j]).0 != key,
    ensures
        !map_of(entries).dom().contains(key),
    decreases entries.len(),
{
    if entries.len() > 0 {
        lemma_map_of_absent(entries.drop_last(), key);
    }
}

/// The denoted map sends a key to the value of its last entry with that key.
proof fn lemma_map_of_found(entries: Seq<(Seq<char>, Seq<char>)>, key: Seq<char>, i: int)
    requires
        0 <= i < entries.len(),
        entries[i].0 == key,
        forall|j: int| i < j < entries.len() ==> (#[trigger] entries[j]).0 != key,
    ensures
        map_of(entries).dom().contains(key),
        map_of(entries)[key] == entries[i].1,
    decreases entries.len(),
{
    if i == entries.len() - 1 {
    } else {
        lemma_map_of_found(entries.drop_last(), key, i);
    }
}

impl View for Record {
    type V = Map<Seq<char>, Seq<char>>;

    closed spec fn view(&self) -> Map<Seq<char>, Seq<char>> {
        map_of(entry_views(self.entries@))
    }
}

impl Record {
    /// An empty record: no test has been executed yet.
    pub fn new() -> (r: Record)
        ensures
            r@ == Map::<Seq<char>, Seq<char>>::empty(),
    {
        Record { entries: Vec::new() }
    }

    /// Record the captured output for a test id, overwriting any output an
    /// earlier test of the same id left behind.
    pub fn insert(&mut self, id: String, output: String)
        ensures
            final(self)@ == old(self)@.insert(id@, output@),
    {
        let ghost before = entry_views(self.entries@);
        self.entries.push((id, output));
        proof {
            let after = entry_views(self.entries@);
            assert(after =~= before.push((id@, output@)));
            assert(after.drop_last() =~= before);
        }
    }

    /// Look up the captured output for a test id; `None` when the id has
    /// no entry — the internal-consistency failure of a comparison.
    pub fn get<'a>(&'a self, id: &String) -> (r: Option<&'a String>)
        ensures
            match r {
                Some(output) => self@.dom().contains(id@) && output@ == self@[id@],
                None => !self@.dom().contains(id@),
            },
    {
        let mut i: usize = self.entries.len();
        while i > 0
            invariant
                i <= self.entries.len(),
                forall|j: int| i <= j < self.entries@.len() ==> (#[trigger] self.entries@[j]).0@
                    != id@,
            decreases i,
        {
            i = i - 1;
            if self.entries[i].0 == *id {
                proof {
                    let views = entry_views(self.entries@);
                    assert(views[i as int].0 == id@);
                    assert(forall|j: int| i < j < views.len() ==> (#[trigger] views[j]).0 != id@);
                    lemma_map_of_found(views, id@, i as int);
                }
                return Some(&self.entries[i].1);
            }
        }
        proof {
            let views = entry_views(self.entries@);
            assert(forall|j: int| 0 <= j < views.len() ==> (#[trigger] views[j]).0 != id@);
            lemma_map_of_absent(views, id@);
        }
        None
    }
}

} // verus!
