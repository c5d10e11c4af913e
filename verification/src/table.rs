//! The result vectors of a simulation, kept by name.

use crate::text::same_text;
use crate::vector::{InfoModel, VectorInfo};
use vstd::prelude::*;

verus! {

/// The map that a list of named vectors stands for: a later entry of a name
/// replaces an earlier one.
pub open spec fn table_of(entries: Seq<(String, VectorInfo)>) -> Map<Seq<char>, InfoModel>
    decreases entries.len(),
{
    if entries.len() == 0 {
        Map::empty()
    } else {
        table_of(entries.drop_last()).insert(entries.last().0@, entries.last().1@)
    }
}

/// No two entries carry the same name.
pub open spec fn distinct_names(entries: Seq<(String, VectorInfo)>) -> bool {
    forall|i: int, j: int| 0 <= i < j < entries.len() ==> entries[i].0@ != entries[j].0@
}

/// A name is in the map exactly when some entry carries it, and the map is finite.
pub proof fn lemma_table_dom(entries: Seq<(String, VectorInfo)>)
    ensures
        table_of(entries).dom().finite(),
        forall|name: Seq<char>| #[trigger]
            table_of(entries).contains_key(name) <==> exists|i: int|
                0 <= i < entries.len() && #[trigger] entries[i].0@ == name,
    decreases entries.len(),
{
    if entries.len() > 0 {
        let front = entries.drop_last();
        lemma_table_dom(front);
        assert forall|name: Seq<char>| #[trigger]
            table_of(entries).contains_key(name) implies exists|i: int|
            0 <= i < entries.len() && #[trigger] entries[i].0@ == name by {
            if name == entries.last().0@ {
                assert(entries[entries.len() - 1].0@ == name);
            } else {
                assert(table_of(front).contains_key(name));
                let i = choose|i: int| 0 <= i < front.len() && #[trigger] front[i].0@ == name;
                assert(entries[i].0@ == name);
            }
        }
        assert forall|name: Seq<char>|
            (exists|i: int|
                0 <= i < entries.len() && #[trigger] entries[i].0@
                    == name) implies #[trigger] table_of(entries).contains_key(name) by {
            let i = choose|i: int| 0 <= i < entries.len() && #[trigger] entries[i].0@ == name;
            if i < entries.len() - 1 {
                assert(front[i].0@ == name);
            }
        }
    }
}

/// Where the names are distinct, each entry is what the map holds under its name.
pub proof fn lemma_table_lookup(entries: Seq<(String, VectorInfo)>, i: int)
    requires
        distinct_names(entries),
        0 <= i < entries.len(),
    ensures
        table_of(entries).contains_key(entries[i].0@),
        table_of(entries)[entries[i].0@] == entries[i].1@,
    decreases entries.len(),
{
    if i < entries.len() - 1 {
        let front = entries.drop_last();
        assert(front[i] == entries[i]);
        lemma_table_lookup(front, i);
    }
}

/// Where the names are distinct, the map has as many names as there are entries.
pub proof fn lemma_table_len(entries: Seq<(String, VectorInfo)>)
    requires
        distinct_names(entries),
    ensures
        table_of(entries).dom().finite(),
        table_of(entries).len() == entries.len(),
    decreases entries.len(),
{
    lemma_table_dom(entries);
    if entries.len() > 0 {
        let front = entries.drop_last();
        lemma_table_len(front);
        lemma_table_dom(front);
        if table_of(front).contains_key(entries.last().0@) {
            let i = choose|i: int|
                0 <= i < front.len() && #[trigger] front[i].0@ == entries.last().0@;
            assert(entries[i].0@ == entries[entries.len() - 1].0@);
        }
    }
}

/// Where the names are distinct, putting a new vector in an entry's place
/// is an insertion under that entry's name.
pub proof fn lemma_table_replace(
    entries: Seq<(String, VectorInfo)>,
    i: int,
    entry: (String, VectorInfo),
)
    requires
        distinct_names(entries),
        0 <= i < entries.len(),
        entry.0@ == entries[i].0@,
    ensures
        distinct_names(entries.update(i, entry)),
        table_of(entries.update(i, entry)) == table_of(entries).insert(entry.0@, entry.1@),
    decreases entries.len(),
{
    let after = entries.update(i, entry);
    let front = entries.drop_last();
    if i == entries.len() - 1 {
        assert(after.drop_last() == front);
        assert(table_of(after) =~= table_of(entries).insert(entry.0@, entry.1@));
    } else {
        assert(front[i] == entries[i]);
        lemma_table_replace(front, i, entry);
        assert(after.drop_last() == front.update(i, entry));
        assert(after.last() == entries.last());
        assert(entries[i].0@ != entries[entries.len() - 1].0@);
        assert(table_of(after) =~= table_of(entries).insert(entry.0@, entry.1@));
    }
}

/// The vectors of one simulation by name. A name occurs once.
#[derive(Debug)]
pub struct VectorTable {
    entries: Vec<(String, VectorInfo)>,
}

impl View for VectorTable {
    type V = Map<Seq<char>, InfoModel>;

    closed spec fn view(&self) -> Map<Seq<char>, InfoModel> {
        table_of(self.entries@)
    }
}

impl VectorTable {
    #[verifier::type_invariant]
    spec fn well_formed(&self) -> bool {
        distinct_names(self.entries@)
    }

    /// A table without vectors.
    pub fn new() -> (table: VectorTable)
        ensures
            table@ == Map::<Seq<char>, InfoModel>::empty(),
    {
        VectorTable { entries: Vec::new() }
    }

    /// The number of vectors.
    pub fn len(&self) -> (n: usize)
        ensures
            self@.dom().finite(),
            n == self@.len(),
    {
        proof {
            use_type_invariant(self);
            lemma_table_len(self.entries@);
        }
        self.entries.len()
    }

    /// Tells whether the table holds no vector.
    pub fn is_empty(&self) -> (empty: bool)
        ensures
            empty == (self@ == Map::<Seq<char>, InfoModel>::empty()),
    {
        proof {
            use_type_invariant(self);
            lemma_table_len(self.entries@);
            if self.entries@.len() == 0 {
                assert(self@ == Map::<Seq<char>, InfoModel>::empty());
            } else {
                assert(self@.len() != 0);
                assert(Map::<Seq<char>, InfoModel>::empty().len() == 0);
            }
        }
        self.entries.len() == 0
    }

    /// Where the vector of this name stands among the entries, if there is one.
    fn position(&self, name: &str) -> (found: Option<usize>)
        ensures
            match found {
                Some(i) => i < self.entries@.len() && self.entries@[i as int].0@ == name@,
                None => !self@.contains_key(name@),
            },
    {
        let mut i: usize = 0;
        while i < self.entries.len()
            invariant
                i <= self.entries@.len(),
                forall|j: int| 0 <= j < i ==> self.entries@[j].0@ != name@,
            decreases self.entries@.len() - i,
        {
            if same_text(self.entries[i].0.as_str(), name) {
                return Some(i);
            }
            i += 1;
        }
        proof {
            lemma_table_dom(self.entries@);
        }
        None
    }

    /// Tells whether the table holds a vector of this name.
    pub fn contains_key(&self, name: &str) -> (present: bool)
        ensures
            present == self@.contains_key(name@),
    {
        proof {
            use_type_invariant(self);
        }
        match self.position(name) {
            Some(i) => {
                proof {
                    lemma_table_lookup(self.entries@, i as int);
                }
                true
            },
            None => false,
        }
    }

    /// The vector of this name, if the table holds one.
    pub fn get(&self, name: &str) -> (found: Option<&VectorInfo>)
        ensures
            match found {
                Some(info) => self@.contains_key(name@) && info@ == self@[name@],
                None => !self@.contains_key(name@),
            },
    {
        proof {
            use_type_invariant(self);
        }
        match self.position(name) {
            Some(i) => {
                proof {
                    lemma_table_lookup(self.entries@, i as int);
                }
                Some(&self.entries[i].1)
            },
            None => None,
        }
    }

    /// Puts a vector under a name, in place of the one that the name had.
    pub fn insert(&mut self, name: String, info: VectorInfo)
        ensures
            final(self)@ == old(self)@.insert(name@, info@),
    {
        proof {
            use_type_invariant(&*self);
        }
        let found = self.position(name.as_str());
        let mut entries: Vec<(String, VectorInfo)> = Vec::new();
        core::mem::swap(&mut self.entries, &mut entries);
        match found {
            Some(i) => {
                proof {
                    lemma_table_replace(entries@, i as int, (name, info));
                }
                entries.set(i, (name, info));
            },
            None => {
                proof {
                    lemma_table_dom(entries@);
                }
                entries.push((name, info));
                assert(entries@.drop_last() == old(self).entries@);
            },
        }
        self.entries = entries;
    }

    /// The names of all vectors, each once.
    pub fn names(&self) -> (names: Vec<String>)
        ensures
            names@.len() == self@.len(),
            forall|i: int| 0 <= i < names@.len() ==> self@.contains_key(#[trigger] names@[i]@),
            forall|i: int, j: int| 0 <= i < j < names@.len() ==> names@[i]@ != names@[j]@,
            forall|name: Seq<char>|
                self@.contains_key(name) ==> exists|i: int|
                    0 <= i < names@.len() && #[trigger] names@[i]@ == name,
    {
        proof {
            use_type_invariant(self);
            lemma_table_len(self.entries@);
            lemma_table_dom(self.entries@);
        }
        let mut names: Vec<String> = Vec::new();
        let mut i: usize = 0;
        while i < self.entries.len()
            invariant
                i <= self.entries@.len(),
                names@.len() == i,
                forall|j: int| 0 <= j < i ==> (#[trigger] names@[j])@ == self.entries@[j].0@,
            decreases self.entries@.len() - i,
        {
            names.push(self.entries[i].0.clone());
            i += 1;
        }
        assert forall|name: Seq<char>| self@.contains_key(name) implies exists|i: int|
            0 <= i < names@.len() && #[trigger] names@[i]@ == name by {
            let k = choose|k: int| 0 <= k < self.entries@.len() && #[trigger] self.entries@[k].0@ == name;
            assert(names@[k]@ == name);
        }
        names
    }

    /// Hands the vectors out, each with its name.
    pub fn into_entries(self) -> (entries: Vec<(String, VectorInfo)>)
        ensures
            distinct_names(entries@),
            table_of(entries@) == self@,
    {
        proof {
            use_type_invariant(&self);
        }
        self.entries
    }
}

} // verus!
