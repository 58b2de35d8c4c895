//! The dependency section of a manifest: a map from names to versions that
//! keeps its entries in the order in which their names first came.

use vstd::prelude::*;
use vstd::string::*;

verus! {

/// Whether no two of `entries` have the same name.
pub open spec fn names_differ(entries: Seq<(String, String)>) -> bool {
    forall|i: int, j: int| 0 <= i < j < entries.len() ==> entries[i].0@ != entries[j].0@
}

/// Whether one of `entries` has the name `name`.
pub open spec fn has_name(entries: Seq<(String, String)>, name: Seq<char>) -> bool {
    exists|i: int| 0 <= i < entries.len() && (#[trigger] entries[i]).0@ == name
}

/// The place of an entry called `name` among `entries`.
pub open spec fn place_of(entries: Seq<(String, String)>, name: Seq<char>) -> int {
    choose|i: int| 0 <= i < entries.len() && (#[trigger] entries[i]).0@ == name
}

/// The map that sends the name of each of `entries` to its version.
pub open spec fn entries_map(entries: Seq<(String, String)>) -> Map<Seq<char>, Seq<char>> {
    Map::new(
        |name: Seq<char>| has_name(entries, name),
        |name: Seq<char>| entries[place_of(entries, name)].1@,
    )
}

/// Among entries with different names, each name is mapped to the version
/// that stands beside it.
pub proof fn entries_map_at(entries: Seq<(String, String)>, i: int)
    requires
        names_differ(entries),
        0 <= i < entries.len(),
    ensures
        entries_map(entries).dom().contains(entries[i].0@),
        entries_map(entries)[entries[i].0@] == entries[i].1@,
        place_of(entries, entries[i].0@) == i,
{
    let name = entries[i].0@;
    assert(has_name(entries, name));
    let at = place_of(entries, name);
    if at < i {
        assert(entries[at].0@ != entries[i].0@);
    } else if i < at {
        assert(entries[i].0@ != entries[at].0@);
    }
}

proof fn entries_map_push(entries: Seq<(String, String)>, entry: (String, String))
    requires
        names_differ(entries),
        !has_name(entries, entry.0@),
    ensures
        names_differ(entries.push(entry)),
        entries_map(entries.push(entry)) == entries_map(entries).insert(entry.0@, entry.1@),
{
    let longer = entries.push(entry);
    assert forall|i: int, j: int| 0 <= i < j < longer.len() implies longer[i].0@
        != longer[j].0@ by {
        if j == entries.len() {
            assert(entries[i].0@ != entry.0@);
        }
    }
    same_map_after(entries, longer, entries.len() as int);
}

proof fn entries_map_update(entries: Seq<(String, String)>, at: int, entry: (String, String))
    requires
        names_differ(entries),
        0 <= at < entries.len(),
        entries[at].0@ == entry.0@,
    ensures
        names_differ(entries.update(at, entry)),
        entries_map(entries.update(at, entry)) == entries_map(entries).insert(entry.0@, entry.1@),
{
    same_map_after(entries, entries.update(at, entry), at);
}

/// `after` is `before` with the entry at `at` replaced or, where `at` is the
/// length of `before`, added.
proof fn same_map_after(before: Seq<(String, String)>, after: Seq<(String, String)>, at: int)
    requires
        names_differ(before),
        names_differ(after),
        0 <= at < after.len(),
        before.len() <= after.len() <= before.len() + 1,
        at == before.len() || after.len() == before.len(),
        forall|i: int| 0 <= i < before.len() && i != at ==> before[i] == after[i],
        at < before.len() ==> before[at].0@ == after[at].0@,
    ensures
        entries_map(after) == entries_map(before).insert(after[at].0@, after[at].1@),
{
    let target = entries_map(before).insert(after[at].0@, after[at].1@);
    assert forall|name: Seq<char>| entries_map(after).dom().contains(name)
        == target.dom().contains(name) by {
        if has_name(after, name) {
            let i = place_of(after, name);
            if i != at {
                assert(before[i].0@ == name);
            }
        }
        if has_name(before, name) {
            let i = place_of(before, name);
            assert(after[i].0@ == name);
        }
        if name == after[at].0@ {
            assert(after[at].0@ == name);
        }
    }
    assert forall|name: Seq<char>| entries_map(after).dom().contains(name) implies entries_map(
        after,
    )[name] == target[name] by {
        let i = place_of(after, name);
        entries_map_at(after, i);
        if i != at {
            assert(before[i].0@ == name);
            entries_map_at(before, i);
        }
    }
    assert(entries_map(after) =~= target);
}

/// The dependencies that a manifest declares, each name once.
#[derive(Debug, PartialEq, Eq)]
pub struct DependencyTable {
    entries: Vec<(String, String)>,
}

impl View for DependencyTable {
    type V = Map<Seq<char>, Seq<char>>;

    closed spec fn view(&self) -> Map<Seq<char>, Seq<char>> {
        entries_map(self.entries@)
    }
}

impl DependencyTable {
    #[verifier::type_invariant]
    spec fn each_name_once(self) -> bool {
        names_differ(self.entries@)
    }

    /// A table without entries.
    pub fn new() -> (table: DependencyTable)
        ensures
            table@ == Map::<Seq<char>, Seq<char>>::empty(),
    {
        let table = DependencyTable { entries: Vec::new() };
        assert(table@ =~= Map::<Seq<char>, Seq<char>>::empty());
        table
    }

    fn position(&self, name: &String) -> (at: Option<usize>)
        ensures
            match at {
                Some(i) => i < self.entries.len() && self.entries[i as int].0@ == name@,
                None => !has_name(self.entries@, name@),
            },
    {
        let mut i: usize = 0;
        while i < self.entries.len()
            invariant
                i <= self.entries.len(),
                forall|j: int| 0 <= j < i ==> (#[trigger] self.entries[j]).0@ != name@,
            decreases self.entries.len() - i,
        {
            if self.entries[i].0 == *name {
                return Some(i);
            }
            i += 1;
        }
        None
    }

    /// The table with `name` declared at `version`. A name declared before
    /// keeps its place and takes the new version.
    pub fn insert(self, name: String, version: String) -> (table: DependencyTable)
        ensures
            table@ == self@.insert(name@, version@),
    {
        proof {
            use_type_invariant(&self);
        }
        let found = self.position(&name);
        let mut entries = self.entries;
        let ghost before = entries@;
        match found {
            Some(at) => {
                proof {
                    entries_map_update(before, at as int, (name, version));
                }
                entries.set(at, (name, version));
            },
            None => {
                proof {
                    entries_map_push(before, (name, version));
                }
                entries.push((name, version));
            },
        }
        DependencyTable { entries }
    }

    /// The version at which `name` is declared, if it is.
    pub fn get(&self, name: &str) -> (version: Option<&String>)
        ensures
            match version {
                Some(v) => self@.dom().contains(name@) && self@[name@] == v@,
                None => !self@.dom().contains(name@),
            },
    {
        proof {
            use_type_invariant(self);
        }
        let key = String::from_str(name);
        match self.position(&key) {
            Some(at) => {
                proof {
                    entries_map_at(self.entries@, at as int);
                }
                Some(&self.entries[at].1)
            },
            None => None,
        }
    }

    /// The entries, each a name and its version, in the order in which the
    /// names were first declared.
    pub fn entries(&self) -> (entries: &Vec<(String, String)>)
        ensures
            names_differ(entries@),
            entries_map(entries@) == self@,
    {
        proof {
            use_type_invariant(self);
        }
        &self.entries
    }
}

} // verus!
