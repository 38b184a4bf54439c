use vstd::prelude::*;

use crate::wrapper::Loader;

verus! {

// A mapping from names to values is kept as a list of entries in the order in
// which the names first came in, with no name twice. The list is what crosses
// the boundary, entry by entry; the functions below say what it means as a
// mapping.

/// No two entries of `entries` have the same name.
pub open spec fn distinct_names<X>(entries: Seq<(Seq<char>, X)>) -> bool {
    forall|i: int, j: int| 0 <= i < j < entries.len() ==> entries[i].0 != entries[j].0
}

/// Some entry of `entries` has the name `name`.
pub open spec fn has_name<X>(entries: Seq<(Seq<char>, X)>, name: Seq<char>) -> bool {
    exists|i: int| 0 <= i < entries.len() && #[trigger] entries[i].0 == name
}

/// The place of an entry named `name`, where `has_name` holds.
pub open spec fn place_of<X>(entries: Seq<(Seq<char>, X)>, name: Seq<char>) -> int {
    choose|i: int| 0 <= i < entries.len() && #[trigger] entries[i].0 == name
}

/// The value that `entries` gives to `name`, if it gives one.
pub open spec fn lookup<X>(entries: Seq<(Seq<char>, X)>, name: Seq<char>) -> Option<X> {
    if has_name(entries, name) {
        Some(entries[place_of(entries, name)].1)
    } else {
        None
    }
}

/// `entries` after `name` was given `value`: a known name keeps its place and
/// takes the new value, a new name goes to the end.
pub open spec fn put<X>(entries: Seq<(Seq<char>, X)>, name: Seq<char>, value: X) -> Seq<
    (Seq<char>, X),
> {
    if has_name(entries, name) {
        entries.update(place_of(entries, name), (name, value))
    } else {
        entries.push((name, value))
    }
}

/// Where names are distinct, the entry at place `i` is the one found under its name.
pub proof fn lemma_place_is_unique<X>(entries: Seq<(Seq<char>, X)>, i: int)
    requires
        distinct_names(entries),
        0 <= i < entries.len(),
    ensures
        has_name(entries, entries[i].0),
        place_of(entries, entries[i].0) == i,
        lookup(entries, entries[i].0) == Some(entries[i].1),
{
    let name = entries[i].0;
    assert(entries[i].0 == name);
    let p = place_of(entries, name);
    assert(0 <= p < entries.len() && entries[p].0 == name);
    if p < i {
        assert(entries[p].0 != entries[i].0);
    } else if i < p {
        assert(entries[i].0 != entries[p].0);
    }
}

/// Giving a name a value never makes a name occur twice.
pub proof fn lemma_put_keeps_names_distinct<X>(
    entries: Seq<(Seq<char>, X)>,
    name: Seq<char>,
    value: X,
)
    requires
        distinct_names(entries),
    ensures
        distinct_names(put(entries, name, value)),
{
    let after = put(entries, name, value);
    if has_name(entries, name) {
        let p = place_of(entries, name);
        assert(0 <= p < entries.len() && entries[p].0 == name);
        assert forall|i: int, j: int| 0 <= i < j < after.len() implies after[i].0 != after[j].0 by {
            assert(after[i].0 == entries[i].0);
            assert(after[j].0 == entries[j].0);
        }
    } else {
        assert forall|i: int, j: int| 0 <= i < j < after.len() implies after[i].0 != after[j].0 by {
            if j == entries.len() {
                assert(after[j].0 == name);
                assert(after[i].0 == entries[i].0);
            } else {
                assert(after[i].0 == entries[i].0);
                assert(after[j].0 == entries[j].0);
            }
        }
    }
}

/// Giving a name a value acts as on a mapping: that name then has the value,
/// and every other name has what it had.
pub proof fn lemma_lookup_after_put<X>(
    entries: Seq<(Seq<char>, X)>,
    name: Seq<char>,
    value: X,
    other: Seq<char>,
)
    requires
        distinct_names(entries),
    ensures
        lookup(put(entries, name, value), other) == if other == name {
            Some(value)
        } else {
            lookup(entries, other)
        },
{
    let after = put(entries, name, value);
    lemma_put_keeps_names_distinct(entries, name, value);
    let k = if has_name(entries, name) {
        place_of(entries, name)
    } else {
        entries.len() as int
    };
    if has_name(entries, name) {
        assert(0 <= k < entries.len() && entries[k].0 == name);
    }
    assert(0 <= k < after.len() && after[k] == (name, value));
    assert(forall|i: int| 0 <= i < entries.len() ==> #[trigger] after[i].0 == entries[i].0);
    if other == name {
        lemma_place_is_unique(after, k);
    } else if has_name(entries, other) {
        let p = place_of(entries, other);
        assert(0 <= p < entries.len() && entries[p].0 == other);
        assert(p != k);
        assert(after[p] == entries[p]);
        lemma_place_is_unique(after, p);
    } else {
        if has_name(after, other) {
            let q = place_of(after, other);
            assert(0 <= q < after.len() && after[q].0 == other);
            if q < entries.len() {
                assert(entries[q].0 == other);
            }
            assert(false);
        }
    }
}

/// The place of the entry of `entries` named `name`, if there is one.
fn find_name<V>(entries: &Vec<(String, V)>, name: &String) -> (found: Option<usize>)
    ensures
        match found {
            Some(i) => i < entries@.len() && entries@[i as int].0@ == name@,
            None => forall|i: int| 0 <= i < entries@.len() ==> entries@[i].0@ != name@,
        },
{
    let mut i: usize = 0;
    while i < entries.len()
        invariant
            i <= entries@.len(),
            forall|j: int| 0 <= j < i ==> entries@[j].0@ != name@,
        decreases entries@.len() - i,
    {
        if entries[i].0 == *name {
            return Some(i);
        }
        i += 1;
    }
    None
}

/// Texts by name: substitutions, banners, extension remaps.
#[derive(Debug)]
pub struct Defines {
    entries: Vec<(String, String)>,
}

impl View for Defines {
    type V = Seq<(Seq<char>, Seq<char>)>;

    closed spec fn view(&self) -> Seq<(Seq<char>, Seq<char>)> {
        Seq::new(self.entries@.len(), |i: int| (self.entries@[i].0@, self.entries@[i].1@))
    }
}

impl Clone for Defines {
    fn clone(&self) -> (copy: Defines)
        ensures
            copy@ == self@,
    {
        proof {
            use_type_invariant(self);
        }
        let mut entries: Vec<(String, String)> = Vec::new();
        let mut i: usize = 0;
        while i < self.entries.len()
            invariant
                i <= self.entries@.len(),
                entries@.len() == i,
                forall|j: int|
                    0 <= j < i ==> (#[trigger] entries@[j]).0@ == self.entries@[j].0@
                        && entries@[j].1@ == self.entries@[j].1@,
            decreases self.entries@.len() - i,
        {
            let entry = &self.entries[i];
            entries.push((entry.0.clone(), entry.1.clone()));
            i += 1;
        }
        assert(Seq::new(entries@.len(), |k: int| (entries@[k].0@, entries@[k].1@)) =~= self@);
        Defines { entries }
    }
}

impl Defines {
    #[verifier::type_invariant]
    spec fn names_occur_once(&self) -> bool {
        distinct_names(self@)
    }

    /// A mapping that names nothing.
    pub fn new() -> (made: Defines)
        ensures
            made@ == Seq::<(Seq<char>, Seq<char>)>::empty(),
    {
        Defines { entries: Vec::new() }
    }

    /// Gives `name` the text `value`, in place of the text it had, if it had one.
    pub fn add(&mut self, name: String, value: String)
        ensures
            final(self)@ == put(old(self)@, name@, value@),
            distinct_names(final(self)@),
    {
        proof {
            use_type_invariant(&*self);
            lemma_put_keeps_names_distinct(self@, name@, value@);
        }
        let ghost before = self@;
        let mut entries: Vec<(String, String)> = Vec::new();
        core::mem::swap(&mut entries, &mut self.entries);
        match find_name(&entries, &name) {
            Some(i) => {
                proof {
                    assert(before[i as int].0 == name@);
                    lemma_place_is_unique(before, i as int);
                }
                entries.set(i, (name, value));
            },
            None => {
                proof {
                    if has_name(before, name@) {
                        let p = place_of(before, name@);
                        assert(entries@[p].0@ == name@);
                    }
                }
                entries.push((name, value));
            },
        }
        assert(Seq::new(entries@.len(), |k: int| (entries@[k].0@, entries@[k].1@)) =~= put(
            before,
            name@,
            value@,
        ));
        self.entries = entries;
    }

    /// The number of names.
    pub fn len(&self) -> (n: usize)
        ensures
            n == self@.len(),
            distinct_names(self@),
    {
        proof {
            use_type_invariant(self);
        }
        self.entries.len()
    }

    /// The value given to `name`, if it was given one.
    pub fn get(&self, name: &String) -> (found: Option<&String>)
        ensures
            match found {
                Some(value) => lookup(self@, name@) == Some(value@),
                None => lookup(self@, name@) is None,
            },
    {
        proof {
            use_type_invariant(self);
        }
        match find_name(&self.entries, name) {
            Some(i) => {
                proof {
                    assert(self@[i as int].0 == name@);
                    lemma_place_is_unique(self@, i as int);
                }
                Some(&self.entries[i].1)
            },
            None => {
                proof {
                    if has_name(self@, name@) {
                        let p = place_of(self@, name@);
                        assert(self.entries@[p].0@ == name@);
                    }
                }
                None
            },
        }
    }

    /// Gives the entries up, in their order.
    pub fn into_entries(self) -> (entries: Vec<(String, String)>)
        ensures
            entries@.len() == self@.len(),
            forall|i: int|
                0 <= i < entries@.len() ==> (#[trigger] entries@[i]).0@ == self@[i].0
                    && entries@[i].1@ == self@[i].1,
            distinct_names(self@),
    {
        proof {
            use_type_invariant(&self);
        }
        self.entries
    }
}

/// Loaders by file extension.
#[derive(Debug)]
pub struct Loaders {
    entries: Vec<(String, Loader)>,
}

impl View for Loaders {
    type V = Seq<(Seq<char>, Loader)>;

    closed spec fn view(&self) -> Seq<(Seq<char>, Loader)> {
        Seq::new(self.entries@.len(), |i: int| (self.entries@[i].0@, self.entries@[i].1))
    }
}

impl Clone for Loaders {
    fn clone(&self) -> (copy: Loaders)
        ensures
            copy@ == self@,
    {
        proof {
            use_type_invariant(self);
        }
        let mut entries: Vec<(String, Loader)> = Vec::new();
        let mut i: usize = 0;
        while i < self.entries.len()
            invariant
                i <= self.entries@.len(),
                entries@.len() == i,
                forall|j: int|
                    0 <= j < i ==> (#[trigger] entries@[j]).0@ == self.entries@[j].0@
                        && entries@[j].1 == self.entries@[j].1,
            decreases self.entries@.len() - i,
        {
            let entry = &self.entries[i];
            entries.push((entry.0.clone(), entry.1));
            i += 1;
        }
        assert(Seq::new(entries@.len(), |k: int| (entries@[k].0@, entries@[k].1)) =~= self@);
        Loaders { entries }
    }
}

impl Loaders {
    #[verifier::type_invariant]
    spec fn names_occur_once(&self) -> bool {
        distinct_names(self@)
    }

    /// A mapping that names nothing.
    pub fn new() -> (made: Loaders)
        ensures
            made@ == Seq::<(Seq<char>, Loader)>::empty(),
    {
        Loaders { entries: Vec::new() }
    }

    /// Gives the extension `name` the loader `value`, in place of the one it had, if it had one.
    pub fn add(&mut self, name: String, value: Loader)
        ensures
            final(self)@ == put(old(self)@, name@, value),
            distinct_names(final(self)@),
    {
        proof {
            use_type_invariant(&*self);
            lemma_put_keeps_names_distinct(self@, name@, value);
        }
        let ghost before = self@;
        let mut entries: Vec<(String, Loader)> = Vec::new();
        core::mem::swap(&mut entries, &mut self.entries);
        match find_name(&entries, &name) {
            Some(i) => {
                proof {
                    assert(before[i as int].0 == name@);
                    lemma_place_is_unique(before, i as int);
                }
                entries.set(i, (name, value));
            },
            None => {
                proof {
                    if has_name(before, name@) {
                        let p = place_of(before, name@);
                        assert(entries@[p].0@ == name@);
                    }
                }
                entries.push((name, value));
            },
        }
        assert(Seq::new(entries@.len(), |k: int| (entries@[k].0@, entries@[k].1)) =~= put(
            before,
            name@,
            value,
        ));
        self.entries = entries;
    }

    /// The number of names.
    pub fn len(&self) -> (n: usize)
        ensures
            n == self@.len(),
            distinct_names(self@),
    {
        proof {
            use_type_invariant(self);
        }
        self.entries.len()
    }

    /// The value given to `name`, if it was given one.
    pub fn get(&self, name: &String) -> (found: Option<&Loader>)
        ensures
            match found {
                Some(value) => lookup(self@, name@) == Some(*value),
                None => lookup(self@, name@) is None,
            },
    {
        proof {
            use_type_invariant(self);
        }
        match find_name(&self.entries, name) {
            Some(i) => {
                proof {
                    assert(self@[i as int].0 == name@);
                    lemma_place_is_unique(self@, i as int);
                }
                Some(&self.entries[i].1)
            },
            None => {
                proof {
                    if has_name(self@, name@) {
                        let p = place_of(self@, name@);
                        assert(self.entries@[p].0@ == name@);
                    }
                }
                None
            },
        }
    }

    /// Gives the entries up, in their order.
    pub fn into_entries(self) -> (entries: Vec<(String, Loader)>)
        ensures
            entries@.len() == self@.len(),
            forall|i: int|
                0 <= i < entries@.len() ==> (#[trigger] entries@[i]).0@ == self@[i].0
                    && entries@[i].1 == self@[i].1,
            distinct_names(self@),
    {
        proof {
            use_type_invariant(&self);
        }
        self.entries
    }
}

} // verus!
