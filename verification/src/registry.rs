//! The composition registry: a fixed set of uniquely named compositions, each
//! with the directory its redeploy command runs in.

use vstd::prelude::*;
use crate::text::same_text;

verus! {

/// One registered composition.
#[derive(Debug)]
pub struct ManagedComposition {
    work: String,
}

impl View for ManagedComposition {
    type V = Seq<char>;

    /// A composition is modelled by its working directory.
    open spec fn view(&self) -> Seq<char> {
        self.work_spec()
    }
}

impl ManagedComposition {
    pub closed spec fn work_spec(&self) -> Seq<char> {
        self.work@
    }

    pub fn new(work: String) -> (composition: ManagedComposition)
        ensures
            composition@ == work@,
    {
        ManagedComposition { work }
    }

    /// The directory in which this composition's redeploy command runs.
    pub fn work(&self) -> (work: &str)
        ensures
            work@ == self@,
    {
        self.work.as_str()
    }
}

/// A name together with the composition registered under it.
#[derive(Debug)]
struct Entry {
    name: String,
    composition: ManagedComposition,
}

/// The read-only mapping from composition name to composition.
///
/// The registry is modelled by two parallel sequences, [`Registry::names`] and
/// [`Registry::dirs`], in registration order; its view is the map they spell.
#[derive(Debug)]
pub struct Registry {
    entries: Vec<Entry>,
}

impl View for Registry {
    type V = Map<Seq<char>, Seq<char>>;

    /// The mapping from each registered name to its working directory.
    open spec fn view(&self) -> Map<Seq<char>, Seq<char>> {
        Map::new(
            |name: Seq<char>| self.names().contains(name),
            |name: Seq<char>| self.dirs()[self.names().index_of(name)],
        )
    }
}

impl Registry {
    /// The registered names, in registration order.
    pub closed spec fn names(&self) -> Seq<Seq<char>> {
        Seq::new(self.entries@.len(), |i: int| self.entries@[i].name@)
    }

    /// The working directories, parallel to [`Registry::names`].
    pub closed spec fn dirs(&self) -> Seq<Seq<char>> {
        Seq::new(self.entries@.len(), |i: int| self.entries@[i].composition@)
    }

    /// No name is registered twice, and every name has its directory.
    pub open spec fn wf(&self) -> bool {
        &&& self.names().no_duplicates()
        &&& self.dirs().len() == self.names().len()
    }

    /// The registry without any composition.
    pub fn new() -> (registry: Registry)
        ensures
            registry.wf(),
            registry.names() == Seq::<Seq<char>>::empty(),
            registry.dirs() == Seq::<Seq<char>>::empty(),
            registry@ == Map::<Seq<char>, Seq<char>>::empty(),
    {
        let registry = Registry { entries: Vec::new() };
        assert(registry.names() =~= Seq::<Seq<char>>::empty());
        assert(registry.dirs() =~= Seq::<Seq<char>>::empty());
        assert(registry@ =~= Map::<Seq<char>, Seq<char>>::empty());
        registry
    }

    /// The number of registered compositions.
    pub fn len(&self) -> (count: usize)
        requires
            self.wf(),
        ensures
            count == self.names().len(),
            count == self@.dom().len(),
    {
        proof {
            self.lemma_domain();
        }
        self.entries.len()
    }

    /// The position of `name` among the registered names, if it is registered.
    fn position(&self, name: &str) -> (found: Option<usize>)
        ensures
            found matches Some(i) ==> i < self.names().len() && self.names()[i as int] == name@,
            found is None ==> !self.names().contains(name@),
    {
        let mut i: usize = 0;
        while i < self.entries.len()
            invariant
                i <= self.entries@.len(),
                forall|j: int| 0 <= j < i ==> self.names()[j] != name@,
            decreases self.entries@.len() - i,
        {
            if same_text(self.entries[i].name.as_str(), name) {
                return Some(i);
            }
            i += 1;
        }
        None
    }

    /// Resolves a name to its composition.
    ///
    /// Returns the composition registered under `name`, and `None` exactly
    /// when no composition has that name.
    pub fn lookup(&self, name: &str) -> (found: Option<&ManagedComposition>)
        requires
            self.wf(),
        ensures
            found.is_some() == self@.contains_key(name@),
            found matches Some(composition) ==> composition@ == self@[name@],
    {
        match self.position(name) {
            Some(i) => {
                proof {
                    self.lemma_resolves(i as int);
                }
                Some(&self.entries[i].composition)
            },
            None => None,
        }
    }

    /// Registers `composition` under `name`.
    ///
    /// A name that is already registered keeps its place and gets the new
    /// composition; a new name is added behind the others.
    pub fn insert(&mut self, name: String, composition: ManagedComposition)
        requires
            old(self).wf(),
        ensures
            final(self).wf(),
            final(self)@ == old(self)@.insert(name@, composition@),
            old(self)@.contains_key(name@) ==> final(self).names() == old(self).names(),
            !old(self)@.contains_key(name@) ==> final(self).names() == old(self).names().push(name@),
    {
        let ghost before = *self;
        match self.position(name.as_str()) {
            Some(i) => {
                self.entries.set(i, Entry { name, composition });
                proof {
                    assert(self.names() =~= before.names());
                    assert(self.dirs() =~= before.dirs().update(i as int, composition@));
                    before.lemma_resolves(i as int);
                    assert forall|n: Seq<char>| self@.contains_key(n) implies #[trigger] self@[n]
                        == before@.insert(name@, composition@)[n] by {
                        let k = self.names().index_of(n);
                        self.lemma_resolves(k);
                        before.lemma_resolves(k);
                    }
                    assert(self@ =~= before@.insert(name@, composition@));
                }
            },
            None => {
                self.entries.push(Entry { name, composition });
                proof {
                    assert(self.names() =~= before.names().push(name@));
                    assert(self.dirs() =~= before.dirs().push(composition@));
                    assert forall|n: Seq<char>| before@.insert(name@, composition@).contains_key(n)
                        implies self@.contains_key(n) by {
                        if n != name@ {
                            let k = before.names().index_of(n);
                            assert(self.names()[k] == n);
                        } else {
                            assert(self.names()[before.names().len() as int] == n);
                        }
                    }
                    assert forall|n: Seq<char>| self@.contains_key(n) implies #[trigger] self@[n]
                        == before@.insert(name@, composition@)[n] by {
                        let k = self.names().index_of(n);
                        self.lemma_resolves(k);
                        if k < before.names().len() {
                            before.lemma_resolves(k);
                        }
                    }
                    assert(self@ =~= before@.insert(name@, composition@));
                }
            },
        }
    }

    /// The name and the composition at position `i` in registration order.
    pub fn entry_at(&self, i: usize) -> (entry: (&str, &ManagedComposition))
        requires
            self.wf(),
            i < self.names().len(),
        ensures
            entry.0@ == self.names()[i as int],
            entry.1@ == self.dirs()[i as int],
            self@.contains_key(entry.0@),
            self@[entry.0@] == entry.1@,
    {
        proof {
            self.lemma_resolves(i as int);
        }
        (self.entries[i].name.as_str(), &self.entries[i].composition)
    }

    /// In a well-formed registry the name at position `i` resolves to the
    /// directory at position `i`.
    pub proof fn lemma_resolves(&self, i: int)
        requires
            self.wf(),
            0 <= i < self.names().len(),
        ensures
            self@.contains_key(self.names()[i]),
            self@[self.names()[i]] == self.dirs()[i],
            self.names().index_of(self.names()[i]) == i,
    {
        let name = self.names()[i];
        assert(self.names().contains(name));
        let k = self.names().index_of(name);
        assert(0 <= k < self.names().len() && self.names()[k] == name);
    }

    /// The registry holds exactly as many names as its map has keys, and the
    /// keys are the registered names.
    pub proof fn lemma_domain(&self)
        requires
            self.wf(),
        ensures
            self@.dom() == self.names().to_set(),
            self@.dom().finite(),
            self@.dom().len() == self.names().len(),
    {
        assert(self@.dom() =~= self.names().to_set());
        self.names().unique_seq_to_set();
        vstd::seq_lib::seq_to_set_is_finite(self.names());
    }
}

} // verus!
