use crate::error::Error;
use vstd::prelude::*;

verus! {

/// The names of a sequence of named values.
pub open spec fn names_of<T>(pairs: Seq<(Seq<char>, T)>) -> Seq<Seq<char>> {
    Seq::new(pairs.len(), |i: int| pairs[i].0)
}

/// The map from each name of a sequence of named values to the first value
/// that bears it.
pub open spec fn map_of<T>(pairs: Seq<(Seq<char>, T)>) -> Map<Seq<char>, T> {
    Map::new(
        |name: Seq<char>| names_of(pairs).contains(name),
        |name: Seq<char>| pairs[names_of(pairs).index_of(name)].1,
    )
}

/// `names[at]` is the first name of the sequence that stands a second time.
pub open spec fn first_repeat(names: Seq<Seq<char>>, at: int) -> bool {
    &&& 0 <= at < names.len()
    &&& names.take(at).no_duplicates()
    &&& names.take(at).contains(names[at])
}

/// Each entry with its name by its characters.
pub open spec fn pairs_of<T>(entries: Seq<(String, T)>) -> Seq<(Seq<char>, T)> {
    Seq::new(entries.len(), |i: int| (entries[i].0@, entries[i].1))
}

/// Values found by name. No two entries have the same name.
///
/// The entries stand in a vector, in the order in which they were put in, and
/// a name is found by comparing it with each: what is proved of a lookup rests
/// on the equality of strings alone.
#[derive(Debug)]
pub struct NameSet<T> {
    entries: Vec<(String, T)>,
}

impl<T> View for NameSet<T> {
    type V = Map<Seq<char>, T>;

    /// The value that stands under each name.
    open spec fn view(&self) -> Map<Seq<char>, T> {
        map_of(self.pairs())
    }
}

impl<T> NameSet<T> {
    /// The entries in the order in which they were put in, each name by its
    /// characters.
    pub closed spec fn pairs(self) -> Seq<(Seq<char>, T)> {
        pairs_of(self.entries@)
    }

    /// The names in the order in which they were put in.
    pub open spec fn names(self) -> Seq<Seq<char>> {
        names_of(self.pairs())
    }

    /// No name stands twice.
    #[verifier::type_invariant]
    pub open spec fn wf(self) -> bool {
        self.names().no_duplicates()
    }

    /// A set without entries.
    pub fn empty() -> (set: Self)
        ensures
            set.pairs() == Seq::<(Seq<char>, T)>::empty(),
    {
        NameSet { entries: Vec::new() }
    }

    /// The set of the given entries, in their order. It fails on the first
    /// name that stands a second time.
    pub fn from_pairs(pairs: Vec<(String, T)>) -> (result: Result<NameSet<T>, Error>)
        ensures
            match result {
                Ok(set) => {
                    &&& names_of(pairs_of(pairs@)).no_duplicates()
                    &&& set.pairs() == pairs_of(pairs@)
                },
                Err(e) => exists|at: int|
                    {
                        &&& first_repeat(names_of(pairs_of(pairs@)), at)
                        &&& e matches Error::DuplicateName { name }
                        &&& name@ == names_of(pairs_of(pairs@))[at]
                    },
            },
    {
        let ghost all = pairs_of(pairs@);
        let mut set: NameSet<T> = NameSet::empty();
        let ghost mut done: int = 0;
        proof {
            assert(all.take(0) =~= Seq::empty());
        }
        for entry in iter: pairs
            invariant
                done == iter.index(),
                iter.seq() == pairs@,
                all == pairs_of(pairs@),
                set.pairs() == all.take(done),
        {
            let (name, value) = entry;
            proof {
                use_type_invariant(&set);
                assert(names_of(all).take(done) =~= names_of(all.take(done)));
                assert(names_of(all)[done] == name@);
            }
            match set.with(name, value) {
                Ok(more) => {
                    set = more;
                    proof {
                        assert(all.take(done + 1) =~= all.take(done).push(all[done]));
                        done = done + 1;
                    }
                },
                Err(e) => {
                    proof {
                        assert(first_repeat(names_of(all), done));
                        assert(e matches Error::DuplicateName { name: taken } && taken@ == names_of(
                            all,
                        )[done]);
                    }
                    return Err(e);
                },
            }
        }
        proof {
            use_type_invariant(&set);
            assert(all.take(done) =~= all);
        }
        Ok(set)
    }

    /// The entries in their order.
    pub fn into_pairs(self) -> (pairs: Vec<(String, T)>)
        ensures
            pairs_of(pairs@) == self.pairs(),
            names_of(self.pairs()).no_duplicates(),
    {
        proof {
            use_type_invariant(&self);
        }
        let NameSet { entries } = self;
        entries
    }

    /// The number of entries.
    pub fn len(&self) -> (n: usize)
        ensures
            n == self.pairs().len(),
    {
        self.entries.len()
    }

    /// The place of a name among the entries.
    pub fn position(&self, name: &String) -> (place: Option<usize>)
        ensures
            match place {
                Some(i) => i < self.pairs().len() && self.names()[i as int] == name@,
                None => !self.names().contains(name@),
            },
    {
        let mut i: usize = 0;
        while i < self.entries.len()
            invariant
                i <= self.entries.len(),
                forall|j: int| 0 <= j < i ==> self.names()[j] != name@,
            decreases self.entries.len() - i,
        {
            if self.entries[i].0 == *name {
                return Some(i);
            }
            i = i + 1;
        }
        None
    }

    /// The set with one more entry, under a name that it does not have yet.
    pub fn with(self, name: String, value: T) -> (result: Result<NameSet<T>, Error>)
        ensures
            match result {
                Ok(set) => {
                    &&& !self.names().contains(name@)
                    &&& set.pairs() == self.pairs().push((name@, value))
                },
                Err(e) => {
                    &&& self.names().contains(name@)
                    &&& e matches Error::DuplicateName { name: taken }
                    &&& taken == name
                },
            },
    {
        proof {
            use_type_invariant(&self);
        }
        match self.position(&name) {
            Some(_) => Err(Error::DuplicateName { name }),
            None => {
                let ghost before = self.pairs();
                let NameSet { mut entries } = self;
                entries.push((name, value));
                proof {
                    assert(pairs_of(entries@) =~= before.push((name@, value)));
                    assert(names_of(pairs_of(entries@)) =~= names_of(before).push(name@));
                }
                Ok(NameSet { entries })
            },
        }
    }

    /// The two sets as one, the entries of `other` behind those of `self`.
    /// It fails on the first name of `other` that `self` has too.
    pub fn combine(self, other: NameSet<T>) -> (result: Result<NameSet<T>, Error>)
        ensures
            match result {
                Ok(set) => {
                    &&& (self.names() + other.names()).no_duplicates()
                    &&& set.pairs() == self.pairs() + other.pairs()
                },
                Err(e) => exists|at: int|
                    {
                        &&& first_repeat(self.names() + other.names(), at)
                        &&& e matches Error::DuplicateName { name }
                        &&& name@ == (self.names() + other.names())[at]
                    },
            },
    {
        proof {
            use_type_invariant(&self);
            use_type_invariant(&other);
        }
        let ghost mine = self.pairs();
        let ghost theirs = other.pairs();
        let mut set = self;
        let NameSet { entries } = other;
        let ghost mut done: int = 0;
        proof {
            assert(theirs.take(0) =~= Seq::empty());
            assert(mine + theirs.take(0) =~= mine);
            assert(names_of(mine + theirs).take(mine.len() as int) =~= names_of(mine));
        }
        for entry in iter: entries
            invariant
                done == iter.index(),
                iter.seq() == entries@,
                mine == self.pairs(),
                theirs == other.pairs(),
                entries@.len() == theirs.len(),
                forall|i: int| 0 <= i < theirs.len() ==> theirs[i] == (entries@[i].0@, entries@[i].1),
                set.pairs() == mine + theirs.take(done),
                names_of(mine + theirs).take(mine.len() + done).no_duplicates(),
        {
            let (name, value) = entry;
            let ghost all = names_of(mine + theirs);
            let ghost at = mine.len() + done;
            proof {
                assert(all.take(at) =~= names_of(set.pairs()));
                assert(all[at] == name@);
            }
            match set.with(name, value) {
                Ok(more) => {
                    set = more;
                    proof {
                        assert(theirs.take(done + 1) =~= theirs.take(done).push(theirs[done]));
                        assert(mine + theirs.take(done + 1) =~= (mine + theirs.take(done)).push(
                            theirs[done],
                        ));
                        assert(all.take(at + 1) =~= names_of(set.pairs()));
                        use_type_invariant(&set);
                        done = done + 1;
                    }
                },
                Err(e) => {
                    proof {
                        assert(all =~= names_of(mine) + names_of(theirs));
                        assert(all.take(at).contains(all[at]));
                        assert(first_repeat(all, at));
                        assert(self.names() + other.names() == all);
                        assert(e matches Error::DuplicateName { name: taken } && taken@ == all[at]);
                    }
                    return Err(e);
                },
            }
        }
        proof {
            assert(theirs.take(done) =~= theirs);
            assert(names_of(mine + theirs) =~= names_of(mine) + names_of(theirs));
            assert(names_of(mine + theirs).take(mine.len() + done) =~= names_of(mine + theirs));
        }
        Ok(set)
    }

    /// The value that stands under a name.
    pub fn get(&self, name: &String) -> (value: Option<&T>)
        ensures
            match value {
                Some(v) => self@.contains_key(name@) && *v == self@[name@],
                None => !self@.contains_key(name@),
            },
    {
        proof {
            use_type_invariant(self);
        }
        match self.position(name) {
            Some(i) => {
                proof {
                    lemma_map_of_entry(self.pairs(), i as int);
                }
                Some(&self.entries[i].1)
            },
            None => None,
        }
    }
}

/// Under a name that stands once the map has the value that stands beside it.
pub proof fn lemma_map_of_entry<T>(pairs: Seq<(Seq<char>, T)>, i: int)
    requires
        names_of(pairs).no_duplicates(),
        0 <= i < pairs.len(),
    ensures
        map_of(pairs).contains_key(pairs[i].0),
        map_of(pairs)[pairs[i].0] == pairs[i].1,
{
    let names = names_of(pairs);
    assert(names[i] == pairs[i].0);
    assert(names.contains(pairs[i].0));
    let k = names.index_of(pairs[i].0);
    assert(names[k] == names[i]);
}

} // verus!
