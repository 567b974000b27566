use crate::error::Error;
use crate::ord::name_set::{first_repeat, names_of, NameSet};
use vstd::prelude::*;

verus! {

/// One set, or several that are to stand as one.
#[derive(Debug)]
pub enum MultiSet<T> {
    Single(NameSet<T>),
    Multi(Vec<NameSet<T>>),
}

/// The entries of a row of sets, one set after the other.
pub open spec fn pairs_in<T>(sets: Seq<NameSet<T>>) -> Seq<(Seq<char>, T)> {
    sets.map_values(|set: NameSet<T>| set.pairs()).flatten()
}

impl<T> MultiSet<T> {
    /// The sets in their order.
    pub open spec fn sets(self) -> Seq<NameSet<T>> {
        match self {
            MultiSet::Single(set) => seq![set],
            MultiSet::Multi(sets) => sets@,
        }
    }

    /// The entries of all the sets, one set after the other.
    pub open spec fn pairs(self) -> Seq<(Seq<char>, T)> {
        pairs_in(self.sets())
    }

    /// The number of sets.
    pub fn len(&self) -> (n: usize)
        ensures
            n == self.sets().len(),
    {
        match self {
            MultiSet::Single(_) => 1,
            MultiSet::Multi(sets) => sets.len(),
        }
    }

    /// Makes one set of all, with the entries in their order. It fails on
    /// the first name that stands a second time.
    pub fn load(self) -> (result: Result<NameSet<T>, Error>)
        ensures
            match result {
                Ok(set) => {
                    &&& names_of(self.pairs()).no_duplicates()
                    &&& set.pairs() == self.pairs()
                },
                Err(e) => exists|at: int|
                    {
                        &&& first_repeat(names_of(self.pairs()), at)
                        &&& e matches Error::DuplicateName { name }
                        &&& name@ == names_of(self.pairs())[at]
                    },
            },
    {
        match self {
            MultiSet::Single(set) => {
                proof {
                    use_type_invariant(&set);
                    let rows = seq![set].map_values(|set: NameSet<T>| set.pairs());
                    assert(rows =~= seq![set.pairs()]);
                    rows.lemma_flatten_one_element();
                }
                Ok(set)
            },
            MultiSet::Multi(sets) => {
                let ghost all = sets@;
                let mut acc: NameSet<T> = NameSet::empty();
                let ghost mut done: int = 0;
                proof {
                    assert(all.take(0) =~= Seq::empty());
                    assert(pairs_in(all.take(0)) =~= Seq::empty());
                }
                for set in iter: sets
                    invariant
                        done == iter.index(),
                        iter.seq() == all,
                        self.sets() == all,
                        acc.pairs() == pairs_in(all.take(done)),
                {
                    let ghost before = acc.pairs();
                    proof {
                        lemma_pairs_in_push(all.take(done), set);
                        assert(all.take(done + 1) =~= all.take(done).push(set));
                        lemma_pairs_in_prefix(all, done + 1);
                    }
                    match acc.combine(set) {
                        Ok(more) => {
                            acc = more;
                            proof {
                                done = done + 1;
                            }
                        },
                        Err(e) => {
                            proof {
                                let part = before + set.pairs();
                                let whole = pairs_in(all);
                                let at = choose|at: int|
                                    {
                                        &&& first_repeat(names_of(before) + set.names(), at)
                                        &&& e matches Error::DuplicateName { name }
                                        &&& name@ == (names_of(before) + set.names())[at]
                                    };
                                assert(names_of(part) =~= names_of(before) + set.names());
                                assert(names_of(whole).take(at) =~= names_of(part).take(at));
                                assert(first_repeat(names_of(whole), at));
                                assert(names_of(whole)[at] == names_of(part)[at]);
                                assert(whole == self.pairs());
                                assert(e matches Error::DuplicateName { name } && name@ == names_of(
                                    self.pairs(),
                                )[at]);
                            }
                            return Err(e);
                        },
                    }
                }
                proof {
                    use_type_invariant(&acc);
                    assert(all.take(done) =~= all);
                }
                Ok(acc)
            },
        }
    }
}

/// The entries of a row with one more set are those of the row and then
/// those of the set.
pub proof fn lemma_pairs_in_push<T>(sets: Seq<NameSet<T>>, set: NameSet<T>)
    ensures
        pairs_in(sets.push(set)) == pairs_in(sets) + set.pairs(),
{
    let f = |set: NameSet<T>| set.pairs();
    assert(sets.push(set).map_values(f) =~= sets.map_values(f).push(set.pairs()));
    sets.map_values(f).lemma_flatten_push(set.pairs());
}

/// The entries of the first sets of a row stand first among the entries of
/// the row.
pub proof fn lemma_pairs_in_prefix<T>(sets: Seq<NameSet<T>>, n: int)
    requires
        0 <= n <= sets.len(),
    ensures
        pairs_in(sets.take(n)).len() <= pairs_in(sets).len(),
        pairs_in(sets).take(pairs_in(sets.take(n)).len() as int) == pairs_in(sets.take(n)),
{
    let f = |set: NameSet<T>| set.pairs();
    let head = sets.take(n);
    let tail = sets.skip(n);
    assert(sets =~= head + tail);
    assert(sets.map_values(f) =~= head.map_values(f) + tail.map_values(f));
    vstd::seq_lib::lemma_flatten_concat(head.map_values(f), tail.map_values(f));
    assert(pairs_in(sets) =~= pairs_in(head) + pairs_in(tail));
    assert((pairs_in(head) + pairs_in(tail)).take(pairs_in(head).len() as int) =~= pairs_in(head));
}

} // verus!
