use crate::error::{Context, Error};
use vstd::prelude::*;

verus! {

/// A name that an attribute refers to, with the kind of attribute that does.
pub type Reference = (Context, String);

/// Every name of `refs` is among `keys`.
pub open spec fn resolved(refs: Seq<Reference>, keys: Set<Seq<char>>) -> bool {
    forall|i: int| 0 <= i < refs.len() ==> keys.contains(#[trigger] refs[i].1@)
}

/// `refs[at]` is the first reference whose name is not among `keys`.
pub open spec fn first_missing(refs: Seq<Reference>, keys: Set<Seq<char>>, at: int) -> bool {
    &&& 0 <= at < refs.len()
    &&& !keys.contains(refs[at].1@)
    &&& resolved(refs.take(at), keys)
}

/// `error` tells of the first reference whose name is not among `keys`.
pub open spec fn reports_first_missing(
    error: Error,
    refs: Seq<Reference>,
    keys: Set<Seq<char>>,
) -> bool {
    exists|at: int|
        {
            &&& first_missing(refs, keys, at)
            &&& error == (Error::MissingKey { context: refs[at].0, name: refs[at].1 })
        }
}

/// A row of reference lists with one more list holds the references of the
/// row and then those of the list.
pub proof fn lemma_resolved_row(rows: Seq<Seq<Reference>>, n: int, keys: Set<Seq<char>>)
    requires
        0 <= n < rows.len(),
        resolved(rows.take(n).flatten(), keys),
        resolved(rows[n], keys),
    ensures
        resolved(rows.take(n + 1).flatten(), keys),
{
    assert(rows.take(n + 1) =~= rows.take(n).push(rows[n]));
    rows.take(n).lemma_flatten_push(rows[n]);
    let head = rows.take(n).flatten();
    let all = rows.take(n + 1).flatten();
    assert forall|i: int| 0 <= i < all.len() implies keys.contains(#[trigger] all[i].1@) by {
        if i < head.len() {
            assert(all[i] == head[i]);
        } else {
            assert(all[i] == rows[n][i - head.len()]);
        }
    }
}

/// Where the lists before the `n`-th are resolved and the `n`-th has its
/// first missing reference at `at`, that reference is the first that is
/// missing from the whole row.
pub proof fn lemma_missing_in_row(
    rows: Seq<Seq<Reference>>,
    n: int,
    at: int,
    keys: Set<Seq<char>>,
)
    requires
        0 <= n < rows.len(),
        resolved(rows.take(n).flatten(), keys),
        first_missing(rows[n], keys, at),
    ensures
        first_missing(rows.flatten(), keys, rows.take(n).flatten().len() + at),
        rows.flatten()[rows.take(n).flatten().len() + at] == rows[n][at],
{
    let head = rows.take(n).flatten();
    let upto = rows.take(n + 1).flatten();
    assert(rows.take(n + 1) =~= rows.take(n).push(rows[n]));
    rows.take(n).lemma_flatten_push(rows[n]);
    assert(rows =~= rows.take(n + 1) + rows.skip(n + 1));
    vstd::seq_lib::lemma_flatten_concat(rows.take(n + 1), rows.skip(n + 1));
    let all = rows.flatten();
    assert(all =~= upto + rows.skip(n + 1).flatten());
    let place = head.len() + at;
    assert(all[place] == rows[n][at]);
    assert forall|i: int| 0 <= i < place implies keys.contains(#[trigger] all.take(place)[i].1@) by {
        if i < head.len() {
            assert(all[i] == head[i]);
        } else {
            assert(all[i] == rows[n].take(at)[i - head.len()]);
        }
    }
}

} // verus!
