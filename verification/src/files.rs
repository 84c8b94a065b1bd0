//! The work list of a run.
//!
//! The entries of the directory are tried one by one for a canonical path.
//! An entry that has none is left out; the others keep their order.

use vstd::prelude::*;

verus! {

/// The canonical paths among `candidates`, in their order; `None` stands for
/// an entry that has no canonical path.
pub open spec fn resolved<T>(candidates: Seq<Option<T>>) -> Seq<T>
    decreases candidates.len(),
{
    if candidates.len() == 0 {
        Seq::empty()
    } else {
        let before = resolved(candidates.drop_last());
        match candidates.last() {
            Some(path) => before.push(path),
            None => before,
        }
    }
}

/// The work list is no longer than the listing, and each of its paths is the
/// canonical path of an entry of the listing.
pub proof fn lemma_resolved_within<T>(candidates: Seq<Option<T>>)
    ensures
        resolved(candidates).len() <= candidates.len(),
        forall|i: int|
            0 <= i < resolved(candidates).len() ==> candidates.contains(
                Some(#[trigger] resolved(candidates)[i]),
            ),
    decreases candidates.len(),
{
    if candidates.len() > 0 {
        let front = candidates.drop_last();
        lemma_resolved_within(front);
        assert forall|i: int| 0 <= i < resolved(candidates).len() implies candidates.contains(
            Some(#[trigger] resolved(candidates)[i]),
        ) by {
            if i < resolved(front).len() {
                let j = choose|j: int| 0 <= j < front.len() && front[j] == Some(resolved(front)[i]);
                assert(candidates[j] == front[j]);
            } else {
                assert(candidates[candidates.len() - 1] == Some(resolved(candidates)[i]));
            }
        }
    }
}

/// Builds the work list from the entries of a directory: those with a
/// canonical path, in the order of the listing.
pub fn work_list<T>(candidates: Vec<Option<T>>) -> (files: Vec<T>)
    ensures
        files@ == resolved(candidates@),
        files@.len() <= candidates@.len(),
        forall|i: int| 0 <= i < files@.len() ==> candidates@.contains(Some(#[trigger] files@[i])),
{
    let ghost all = candidates@;
    let mut files: Vec<T> = Vec::new();
    for candidate in iter: candidates
        invariant
            iter.seq() == all,
            files@ == resolved(all.take(iter.index() as int)),
    {
        proof {
            let k = iter.index() as int;
            assert(all.take(k + 1).drop_last() == all.take(k));
            assert(all.take(k + 1).last() == candidate);
        }
        match candidate {
            Some(path) => {
                files.push(path);
            },
            None => {},
        }
    }
    proof {
        assert(all.take(all.len() as int) == all);
        lemma_resolved_within(all);
    }
    files
}

} // verus!
