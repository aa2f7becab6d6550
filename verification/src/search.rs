//! The first position at which a sequence holds what is looked for.

use vstd::prelude::*;

verus! {

/// The first position at which `list` holds an item that is `wanted`, or
/// the length of `list` where it holds none.
pub open spec fn first_where<A>(list: Seq<A>, wanted: spec_fn(A) -> bool) -> int
    decreases list.len(),
{
    if list.len() == 0 {
        0
    } else if wanted(list[0]) {
        0
    } else {
        1 + first_where(list.drop_first(), wanted)
    }
}

/// A position that holds a wanted item, with none before it, is the first
/// such position; the length is, where no item is wanted.
pub proof fn lemma_first_where<A>(list: Seq<A>, wanted: spec_fn(A) -> bool, at: int)
    requires
        0 <= at <= list.len(),
        forall|j: int| 0 <= j < at ==> !wanted(#[trigger] list[j]),
        at < list.len() ==> wanted(list[at]),
    ensures
        first_where(list, wanted) == at,
    decreases at,
{
    if at > 0 {
        let rest = list.drop_first();
        assert forall|j: int| 0 <= j < at - 1 implies !wanted(#[trigger] rest[j]) by {
            assert(rest[j] == list[j + 1]);
        }
        assert(!wanted(list[0]));
        lemma_first_where(rest, wanted, at - 1);
    }
}

/// The first position of a wanted item lies within the list or at its end;
/// no item before it is wanted, and the item at it is.
pub proof fn lemma_first_where_found<A>(list: Seq<A>, wanted: spec_fn(A) -> bool)
    ensures
        0 <= first_where(list, wanted) <= list.len(),
        forall|j: int| 0 <= j < first_where(list, wanted) ==> !wanted(#[trigger] list[j]),
        first_where(list, wanted) < list.len() ==> wanted(list[first_where(list, wanted)]),
    decreases list.len(),
{
    if list.len() > 0 && !wanted(list[0]) {
        let rest = list.drop_first();
        lemma_first_where_found(rest, wanted);
        assert forall|j: int| 0 <= j < first_where(list, wanted) implies !wanted(
            #[trigger] list[j],
        ) by {
            if j > 0 {
                assert(list[j] == rest[j - 1]);
            }
        }
    }
}

} // verus!
