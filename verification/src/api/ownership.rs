use vstd::prelude::*;
use vstd::seq_lib::{to_multiset_build, to_multiset_remove};

verus! {

// A configuration or an input buffer is shared: it lives for as long as
// somebody holds a handle on it. Each call keeps its handles in the record
// that travels with it, from the moment it is issued until its completion
// uses the record up. The calls in flight are taken as a sequence here, with
// `kept[i]` the handle that the i-th of them keeps, if it keeps one. Calls
// complete in any order, so a record may leave the sequence at any place.

/// The number of handles on `shared` that the calls in flight hold.
pub open spec fn handles_held<H>(kept: Seq<Option<H>>, shared: H) -> nat {
    kept.to_multiset().count(Some(shared))
}

/// While no call is in flight, no call holds a handle.
pub proof fn lemma_no_call_holds_nothing<H>(shared: H)
    ensures
        handles_held(Seq::<Option<H>>::empty(), shared) == 0,
{
    broadcast use vstd::seq_lib::group_to_multiset_ensures;

}

/// Issuing a call adds exactly one handle on what its record keeps, and none
/// on anything else, however many calls already share it.
pub proof fn lemma_issue_adds_one_handle<H>(kept: Seq<Option<H>>, record: Option<H>, shared: H)
    ensures
        handles_held(kept.push(record), shared) == handles_held(kept, shared) + if record == Some(
            shared,
        ) {
            1nat
        } else {
            0nat
        },
{
    broadcast use vstd::multiset::group_multiset_axioms;

    to_multiset_build(kept, record);
}

/// The completion of a call, whichever of those in flight it is, gives back
/// exactly the one handle that its record kept, and leaves the handles of the
/// other calls as they are.
pub proof fn lemma_completion_gives_one_handle_back<H>(kept: Seq<Option<H>>, i: int, shared: H)
    requires
        0 <= i < kept.len(),
    ensures
        handles_held(kept, shared) == handles_held(kept.remove(i), shared) + if kept[i] == Some(
            shared,
        ) {
            1nat
        } else {
            0nat
        },
{
    broadcast use vstd::multiset::group_multiset_axioms;

    to_multiset_remove(kept, i);
    kept.to_multiset_ensures();
    assert(kept.contains(kept[i]));
}

/// A call that is issued and then completes leaves the number of handles as
/// it was before, whatever other calls were issued in between.
pub proof fn lemma_count_returns_after_completion<H>(
    before: Seq<Option<H>>,
    record: Option<H>,
    issued_meanwhile: Seq<Option<H>>,
    shared: H,
)
    ensures
        (before.push(record) + issued_meanwhile).remove(before.len() as int) == before
            + issued_meanwhile,
        handles_held((before.push(record) + issued_meanwhile).remove(before.len() as int), shared)
            == handles_held(before + issued_meanwhile, shared),
{
    assert((before.push(record) + issued_meanwhile).remove(before.len() as int) =~= before
        + issued_meanwhile);
}

} // verus!
