//! Lists of actions that a state machine hands out.

use vstd::prelude::*;

verus! {

/// The mathematical models of actions.
pub open spec fn views<A: View>(actions: Seq<A>) -> Seq<A::V> {
    actions.map_values(|a: A| a@)
}

/// Appends an action.
pub(crate) fn then_do<A: View>(actions: &mut Vec<A>, action: A)
    ensures
        views(final(actions)@) == views(old(actions)@).push(action@),
{
    actions.push(action);
    assert(views(actions@) =~= views(old(actions)@).push(action@));
}

/// No action.
pub(crate) fn nothing<A: View>() -> (r: Vec<A>)
    ensures
        views(r@) == Seq::<A::V>::empty(),
{
    let actions: Vec<A> = Vec::new();
    assert(views(actions@) =~= Seq::<A::V>::empty());
    actions
}

/// One action.
pub(crate) fn just<A: View>(action: A) -> (r: Vec<A>)
    ensures
        views(r@) == seq![action@],
{
    let mut actions: Vec<A> = Vec::new();
    actions.push(action);
    assert(views(actions@) =~= seq![action@]);
    actions
}

/// Two actions.
pub(crate) fn both<A: View>(first: A, second: A) -> (r: Vec<A>)
    ensures
        views(r@) == seq![first@, second@],
{
    let mut actions: Vec<A> = Vec::new();
    actions.push(first);
    actions.push(second);
    assert(views(actions@) =~= seq![first@, second@]);
    actions
}

/// The models of actions are those of each of them, in their order.
pub proof fn law_views_keep_the_order<A: View>(actions: Seq<A>, i: int)
    ensures
        views(actions).len() == actions.len(),
        0 <= i < actions.len() ==> views(actions)[i] == actions[i]@,
{
}

} // verus!
