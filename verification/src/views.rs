//! Small bridges between a vector's deep view and the views of its
//! elements, used by the loops that build and rewrite vectors.
use vstd::prelude::*;

verus! {

/// Pushing an element appends its view to the vector's deep view.
pub proof fn lemma_deep_view_push<T: DeepView>(pre: Vec<T>, post: Vec<T>, x: T)
    requires
        post@ == pre@.push(x),
    ensures
        post.deep_view() =~= pre.deep_view().push(x.deep_view()),
{
    assert(forall|k: int|
        0 <= k < pre@.len() ==> #[trigger] post.deep_view()[k] == pre.deep_view()[k]);
    assert(post.deep_view()[pre@.len() as int] == x.deep_view());
}

/// A vector's deep view holds the view of each element.
pub proof fn lemma_deep_view_index<T: DeepView>(v: Vec<T>, k: int)
    requires
        0 <= k < v@.len(),
    ensures
        v.deep_view()[k] == v@[k].deep_view(),
{
}

/// Replacing an element replaces its view in the vector's deep view.
pub proof fn lemma_deep_view_update<T: DeepView>(pre: Vec<T>, post: Vec<T>, k: int, x: T)
    requires
        0 <= k < pre@.len(),
        post@ == pre@.update(k, x),
    ensures
        post.deep_view() =~= pre.deep_view().update(k, x.deep_view()),
{
    assert(forall|j: int|
        0 <= j < pre@.len() && j != k ==> #[trigger] post.deep_view()[j] == pre.deep_view()[j]);
    assert(post.deep_view()[k] == x.deep_view());
}

} // verus!
