//! Facts about the deep view of a vector.

use vstd::prelude::*;

verus! {

/// Pushing onto a vector pushes the element's view onto the vector's view.
pub proof fn lemma_deep_view_push<T: DeepView>(before: Vec<T>, after: Vec<T>, x: T)
    requires
        after@ == before@.push(x),
    ensures
        after.deep_view() == before.deep_view().push(x.deep_view()),
{
    assert(after.deep_view() =~= before.deep_view().push(x.deep_view()));
}

/// The deep view of a vector has the vector's length, element by element.
pub proof fn lemma_deep_view_index<T: DeepView>(v: Vec<T>)
    ensures
        v.deep_view().len() == v@.len(),
        forall|i: int| 0 <= i < v@.len() ==> #[trigger] v.deep_view()[i] == v@[i].deep_view(),
{
}

/// A prefix of the deep view extended by the next element.
pub proof fn lemma_deep_view_take<T: DeepView>(v: Vec<T>, i: int)
    requires
        0 <= i < v@.len(),
    ensures
        v.deep_view().take(i + 1) == v.deep_view().take(i).push(v@[i].deep_view()),
        v.deep_view().take(v@.len() as int) == v.deep_view(),
{
    assert(v.deep_view().take(i + 1) =~= v.deep_view().take(i).push(v@[i].deep_view()));
    assert(v.deep_view().take(v@.len() as int) =~= v.deep_view());
}

} // verus!
