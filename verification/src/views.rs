use vstd::prelude::*;

verus! {

/// The deep view of a vector indexes to the deep views of its elements.
pub proof fn lemma_vec_deep_view_index<T: DeepView>(v: &Vec<T>)
    ensures
        v.deep_view().len() == v@.len(),
        forall|i: int| 0 <= i < v@.len() ==> v.deep_view()[i] == v@[i].deep_view(),
{
}

} // verus!
