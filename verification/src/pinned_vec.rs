use vstd::prelude::*;

use crate::fixed_vec::FixedVec;

verus! {

/// Relies on `orx_pinned_vec::utils::slice::index_of`: for a reference
/// into the slice's own buffer it returns the element's offset, which
/// is always below the length; for any other reference it returns
/// `None`.  Which of the two happens depends on addresses at run time,
/// so nothing more is stated.
#[verifier::external_body]
fn slice_index_of<T>(slice: &[T], element: &T) -> (index: Option<usize>)
    ensures
        index matches Some(i) ==> i < slice@.len(),
        slice@.len() == 0 ==> index is None,
{
    orx_pinned_vec::utils::slice::index_of(slice, element)
}

/// Relies on `orx_pinned_vec::utils::slice::contains_reference`:
/// whether the reference points into the slice's own buffer.  The
/// answer depends on addresses at run time; for an empty slice it is
/// always `false`.
#[verifier::external_body]
fn slice_contains_reference<T>(slice: &[T], element: &T) -> (contained: bool)
    ensures
        slice@.len() == 0 ==> !contained,
{
    orx_pinned_vec::utils::slice::contains_reference(slice, element)
}

impl<T> FixedVec<T> {
    /// The index of the element that `element` points at, when it
    /// points into this vector's own buffer, and `None` otherwise.
    ///
    /// Reference identity decides, not value equality, so the answer
    /// takes constant time; pinning is what makes the comparison
    /// meaningful, since an element's address never changes while it
    /// stays at its index.
    pub fn index_of(&self, element: &T) -> (index: Option<usize>)
        ensures
            index matches Some(i) ==> i < self@.len(),
            self@.len() == 0 ==> index is None,
    {
        slice_index_of(self.as_slice(), element)
    }

    /// Whether `element` points into this vector's own buffer.
    /// Reference identity decides, not value equality.
    pub fn contains_reference(&self, element: &T) -> (contained: bool)
        ensures
            self@.len() == 0 ==> !contained,
    {
        slice_contains_reference(self.as_slice(), element)
    }
}

} // verus!
