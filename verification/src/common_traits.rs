use vstd::prelude::*;

use crate::fixed_vec::FixedVec;

verus! {

use vstd::std_specs::cmp::PartialEqSpec;

impl<T: PartialEq> PartialEq<Vec<T>> for FixedVec<T> {
    /// Element-wise equality against a plain vector.
    fn eq(&self, other: &Vec<T>) -> (r: bool) {
        let s = self.as_slice();
        if s.len() != other.len() {
            return false;
        }
        let mut i: usize = 0;
        while i < s.len()
            invariant
                i <= s@.len(),
                s@.len() == other@.len(),
                s@ == self@,
                T::obeys_eq_spec() ==> forall|k: int| 0 <= k < i ==> self@[k].eq_spec(&other@[k]),
            decreases s@.len() - i,
        {
            let equal_here = *vstd::slice::slice_index_get(s, i) == other[i];
            if !equal_here {
                return false;
            }
            i += 1;
        }
        true
    }
}

impl<T: PartialEq> vstd::std_specs::cmp::PartialEqSpecImpl<Vec<T>> for FixedVec<T> {
    open spec fn obeys_eq_spec() -> bool {
        T::obeys_eq_spec()
    }

    open spec fn eq_spec(&self, other: &Vec<T>) -> bool {
        self@.len() == other@.len() && forall|i: int|
            0 <= i < self@.len() ==> self@[i].eq_spec(&other@[i])
    }
}

impl<T: PartialEq> PartialEq for FixedVec<T> {
    /// Element-wise equality of the stored elements; the capacities
    /// play no part.
    fn eq(&self, other: &FixedVec<T>) -> (r: bool) {
        let s = self.as_slice();
        let o = other.as_slice();
        if s.len() != o.len() {
            return false;
        }
        let mut i: usize = 0;
        while i < s.len()
            invariant
                i <= s@.len(),
                s@.len() == o@.len(),
                s@ == self@,
                o@ == other@,
                T::obeys_eq_spec() ==> forall|k: int| 0 <= k < i ==> self@[k].eq_spec(&other@[k]),
            decreases s@.len() - i,
        {
            let equal_here = *vstd::slice::slice_index_get(s, i) == *vstd::slice::slice_index_get(
                o,
                i,
            );
            if !equal_here {
                return false;
            }
            i += 1;
        }
        true
    }
}

impl<T: PartialEq> vstd::std_specs::cmp::PartialEqSpecImpl for FixedVec<T> {
    open spec fn obeys_eq_spec() -> bool {
        T::obeys_eq_spec()
    }

    open spec fn eq_spec(&self, other: &FixedVec<T>) -> bool {
        self@.len() == other@.len() && forall|i: int|
            0 <= i < self@.len() ==> self@[i].eq_spec(&other@[i])
    }
}

impl<T> core::ops::Index<usize> for FixedVec<T> {
    type Output = T;

    /// The element at `index`; the caller shows the bound.
    fn index(&self, index: usize) -> (elem: &T) {
        self.get_unchecked(index)
    }
}

impl<T> vstd::std_specs::core::IndexSpecImpl<usize> for FixedVec<T> {
    open spec fn index_req(&self, index: &usize) -> bool {
        *index < self@.len()
    }
}

impl<T> core::ops::Deref for FixedVec<T> {
    type Target = [T];

    /// The stored elements as a slice.
    fn deref(&self) -> (slice: &[T]) {
        self.as_slice()
    }
}

impl<T> AsRef<[T]> for FixedVec<T> {
    /// The stored elements as a slice.
    fn as_ref(&self) -> (slice: &[T]) {
        self.as_slice()
    }
}

impl<T> AsMut<[T]> for FixedVec<T> {
    /// Mutable access to the stored elements as a slice.
    fn as_mut(&mut self) -> (slice: &mut [T]) {
        self.data.as_mut_slice()
    }
}

impl<T: Clone> Clone for FixedVec<T> {
    /// A fresh vector with the same fixed capacity, holding a clone of
    /// every element; the whole backing buffer of the copy is
    /// allocated here, so the copy pins its elements the same way.
    fn clone(&self) -> (res: Self)
        ensures
            res.spec_capacity() == self.spec_capacity(),
            res@.len() == self@.len(),
            forall|i: int| 0 <= i < self@.len() ==> cloned::<T>(self@[i], res@[i]),
            self.wf() ==> res.wf(),
    {
        let capacity = self.capacity();
        let s = self.as_slice();
        let mut data: Vec<T> = Vec::with_capacity(capacity);
        let mut i: usize = 0;
        while i < s.len()
            invariant
                i <= s@.len(),
                s@ == self@,
                data@.len() == i,
                forall|k: int| 0 <= k < i ==> cloned::<T>(self@[k], data@[k]),
            decreases s@.len() - i,
        {
            let elem = vstd::slice::slice_index_get(s, i).clone();
            data.push(elem);
            i += 1;
        }
        FixedVec::from_parts(data, capacity)
    }
}

impl<T> IntoIterator for FixedVec<T> {
    type Item = T;

    type IntoIter = std::vec::IntoIter<T>;

    /// An iterator that hands the stored elements out by value, in
    /// order.
    fn into_iter(self) -> (it: std::vec::IntoIter<T>) {
        self.into_inner().into_iter()
    }
}

impl<T> FixedVec<T> {
    /// An iterator over references to the stored elements, in order.
    pub fn iter(&self) -> (it: core::slice::Iter<'_, T>)
        ensures
            ({
                let rem = vstd::std_specs::iter::IteratorSpec::remaining(&it);
                rem.len() == self@.len() && forall|k: int|
                    0 <= k < rem.len() ==> *rem[k] == self@[k]
            }),
    {
        self.as_slice().iter()
    }
}

} // verus!
