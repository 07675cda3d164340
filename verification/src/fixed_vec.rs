use vstd::prelude::*;

use crate::errors::CapacityState;
use crate::range::{range_end, range_start, IndexRange};

verus! {

use vstd::slice::slice_subrange;

/// A vector with a strict predetermined capacity.
///
/// The backing buffer is allocated once, at construction, and is never
/// reallocated afterwards: the vector refuses to grow past its capacity
/// instead.  An element therefore keeps its memory address for as long
/// as it stays at its index, which is what makes the type a safe
/// building block for self-referential structures.
///
/// The verified contracts speak about two quantities: the sequence of
/// stored elements (the view `self@`) and the fixed capacity
/// (`self.spec_capacity()`).  Every constructor establishes and every
/// method preserves the well-formedness predicate [`FixedVec::wf`],
/// which bounds the length by the capacity.
pub struct FixedVec<T> {
    pub(crate) data: Vec<T>,
    pub(crate) capacity: usize,
}

impl<T> View for FixedVec<T> {
    type V = Seq<T>;

    closed spec fn view(&self) -> Seq<T> {
        self.data@
    }
}

impl<T> FixedVec<T> {
    /// The number of slots the vector was created with.
    pub closed spec fn spec_capacity(&self) -> usize {
        self.capacity
    }

    /// Well-formedness: the vector never holds more elements than its
    /// fixed capacity.
    pub open spec fn wf(&self) -> bool {
        self@.len() <= self.spec_capacity()
    }

    /// Creates a new vector with the given fixed capacity.
    ///
    /// The whole backing buffer is allocated here; the vector can never
    /// grow beyond this capacity.
    pub fn new(fixed_capacity: usize) -> (vec: Self)
        ensures
            vec.wf(),
            vec@ == Seq::<T>::empty(),
            vec.spec_capacity() == fixed_capacity,
    {
        Self { data: Vec::with_capacity(fixed_capacity), capacity: fixed_capacity }
    }

    /// The number of elements currently stored.
    pub fn len(&self) -> (len: usize)
        ensures
            len == self@.len(),
    {
        self.data.len()
    }

    /// Whether the vector holds no elements.
    pub fn is_empty(&self) -> (empty: bool)
        ensures
            empty <==> self@.len() == 0,
    {
        self.data.is_empty()
    }

    /// The fixed capacity of the vector.
    pub fn capacity(&self) -> (cap: usize)
        ensures
            cap == self.spec_capacity(),
    {
        self.capacity
    }

    /// The available room for new elements: `capacity() - len()`.
    pub fn room(&self) -> (room: usize)
        requires
            self.wf(),
        ensures
            room == self.spec_capacity() - self@.len(),
    {
        self.capacity - self.data.len()
    }

    /// Whether the vector is full: `len() == capacity()`, or
    /// equivalently `room() == 0`.
    pub fn is_full(&self) -> (full: bool)
        ensures
            full <==> self@.len() == self.spec_capacity(),
    {
        self.data.len() == self.capacity
    }

    /// A slice over all stored elements.
    pub fn as_slice(&self) -> (slice: &[T])
        ensures
            slice@ == self@,
    {
        self.data.as_slice()
    }

    /// Checks that there is room for `num_new_items` more elements.
    ///
    /// A verified caller shows the room exists through the `requires`
    /// clause, and the check can never fire for it; a caller outside
    /// the verified world that breaks the obligation still stops here
    /// with a panic instead of outgrowing the buffer.
    pub fn panic_if_not_enough_room_for(&self, num_new_items: usize)
        requires
            self@.len() + num_new_items <= self.spec_capacity(),
    {
        if !(self.data.len() + num_new_items <= self.capacity) {
            None.expect(
                "FixedVec is full, a fixed capacity vector cannot exceed its initial capacity.",
            )
        }
    }

    /// Appends an element at index `len()`.
    ///
    /// The caller must show that the vector is not full; every element
    /// that was already stored keeps its index and its slot.
    pub fn push(&mut self, value: T)
        requires
            old(self)@.len() < old(self).spec_capacity(),
        ensures
            final(self).wf(),
            final(self)@ == old(self)@.push(value),
            final(self).spec_capacity() == old(self).spec_capacity(),
    {
        if self.data.len() < self.capacity {
            self.data.push(value);
        } else {
            None.expect(
                "FixedVec is full, a fixed capacity vector cannot exceed its initial capacity.",
            )
        }
    }

    /// A placeholder vector with no elements and no capacity.
    pub fn pseudo_default() -> (vec: Self)
        ensures
            vec.wf(),
            vec@ == Seq::<T>::empty(),
            vec.spec_capacity() == 0,
    {
        Self { data: Vec::new(), capacity: 0 }
    }

    /// The capacity state: always a hard fixed capacity.
    pub fn capacity_state(&self) -> (state: CapacityState)
        ensures
            state == CapacityState::FixedCapacity(self.spec_capacity()),
    {
        CapacityState::FixedCapacity(self.capacity)
    }

    /// Hands the backing vector back, with all stored elements in order.
    pub fn into_inner(self) -> (vec: Vec<T>)
        ensures
            vec@ == self@,
    {
        self.data
    }

    /// The element at `index`, or `None` past the end.
    pub fn get(&self, index: usize) -> (elem: Option<&T>)
        ensures
            index < self@.len() ==> elem.is_some() && *elem.unwrap() == self@[index as int],
            index >= self@.len() ==> elem.is_none(),
    {
        if index < self.data.len() {
            Some(&self.data[index])
        } else {
            None
        }
    }

    /// Mutable access to the element at `index`, or `None` past the end.
    pub fn get_mut(&mut self, index: usize) -> (elem: Option<&mut T>)
        requires
            old(self).wf(),
        ensures
            final(self).wf(),
            final(self).spec_capacity() == old(self).spec_capacity(),
            index < old(self)@.len() ==> elem.is_some() && *elem.unwrap() == old(self)@[index as int]
                && final(self)@ == old(self)@.update(index as int, *final(elem.unwrap())),
            index >= old(self)@.len() ==> elem.is_none() && final(self)@ == old(self)@,
    {
        if index < self.data.len() {
            Some(&mut self.data[index])
        } else {
            None
        }
    }

    /// The element at `index`, for callers that have already shown the
    /// bound: the check that the safe accessor performs at run time is
    /// the `requires` clause here.
    pub fn get_unchecked(&self, index: usize) -> (elem: &T)
        requires
            index < self@.len(),
        ensures
            *elem == self@[index as int],
    {
        &self.data[index]
    }

    /// Mutable counterpart of [`FixedVec::get_unchecked`].
    pub fn get_unchecked_mut(&mut self, index: usize) -> (elem: &mut T)
        requires
            old(self).wf(),
            index < old(self)@.len(),
        ensures
            final(self).wf(),
            final(self).spec_capacity() == old(self).spec_capacity(),
            *elem == old(self)@[index as int],
            final(self)@ == old(self)@.update(index as int, *final(elem)),
    {
        &mut self.data[index]
    }

    /// The first element, or `None` when empty.
    pub fn first(&self) -> (elem: Option<&T>)
        ensures
            self@.len() == 0 ==> elem.is_none(),
            self@.len() > 0 ==> elem.is_some() && *elem.unwrap() == self@[0],
    {
        self.data.as_slice().first()
    }

    /// The last element, or `None` when empty.
    pub fn last(&self) -> (elem: Option<&T>)
        ensures
            self@.len() == 0 ==> elem.is_none(),
            self@.len() > 0 ==> elem.is_some() && *elem.unwrap() == self@.last(),
    {
        self.data.as_slice().last()
    }

    /// The first element, for callers that have already shown the
    /// vector is not empty.
    pub fn first_unchecked(&self) -> (elem: &T)
        requires
            self@.len() > 0,
        ensures
            *elem == self@[0],
    {
        &self.data[0]
    }

    /// The last element, for callers that have already shown the
    /// vector is not empty.
    pub fn last_unchecked(&self) -> (elem: &T)
        requires
            self@.len() > 0,
        ensures
            *elem == self@.last(),
    {
        let last_index = self.data.len() - 1;
        &self.data[last_index]
    }

    /// Inserts `element` at `index`, shifting everything after it one
    /// slot to the right.
    ///
    /// The caller must show that the vector is not full and that
    /// `index` is at most the length.
    pub fn insert(&mut self, index: usize, element: T)
        requires
            old(self)@.len() < old(self).spec_capacity(),
            index <= old(self)@.len(),
        ensures
            final(self).wf(),
            final(self)@ == old(self)@.insert(index as int, element),
            final(self).spec_capacity() == old(self).spec_capacity(),
    {
        self.panic_if_not_enough_room_for(1);
        self.data.insert(index, element);
    }

    /// Removes and returns the element at `index`, shifting everything
    /// after it one slot to the left.
    pub fn remove(&mut self, index: usize) -> (elem: T)
        requires
            old(self).wf(),
            index < old(self)@.len(),
        ensures
            final(self).wf(),
            elem == old(self)@[index as int],
            final(self)@ == old(self)@.remove(index as int),
            final(self).spec_capacity() == old(self).spec_capacity(),
    {
        self.data.remove(index)
    }

    /// Removes and returns the last element, or `None` when empty.
    pub fn pop(&mut self) -> (elem: Option<T>)
        requires
            old(self).wf(),
        ensures
            final(self).wf(),
            final(self).spec_capacity() == old(self).spec_capacity(),
            old(self)@.len() > 0 ==> elem == Some(old(self)@.last())
                && final(self)@ == old(self)@.drop_last(),
            old(self)@.len() == 0 ==> elem.is_none() && final(self)@ == old(self)@,
    {
        self.data.pop()
    }

    /// Keeps the first `len` elements and drops the rest; does nothing
    /// when the vector is already at most that long.  The capacity does
    /// not shrink.
    pub fn truncate(&mut self, len: usize)
        requires
            old(self).wf(),
        ensures
            final(self).wf(),
            final(self).spec_capacity() == old(self).spec_capacity(),
            len <= old(self)@.len() ==> final(self)@ == old(self)@.subrange(0, len as int),
            len > old(self)@.len() ==> final(self)@ == old(self)@,
    {
        self.data.truncate(len);
    }

    /// Drops all elements.  The capacity does not shrink.
    pub fn clear(&mut self)
        ensures
            final(self).wf(),
            final(self)@ == Seq::<T>::empty(),
            final(self).spec_capacity() == old(self).spec_capacity(),
    {
        self.data.clear();
    }

    /// Exchanges the elements at indices `a` and `b`.
    pub fn swap(&mut self, a: usize, b: usize)
        requires
            old(self).wf(),
            a < old(self)@.len(),
            b < old(self)@.len(),
        ensures
            final(self).wf(),
            final(self).spec_capacity() == old(self).spec_capacity(),
            final(self)@ == old(self)@.update(a as int, old(self)@[b as int]).update(
                b as int,
                old(self)@[a as int],
            ),
    {
        if a != b {
            let (lo, hi) = if a < b {
                (a, b)
            } else {
                (b, a)
            };
            let x_hi = self.data.remove(hi);
            let x_lo = self.data.remove(lo);
            self.data.insert(lo, x_hi);
            self.data.insert(hi, x_lo);
            proof {
                assert(self@ =~= old(self)@.update(a as int, old(self)@[b as int]).update(
                    b as int,
                    old(self)@[a as int],
                ));
            }
        } else {
            proof {
                assert(self@ =~= old(self)@.update(a as int, old(self)@[b as int]).update(
                    b as int,
                    old(self)@[a as int],
                ));
            }
        }
    }

    /// Clones every element of `other` onto the end of the vector, in
    /// order.  The caller must show the room exists.
    pub fn extend_from_slice(&mut self, other: &[T]) where T: Clone
        requires
            old(self)@.len() + other@.len() <= old(self).spec_capacity(),
        ensures
            final(self).wf(),
            final(self).spec_capacity() == old(self).spec_capacity(),
            final(self)@.len() == old(self)@.len() + other@.len(),
            forall|i: int|
                #![trigger final(self)@[i]]
                0 <= i < final(self)@.len() ==> if i < old(self)@.len() {
                    final(self)@[i] == old(self)@[i]
                } else {
                    cloned::<T>(other@[i - old(self)@.len()], final(self)@[i])
                },
    {
        self.panic_if_not_enough_room_for(other.len());
        self.data.extend_from_slice(other);
    }

    /// Builds a vector from an already-filled buffer and a capacity
    /// that is known to cover it.
    pub(crate) fn from_parts(data: Vec<T>, capacity: usize) -> (vec: Self)
        ensures
            vec@ == data@,
            vec.spec_capacity() == capacity,
    {
        Self { data, capacity }
    }

    /// The view on the requested index range:
    ///
    /// * `None` when a non-empty part of the range falls outside the
    ///   stored elements;
    /// * `Some` of the matching slice otherwise, where an empty range
    ///   always succeeds with an empty slice, whatever its position.
    pub fn slices(&self, range: core::ops::Range<usize>) -> (slice: Option<&[T]>)
        ensures
            ({
                let resolved = spec_slices(self@, range.start as int, range.end as int);
                match slice {
                    Some(s) => resolved is Some && s@ == resolved.unwrap(),
                    None => resolved is None,
                }
            }),
    {
        let bounds = IndexRange::half_open(range.start, range.end);
        let a = range_start(&bounds);
        let b = range_end(&bounds, self.data.len());
        if b <= a {
            Some(slice_subrange(self.data.as_slice(), 0, 0))
        } else if a >= self.data.len() || b > self.data.len() {
            None
        } else {
            Some(slice_subrange(self.data.as_slice(), a, b))
        }
    }

    /// Mutable counterpart of [`FixedVec::slices`]: the same bounds
    /// policy, with a mutable slice on success.
    pub fn slices_mut(&mut self, range: core::ops::Range<usize>) -> (slice: Option<&mut [T]>)
        requires
            old(self).wf(),
        ensures
            final(self).spec_capacity() == old(self).spec_capacity(),
            ({
                let resolved = spec_slices(old(self)@, range.start as int, range.end as int);
                match slice {
                    Some(s) => resolved is Some && s@ == resolved.unwrap() && (if s@.len() == 0 {
                        final(self)@ == old(self)@
                    } else {
                        final(self)@ == old(self)@.subrange(0, range.start as int).add(
                            final(s)@,
                        ).add(old(self)@.subrange(range.end as int, old(self)@.len() as int))
                    }),
                    None => resolved is None && final(self)@ == old(self)@,
                }
            }),
    {
        let bounds = IndexRange::half_open(range.start, range.end);
        let a = range_start(&bounds);
        let b = range_end(&bounds, self.data.len());
        if b <= a {
            Some(&mut [])
        } else if a >= self.data.len() || b > self.data.len() {
            None
        } else {
            let whole = self.data.as_mut_slice();
            let (_prefix, tail) = whole.split_at_mut(a);
            let (mid, _suffix) = tail.split_at_mut(b - a);
            Some(mid)
        }
    }
}

/// What a slicing request resolves to against the stored elements `s`:
/// an empty range resolves to an empty sequence, a range that sticks
/// out of the elements to nothing, and any other range to the matching
/// subsequence.
pub open spec fn spec_slices<T>(s: Seq<T>, start: int, end: int) -> Option<Seq<T>> {
    if end <= start {
        Some(Seq::<T>::empty())
    } else if start >= s.len() || end > s.len() {
        None
    } else {
        Some(s.subrange(start, end))
    }
}

/// Relies on `Vec::capacity`: the total number of elements the vector
/// can hold without reallocating, which is never less than its length.
#[verifier::external_body]
fn vec_capacity<T>(value: &Vec<T>) -> (capacity: usize)
    ensures
        capacity >= value@.len(),
{
    value.capacity()
}

impl<T> From<Vec<T>> for FixedVec<T> {
    /// Takes the buffer over as it is, allocation and all; what the
    /// buffer had already reserved becomes the fixed capacity.  The
    /// allocation's size cannot be spoken of more precisely than
    /// "at least the length", so that bound is what the contract
    /// states.
    fn from(value: Vec<T>) -> (vec: Self)
        ensures
            vec.wf(),
            vec@ == value@,
            vec.spec_capacity() >= value@.len(),
    {
        let capacity = vec_capacity(&value);
        FixedVec { data: value, capacity }
    }
}

impl<T> vstd::std_specs::convert::FromSpecImpl<Vec<T>> for FixedVec<T> {
    open spec fn obeys_from_spec() -> bool {
        false
    }

    closed spec fn from_spec(value: Vec<T>) -> Self {
        arbitrary()
    }
}

impl<T> From<FixedVec<T>> for Vec<T> {
    /// Hands the backing buffer back, with all elements in order.
    fn from(value: FixedVec<T>) -> (vec: Vec<T>) {
        value.data
    }
}

impl<T> vstd::std_specs::convert::FromSpecImpl<FixedVec<T>> for Vec<T> {
    open spec fn obeys_from_spec() -> bool {
        true
    }

    closed spec fn from_spec(value: FixedVec<T>) -> Self {
        value.data
    }
}

/// What converting a [`FixedVec`] back into a plain vector yields: the
/// same elements, in the same order.
pub proof fn lemma_into_vec<T>(value: FixedVec<T>)
    ensures
        (<Vec<T> as vstd::std_specs::convert::FromSpec<FixedVec<T>>>::from_spec(value))@
            == value@,
{
}

} // verus!
