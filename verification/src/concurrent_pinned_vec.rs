use vstd::prelude::*;

use crate::errors::GrowthError;
use crate::fixed_vec::FixedVec;
use crate::into_iter::{slot_window, ConcurrentFixedVecIntoIter};
use crate::range::{range_end, range_start, IndexRange};

verus! {

/// The slot layout that a [`FixedVec`] hands over to its concurrent
/// view: one slot per unit of capacity, the stored elements first and
/// an empty slot for every unit of remaining room.
pub open spec fn as_slots<T>(elements: Seq<T>, capacity: nat) -> Seq<Option<T>> {
    Seq::new(
        capacity,
        |i: int|
            if i < elements.len() {
                Some(elements[i])
            } else {
                None
            },
    )
}

/// The elements that the first `len` slots hold, in slot order.
pub open spec fn taken_prefix<T>(slots: Seq<Option<T>>, len: nat) -> Seq<T> {
    Seq::new(len, |i: int| slots[i].unwrap())
}

/// The capacity granted by a capped growth request: the full capacity
/// when the request fits into it, and a refusal otherwise.  Capped
/// growth never moves the allocation, so the capacity itself never
/// changes.
pub open spec fn spec_grow_to(capacity: usize, new_capacity: usize) -> Result<
    usize,
    GrowthError,
> {
    if new_capacity <= capacity {
        Ok(capacity)
    } else {
        Err(GrowthError::FailedToGrowWhileKeepingElementsPinned)
    }
}

/// The concurrent companion of [`FixedVec`]: a row of independent
/// slots, one per unit of capacity.
///
/// A slot starts out empty and is written on its own, with no regard
/// for the order of the other slots; that models filling a buffer of
/// reserved positions out of order.  The view `self@` is the sequence
/// of slots, `Some` for a written slot and `None` for one that still
/// awaits its value, and the capacity is the number of slots,
/// `self@.len()`.
pub struct ConcurrentFixedVec<T> {
    pub(crate) slots: Vec<Option<T>>,
}

impl<T> View for ConcurrentFixedVec<T> {
    type V = Seq<Option<T>>;

    closed spec fn view(&self) -> Seq<Option<T>> {
        self.slots@
    }
}

impl<T> FixedVec<T> {
    /// Hands the vector over to its concurrent view.
    ///
    /// Every stored element keeps its slot; the slots that the
    /// remaining room covers start out empty.
    pub fn into_concurrent(self) -> (con: ConcurrentFixedVec<T>)
        requires
            self.wf(),
        ensures
            con@ == as_slots(self@, self.spec_capacity() as nat),
    {
        let capacity = self.capacity();
        let ghost initial = self@;
        let mut data = self.into_inner();
        let mut rev: Vec<T> = Vec::new();
        while data.len() > 0
            invariant
                data@ == initial.subrange(0, data@.len() as int),
                rev@.len() + data@.len() == initial.len(),
                forall|k: int|
                    0 <= k < rev@.len() ==> rev@[k] == initial[initial.len() - 1 - k],
            decreases data@.len(),
        {
            let value = data.pop().unwrap();
            rev.push(value);
        }
        let mut slots: Vec<Option<T>> = Vec::with_capacity(capacity);
        while rev.len() > 0
            invariant
                slots@.len() + rev@.len() == initial.len(),
                forall|k: int|
                    0 <= k < rev@.len() ==> rev@[k] == initial[initial.len() - 1 - k],
                forall|k: int| 0 <= k < slots@.len() ==> slots@[k] == Some(initial[k]),
            decreases rev@.len(),
        {
            let value = rev.pop().unwrap();
            slots.push(Some(value));
        }
        while slots.len() < capacity
            invariant
                initial.len() <= slots@.len() <= capacity,
                forall|k: int| 0 <= k < initial.len() ==> slots@[k] == Some(initial[k]),
                forall|k: int| initial.len() <= k < slots@.len() ==> slots@[k] is None,
            decreases capacity - slots@.len(),
        {
            slots.push(None);
        }
        let con = ConcurrentFixedVec { slots };
        proof {
            assert(con@ =~= as_slots(initial, capacity as nat));
        }
        con
    }

    /// Hands the vector over to its concurrent view and fills every
    /// slot that the remaining room covers with a generated value, so
    /// that all slots start out written.
    pub fn into_concurrent_filled_with<F: Fn() -> T>(self, fill_with: F) -> (con:
        ConcurrentFixedVec<T>)
        requires
            self.wf(),
            fill_with.requires(()),
        ensures
            con@.len() == self.spec_capacity(),
            forall|i: int| 0 <= i < self@.len() ==> con@[i] == Some(self@[i]),
            forall|i: int|
                self@.len() <= i < con@.len() ==> con@[i] is Some && call_ensures(
                    fill_with,
                    (),
                    con@[i].unwrap(),
                ),
    {
        let len = self.len();
        let capacity = self.capacity();
        let mut con = self.into_concurrent();
        con.fill_with(len..capacity, fill_with);
        con
    }
}

impl<T> ConcurrentFixedVec<T> {
    /// The number of slots that may currently be written.
    pub fn capacity(&self) -> (cap: usize)
        ensures
            cap == self@.len(),
    {
        self.slots.len()
    }

    /// The number of slots the allocation can ever offer; the whole
    /// allocation is handed over at construction, so this equals
    /// [`ConcurrentFixedVec::capacity`].
    pub fn max_capacity(&self) -> (cap: usize)
        ensures
            cap == self@.len(),
    {
        self.slots.len()
    }

    /// Stores `value` in the slot at `index`, independently of every
    /// other slot.
    ///
    /// This is the per-slot write of the concurrent protocol: each
    /// index is an independent cell, so writes to distinct indices
    /// never disturb one another.  The caller must keep `index` within
    /// the capacity.
    pub fn write(&mut self, index: usize, value: T)
        requires
            index < old(self)@.len(),
        ensures
            final(self)@ == old(self)@.update(index as int, Some(value)),
    {
        if index < self.slots.len() {
            self.slots[index] = Some(value);
        } else {
            unreached::<()>()
        }
    }

    /// The element in the slot at `index`, or `None` past the
    /// capacity.  A slot that is read must already have been written.
    pub fn get(&self, index: usize) -> (elem: Option<&T>)
        requires
            index < self@.len() ==> self@[index as int] is Some,
        ensures
            index < self@.len() ==> elem.is_some() && Some(*elem.unwrap()) == self@[index as int],
            index >= self@.len() ==> elem.is_none(),
    {
        if index < self.slots.len() {
            self.slots[index].as_ref()
        } else {
            None
        }
    }

    /// Mutable access to the element in the slot at `index`, or `None`
    /// past the capacity.  A slot that is handed out must already have
    /// been written.
    pub fn get_mut(&mut self, index: usize) -> (elem: Option<&mut T>)
        requires
            index < old(self)@.len() ==> old(self)@[index as int] is Some,
        ensures
            index < old(self)@.len() ==> elem.is_some() && Some(*elem.unwrap())
                == old(self)@[index as int] && final(self)@ == old(self)@.update(
                index as int,
                Some(*final(elem.unwrap())),
            ),
            index >= old(self)@.len() ==> elem.is_none() && final(self)@ == old(self)@,
    {
        if index < self.slots.len() {
            self.slots[index].as_mut()
        } else {
            None
        }
    }

    /// Grants a capped growth request: `Ok` with the unchanged
    /// capacity when `new_capacity` fits into it, an error otherwise.
    ///
    /// The whole allocation was reserved at construction, so granting
    /// a request never moves an element and never changes a slot; the
    /// vector itself is not even touched.
    pub fn grow_to(&self, new_capacity: usize) -> (result: Result<usize, GrowthError>)
        ensures
            result == spec_grow_to((self@.len() as usize), new_capacity),
    {
        if new_capacity <= self.slots.len() {
            Ok(self.slots.len())
        } else {
            Err(GrowthError::FailedToGrowWhileKeepingElementsPinned)
        }
    }

    /// The same decision as [`ConcurrentFixedVec::grow_to`]; the
    /// generator is never needed, because a granted request never
    /// uncovers a slot that was not already reachable.
    pub fn grow_to_and_fill_with<F: Fn() -> T>(&self, new_capacity: usize, _fill_with: F) -> (result:
        Result<usize, GrowthError>)
        ensures
            result == spec_grow_to((self@.len() as usize), new_capacity),
    {
        if new_capacity <= self.slots.len() {
            Ok(self.slots.len())
        } else {
            Err(GrowthError::FailedToGrowWhileKeepingElementsPinned)
        }
    }

    /// Writes a generated value into every slot of `range`, leaving
    /// all other slots as they were.
    pub fn fill_with<F: Fn() -> T>(&mut self, range: core::ops::Range<usize>, fill_with: F)
        requires
            range.start < range.end ==> range.end <= old(self)@.len(),
            fill_with.requires(()),
        ensures
            final(self)@.len() == old(self)@.len(),
            forall|i: int|
                range.start <= i < range.end ==> final(self)@[i] is Some && call_ensures(
                    fill_with,
                    (),
                    final(self)@[i].unwrap(),
                ),
            forall|i: int|
                0 <= i < old(self)@.len() && !(range.start <= i < range.end)
                    ==> final(self)@[i] == old(self)@[i],
    {
        let end = range.end;
        let mut i = range.start;
        while i < end
            invariant
                range.start <= i,
                i <= end || i == range.start,
                i < end ==> end <= self@.len(),
                self@.len() == old(self)@.len(),
                fill_with.requires(()),
                forall|k: int|
                    range.start <= k < i ==> self@[k] is Some && call_ensures(
                        fill_with,
                        (),
                        self@[k].unwrap(),
                    ),
                forall|k: int|
                    0 <= k < old(self)@.len() && !(range.start <= k < i)
                        ==> self@[k] == old(self)@[k],
            decreases end - i,
        {
            let value = fill_with();
            self.slots[i] = Some(value);
            i += 1;
        }
    }

    /// References to the elements in the slots of the requested range:
    ///
    /// * `None` when a non-empty part of the range falls outside the
    ///   capacity;
    /// * `Some` of one reference per slot otherwise, where an empty
    ///   range always succeeds with no references, whatever its
    ///   position.  Every slot of a non-empty range must already have
    ///   been written.
    pub fn slices(&self, range: core::ops::Range<usize>) -> (view: Option<Vec<&T>>)
        requires
            range.start < range.end <= self@.len() ==> forall|i: int|
                range.start <= i < range.end ==> self@[i] is Some,
        ensures
            ({
                let a = range.start as int;
                let b = range.end as int;
                let cap = self@.len() as int;
                if b <= a {
                    view matches Some(refs) && refs@.len() == 0
                } else if a >= cap || b > cap {
                    view is None
                } else {
                    view matches Some(refs) && refs@.len() == b - a && forall|k: int|
                        0 <= k < b - a ==> self@[a + k] == Some(*refs@[k])
                }
            }),
    {
        let bounds = IndexRange::half_open(range.start, range.end);
        let a = range_start(&bounds);
        let b = range_end(&bounds, self.slots.len());
        if b <= a {
            Some(Vec::new())
        } else if a >= self.slots.len() || b > self.slots.len() {
            None
        } else {
            let mut refs: Vec<&T> = Vec::new();
            let mut i = a;
            while i < b
                invariant
                    a <= i <= b <= self@.len(),
                    forall|j: int| a <= j < b ==> self@[j] is Some,
                    refs@.len() == i - a,
                    forall|k: int| 0 <= k < refs@.len() ==> self@[a + k] == Some(*refs@[k]),
                decreases b - i,
            {
                match &self.slots[i] {
                    Some(value) => refs.push(value),
                    None => {
                        proof {
                            assert(false);
                        }
                    },
                }
                i += 1;
            }
            Some(refs)
        }
    }

    /// Mutable access to the slots of the requested range, with the
    /// same bounds policy as [`ConcurrentFixedVec::slices`]: the
    /// returned view covers the raw slots, written or not, so a caller
    /// may fill them in any order.
    pub fn slices_mut(&mut self, range: core::ops::Range<usize>) -> (view: Option<
        &mut [Option<T>],
    >)
        ensures
            ({
                let a = range.start as int;
                let b = range.end as int;
                let cap = old(self)@.len() as int;
                if b <= a {
                    view matches Some(s) && s@.len() == 0 && final(self)@ == old(self)@
                } else if a >= cap || b > cap {
                    view is None && final(self)@ == old(self)@
                } else {
                    view matches Some(s) && s@ == old(self)@.subrange(a, b) && final(self)@ == old(
                        self,
                    )@.subrange(0, a).add(final(s)@).add(old(self)@.subrange(b, cap))
                }
            }),
    {
        let bounds = IndexRange::half_open(range.start, range.end);
        let a = range_start(&bounds);
        let b = range_end(&bounds, self.slots.len());
        if b <= a {
            Some(&mut [])
        } else if a >= self.slots.len() || b > self.slots.len() {
            None
        } else {
            let whole = self.slots.as_mut_slice();
            let (_prefix, tail) = whole.split_at_mut(a);
            let (mid, _suffix) = tail.split_at_mut(b - a);
            Some(mid)
        }
    }

    /// References to the elements in the first `len` slots, which must
    /// all have been written.
    pub fn iter(&self, len: usize) -> (refs: Vec<&T>)
        requires
            len <= self@.len(),
            forall|i: int| 0 <= i < len ==> self@[i] is Some,
        ensures
            refs@.len() == len,
            forall|k: int| 0 <= k < len ==> self@[k] == Some(*refs@[k]),
    {
        let mut refs: Vec<&T> = Vec::new();
        let mut i: usize = 0;
        while i < len
            invariant
                i <= len <= self@.len(),
                forall|j: int| 0 <= j < len ==> self@[j] is Some,
                refs@.len() == i,
                forall|k: int| 0 <= k < refs@.len() ==> self@[k] == Some(*refs@[k]),
            decreases len - i,
        {
            match &self.slots[i] {
                Some(value) => refs.push(value),
                None => {
                    proof {
                        assert(false);
                    }
                },
            }
            i += 1;
        }
        refs
    }

    /// Ends the concurrent phase: the caller asserts that exactly the
    /// first `len` slots were written, and gets the fixed vector back
    /// with those elements in slot order and the capacity unchanged.
    pub fn into_inner(self, len: usize) -> (vec: FixedVec<T>)
        requires
            len <= self@.len(),
            forall|i: int| 0 <= i < len ==> self@[i] is Some,
        ensures
            vec.wf(),
            vec.spec_capacity() == self@.len(),
            vec@ == taken_prefix(self@, len as nat),
    {
        let ghost initial = self@;
        let mut slots = self.slots;
        let capacity = slots.len();
        slots.truncate(len);
        let mut data: Vec<T> = Vec::with_capacity(capacity);
        let mut rev: Vec<T> = Vec::new();
        while slots.len() > 0
            invariant
                slots@.len() <= len,
                forall|k: int| 0 <= k < slots@.len() ==> slots@[k] == initial[k],
                forall|i: int| 0 <= i < len ==> initial[i] is Some,
                rev@.len() + slots@.len() == len,
                forall|k: int| 0 <= k < rev@.len() ==> rev@[k] == initial[len - 1 - k].unwrap(),
            decreases slots@.len(),
        {
            proof {
                assert(slots@[slots@.len() - 1] == initial[slots@.len() - 1]);
                assert(initial[slots@.len() - 1] is Some);
            }
            let slot = slots.pop().unwrap();
            let value = slot.unwrap();
            rev.push(value);
        }
        while rev.len() > 0
            invariant
                data@.len() + rev@.len() == len,
                forall|k: int| 0 <= k < rev@.len() ==> rev@[k] == initial[len - 1 - k].unwrap(),
                forall|k: int| 0 <= k < data@.len() ==> data@[k] == initial[k].unwrap(),
                len <= capacity,
            decreases rev@.len(),
        {
            let value = rev.pop().unwrap();
            data.push(value);
        }
        let vec = FixedVec::from_parts(data, capacity);
        proof {
            assert(vec@ =~= taken_prefix(initial, len as nat));
        }
        vec
    }

    /// An independent deep copy of the first `len` slots, which must
    /// all have been written, into a fresh view of the same capacity;
    /// the remaining slots of the copy start out empty.
    pub fn clone_with_len(&self, len: usize) -> (clone: Self) where T: Clone
        requires
            len <= self@.len(),
            forall|i: int| 0 <= i < len ==> self@[i] is Some,
        ensures
            clone@.len() == self@.len(),
            forall|i: int|
                0 <= i < len ==> clone@[i] is Some && cloned::<T>(
                    self@[i].unwrap(),
                    clone@[i].unwrap(),
                ),
            forall|i: int| len <= i < clone@.len() ==> clone@[i] is None,
    {
        let full_capacity = self.slots.len();
        let mut slots: Vec<Option<T>> = Vec::with_capacity(full_capacity);
        let mut i: usize = 0;
        while i < len
            invariant
                i <= len <= self@.len(),
                forall|j: int| 0 <= j < len ==> self@[j] is Some,
                slots@.len() == i,
                forall|k: int|
                    0 <= k < slots@.len() ==> slots@[k] is Some && cloned::<T>(
                        self@[k].unwrap(),
                        slots@[k].unwrap(),
                    ),
            decreases len - i,
        {
            match &self.slots[i] {
                Some(value) => {
                    let copy = value.clone();
                    slots.push(Some(copy));
                },
                None => {
                    proof {
                        assert(false);
                    }
                },
            }
            i += 1;
        }
        while slots.len() < self.slots.len()
            invariant
                len <= slots@.len() <= self@.len(),
                forall|k: int|
                    0 <= k < len ==> slots@[k] is Some && cloned::<T>(
                        self@[k].unwrap(),
                        slots@[k].unwrap(),
                    ),
                forall|k: int| len <= k < slots@.len() ==> slots@[k] is None,
            decreases self@.len() - slots@.len(),
        {
            slots.push(None);
        }
        ConcurrentFixedVec { slots }
    }

    /// Widens the row of slots so that at least `new_maximum_capacity`
    /// of them exist; the slots that already existed are untouched and
    /// the new ones start out empty.  Returns the new capacity.
    ///
    /// This operation holds the view exclusively, so no element is
    /// pinned from the outside while the allocation may move.
    pub fn reserve_maximum_concurrent_capacity(
        &mut self,
        _current_len: usize,
        new_maximum_capacity: usize,
    ) -> (cap: usize)
        ensures
            cap == final(self)@.len(),
            final(self)@.len() == if new_maximum_capacity >= old(self)@.len() {
                new_maximum_capacity as int
            } else {
                old(self)@.len() as int
            },
            forall|i: int| 0 <= i < old(self)@.len() ==> final(self)@[i] == old(self)@[i],
            forall|i: int| old(self)@.len() <= i < final(self)@.len() ==> final(self)@[i] is None,
    {
        while self.slots.len() < new_maximum_capacity
            invariant
                old(self)@.len() <= self@.len(),
                self@.len() <= old(self)@.len() || self@.len() <= new_maximum_capacity,
                forall|i: int| 0 <= i < old(self)@.len() ==> self@[i] == old(self)@[i],
                forall|i: int| old(self)@.len() <= i < self@.len() ==> self@[i] is None,
            decreases new_maximum_capacity - self@.len(),
        {
            self.slots.push(None);
        }
        self.slots.len()
    }

    /// Widens the row of slots as
    /// [`ConcurrentFixedVec::reserve_maximum_concurrent_capacity`]
    /// does, and then writes a generated value into every slot from
    /// `current_len` on, so that all slots beyond the kept prefix are
    /// written.  Returns the new capacity.
    pub fn reserve_maximum_concurrent_capacity_fill_with<F: Fn() -> T>(
        &mut self,
        current_len: usize,
        new_maximum_capacity: usize,
        fill_with: F,
    ) -> (cap: usize)
        requires
            current_len <= old(self)@.len(),
            fill_with.requires(()),
        ensures
            cap == final(self)@.len(),
            final(self)@.len() == if new_maximum_capacity >= old(self)@.len() {
                new_maximum_capacity as int
            } else {
                old(self)@.len() as int
            },
            forall|i: int| 0 <= i < current_len ==> final(self)@[i] == old(self)@[i],
            forall|i: int|
                current_len <= i < final(self)@.len() ==> final(self)@[i] is Some && call_ensures(
                    fill_with,
                    (),
                    final(self)@[i].unwrap(),
                ),
    {
        let cap = self.reserve_maximum_concurrent_capacity(current_len, new_maximum_capacity);
        self.fill_with(current_len..cap, fill_with);
        cap
    }

    /// Hands the row of slots over to an owning iterator that walks
    /// the written range `[range.start, range.end)` and moves each of
    /// its elements out in turn.
    pub fn into_iter(self, range: core::ops::Range<usize>) -> (iter: ConcurrentFixedVecIntoIter<
        T,
    >)
        requires
            range.start <= range.end <= self@.len(),
            forall|i: int| range.start <= i < range.end ==> self@[i] is Some,
        ensures
            iter.wf(),
            iter.remaining() == slot_window(self@, range.start as int, range.end as int),
    {
        ConcurrentFixedVecIntoIter::new(self.slots, range)
    }

    /// Empties every slot.  The capacity does not shrink, so the row
    /// can be filled again; `prior_len` names the prefix that was
    /// filled so far.
    pub fn clear(&mut self, prior_len: usize)
        requires
            prior_len <= old(self)@.len(),
        ensures
            final(self)@.len() == old(self)@.len(),
            forall|i: int| 0 <= i < final(self)@.len() ==> final(self)@[i] is None,
    {
        let capacity = self.slots.len();
        self.slots.clear();
        while self.slots.len() < capacity
            invariant
                self@.len() <= capacity,
                forall|i: int| 0 <= i < self@.len() ==> self@[i] is None,
            decreases capacity - self@.len(),
        {
            self.slots.push(None);
        }
    }
}

} // verus!
