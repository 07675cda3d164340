use vstd::prelude::*;

verus! {

/// The elements held by the slots `[start, end)`, in slot order.
pub open spec fn slot_window<T>(slots: Seq<Option<T>>, start: int, end: int) -> Seq<T> {
    Seq::new((end - start) as nat, |k: int| slots[start + k].unwrap())
}

/// An owning iterator over a written sub-range of a row of slots.
///
/// The iterator takes the whole row over but walks only `[start, end)`
/// of it, moving each element out in turn.  Whatever is not consumed
/// when the iterator goes away is still owned by it, so the unconsumed
/// suffix is released with the iterator itself; nothing is released
/// twice and nothing is leaked.
pub struct ConcurrentFixedVecIntoIter<T> {
    data: Vec<Option<T>>,
    current: usize,
    end_exclusive: usize,
}

impl<T> ConcurrentFixedVecIntoIter<T> {
    /// Well-formedness: the cursor stays inside the walked range, the
    /// range stays inside the row, and every slot still to be visited
    /// holds an element.
    pub closed spec fn wf(&self) -> bool {
        self.current <= self.end_exclusive <= self.data@.len() && forall|i: int|
            self.current <= i < self.end_exclusive ==> self.data@[i] is Some
    }

    /// The elements the iterator will still return, in order.
    pub closed spec fn remaining(&self) -> Seq<T> {
        slot_window(self.data@, self.current as int, self.end_exclusive as int)
    }

    /// Takes the row of slots over and prepares to walk `range`, every
    /// slot of which must hold an element.
    pub fn new(data: Vec<Option<T>>, range: core::ops::Range<usize>) -> (iter: Self)
        requires
            range.start <= range.end <= data@.len(),
            forall|i: int| range.start <= i < range.end ==> data@[i] is Some,
        ensures
            iter.wf(),
            iter.remaining() == slot_window(data@, range.start as int, range.end as int),
    {
        Self { data, current: range.start, end_exclusive: range.end }
    }

    /// Moves the next element out and hands it over, or reports the
    /// end of the walked range with `None`.
    pub fn next(&mut self) -> (elem: Option<T>)
        requires
            old(self).wf(),
        ensures
            final(self).wf(),
            old(self).remaining().len() > 0 ==> elem == Some(old(self).remaining()[0])
                && final(self).remaining() == old(self).remaining().drop_first(),
            old(self).remaining().len() == 0 ==> elem.is_none() && final(self).remaining() == old(
                self,
            ).remaining(),
    {
        if self.current < self.end_exclusive {
            let slot = self.data[self.current].take();
            let value = slot.unwrap();
            self.current = self.current + 1;
            proof {
                assert(self.remaining() =~= old(self).remaining().drop_first());
            }
            Some(value)
        } else {
            None
        }
    }

    /// How many elements are still to come.
    pub fn len(&self) -> (len: usize)
        requires
            self.wf(),
        ensures
            len == self.remaining().len(),
    {
        self.end_exclusive - self.current
    }

    /// The lower and upper bound on the elements still to come; both
    /// are exact.
    pub fn size_hint(&self) -> (hint: (usize, Option<usize>))
        requires
            self.wf(),
        ensures
            hint.0 == self.remaining().len(),
            hint.1 == Some(self.remaining().len() as usize),
    {
        let len = self.end_exclusive - self.current;
        (len, Some(len))
    }
}

} // verus!
