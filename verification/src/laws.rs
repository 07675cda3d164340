use vstd::prelude::*;

use crate::concurrent_pinned_vec::{as_slots, spec_grow_to, taken_prefix};
use crate::errors::GrowthError;
use crate::fixed_vec::{lemma_into_vec, FixedVec};

verus! {

/// Pushing never disturbs a stored element: whatever sequence of
/// pushes follows, the element at any existing index `i` stays exactly
/// where and what it was.  This is the value-level half of pinning;
/// the address-level half holds because the buffer is allocated once
/// and never reallocated.
pub proof fn lemma_push_preserves_elements<T>(elements: Seq<T>, value: T, i: int)
    requires
        0 <= i < elements.len(),
    ensures
        elements.push(value)[i] == elements[i],
{
}

/// Each push grows the length by exactly one, so after any sequence
/// of pushes into a vector with enough room, the length equals the
/// number of elements stored before plus the number of pushes made.
pub proof fn lemma_push_increments_len<T>(elements: Seq<T>, value: T)
    ensures
        elements.push(value).len() == elements.len() + 1,
{
}

/// Inserting behind an element never disturbs it: an insertion at a
/// later position leaves the element at any earlier index exactly
/// where and what it was.
pub proof fn lemma_insert_preserves_prefix<T>(elements: Seq<T>, at: int, value: T, i: int)
    requires
        0 <= i < at <= elements.len(),
    ensures
        elements.insert(at, value)[i] == elements[i],
{
}

/// Round trip through the plain backing vector: whatever
/// `FixedVec::from` returns for a vector's plain backing form holds
/// the very same elements, in the same order and number, and a
/// capacity that still covers them all.  The premise is exactly what
/// the two conversions ensure, so any round trip satisfies it.
pub proof fn lemma_round_trip<T>(vec: FixedVec<T>, back: FixedVec<T>)
    requires
        call_ensures(
            <FixedVec<T> as From<Vec<T>>>::from,
            (<Vec<T> as vstd::std_specs::convert::FromSpec<FixedVec<T>>>::from_spec(vec),),
            back,
        ),
    ensures
        back@ == vec@,
        back@.len() == vec@.len(),
        back.spec_capacity() >= vec@.len(),
        back.wf(),
{
    lemma_into_vec(vec);
}

/// Round trip through the concurrent view: handing a vector of
/// elements over slot by slot and taking the written prefix back
/// yields the very same elements in the same order.
pub proof fn lemma_concurrent_round_trip<T>(elements: Seq<T>, capacity: nat)
    requires
        elements.len() <= capacity,
    ensures
        taken_prefix(as_slots(elements, capacity), elements.len()) == elements,
{
    assert(taken_prefix(as_slots(elements, capacity), elements.len()) =~= elements);
}

/// Writes to distinct slots commute: when two writers fill disjoint
/// indices, the order in which their writes land does not change the
/// resulting row of slots.  This is why a partition of the index range
/// among writers needs no synchronization on the buffer.
pub proof fn lemma_disjoint_writes_commute<T>(
    slots: Seq<Option<T>>,
    i: int,
    j: int,
    x: T,
    y: T,
)
    requires
        0 <= i < slots.len(),
        0 <= j < slots.len(),
        i != j,
    ensures
        slots.update(i, Some(x)).update(j, Some(y)) == slots.update(j, Some(y)).update(
            i,
            Some(x),
        ),
{
    assert(slots.update(i, Some(x)).update(j, Some(y)) =~= slots.update(j, Some(y)).update(
        i,
        Some(x),
    ));
}

/// Once every slot holds its intended value, draining the row in slot
/// order yields exactly those values: writing by index and reading in
/// order agree, however the writes were interleaved.
pub proof fn lemma_filled_drain<T>(slots: Seq<Option<T>>, values: Seq<T>)
    requires
        slots.len() == values.len(),
        forall|k: int| 0 <= k < slots.len() ==> slots[k] == Some(values[k]),
    ensures
        taken_prefix(slots, slots.len()) == values,
{
    assert(taken_prefix(slots, slots.len()) =~= values);
}

/// Capped growth is idempotent: a request that fits is granted the
/// unchanged capacity, and granting the same request again against
/// that capacity yields the same answer.  No slot is touched either
/// time, so every written element keeps its slot and its address.
pub proof fn lemma_grow_to_idempotent(capacity: usize, new_capacity: usize)
    requires
        new_capacity <= capacity,
    ensures
        spec_grow_to(capacity, new_capacity) == Ok::<usize, GrowthError>(capacity),
        spec_grow_to(spec_grow_to(capacity, new_capacity).unwrap(), new_capacity)
            == spec_grow_to(capacity, new_capacity),
{
}

} // verus!
