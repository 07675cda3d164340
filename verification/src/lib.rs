//! A fixed-capacity vector whose elements stay pinned in place.
//!
//! [`FixedVec`] owns one contiguous allocation whose size is chosen at
//! construction and never changes afterwards.  Because the buffer is never
//! reallocated, the address of an element never changes while the element
//! stays at its index; the verified contracts state the value-level side of
//! that guarantee: no operation moves or rewrites an element unless its own
//! contract says so.
//!
//! [`ConcurrentFixedVec`] is the companion view for filling disjoint slots
//! out of order.  Its slots start out empty, each slot can be written
//! independently, and once a caller asserts how many leading slots are
//! filled, the view converts back into a [`FixedVec`].

mod common_traits;
mod concurrent_pinned_vec;
mod errors;
mod fixed_vec;
mod into_iter;
mod laws;
mod pinned_vec;
mod range;

pub use concurrent_pinned_vec::{as_slots, spec_grow_to, taken_prefix, ConcurrentFixedVec};
pub use errors::{CapacityState, GrowthError};
pub use fixed_vec::{lemma_into_vec, spec_slices, FixedVec};
pub use into_iter::{slot_window, ConcurrentFixedVecIntoIter};
pub use laws::{
    lemma_concurrent_round_trip, lemma_disjoint_writes_commute, lemma_filled_drain,
    lemma_grow_to_idempotent, lemma_insert_preserves_prefix, lemma_push_increments_len,
    lemma_push_preserves_elements,
    lemma_round_trip,
};
pub use range::{range_end, range_start, IndexBound, IndexRange};
