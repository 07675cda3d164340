use vstd::prelude::*;

verus! {

/// Why a capacity-growth request was turned down.
///
/// Growth failures are reported, not fatal: the caller may retry with a
/// smaller request or fall back to another structure.
#[derive(Clone, Copy, Debug, PartialEq, Eq, Structural)]
pub enum GrowthError {
    /// The requested capacity exceeds what can be granted without moving
    /// the elements that are already stored.
    FailedToGrowWhileKeepingElementsPinned,
    /// Growth was requested before the vector had used up its current
    /// capacity.
    CanOnlyGrowWhenAtCapacity,
}

/// How the capacity of a vector may evolve.
///
/// A fixed vector can never grow, so its state carries the one hard
/// capacity bound it was created with.
#[derive(Clone, Copy, Debug, PartialEq, Eq, Structural)]
pub enum CapacityState {
    /// The capacity is a hard constraint fixed at construction.
    FixedCapacity(usize),
}

} // verus!
