use vstd::prelude::*;

verus! {

/// One endpoint of an index range.
///
/// A range expression can name an endpoint that belongs to the range,
/// one that lies just outside it, or no endpoint at all; the three
/// variants keep those cases apart.
#[derive(Clone, Copy, PartialEq, Eq, Structural, Debug)]
pub enum IndexBound {
    /// The endpoint is part of the range.
    Included(usize),
    /// The endpoint lies just outside the range.
    Excluded(usize),
    /// The range is open on this side.
    Unbounded,
}

/// A range of indices given by its two endpoints.
///
/// Every slicing operation of the crate resolves such a range into a
/// half-open pair `[start, end)` with [`range_start`] and [`range_end`].
#[derive(Clone, Copy, PartialEq, Eq, Structural, Debug)]
pub struct IndexRange {
    /// The lower endpoint.
    pub start: IndexBound,
    /// The upper endpoint.
    pub end: IndexBound,
}

impl IndexRange {
    /// The range `start..end`.
    pub fn half_open(start: usize, end: usize) -> (r: Self)
        ensures
            r == (IndexRange {
                start: IndexBound::Included(start),
                end: IndexBound::Excluded(end),
            }),
    {
        IndexRange { start: IndexBound::Included(start), end: IndexBound::Excluded(end) }
    }

    /// The range `start..=end`.
    pub fn inclusive(start: usize, end: usize) -> (r: Self)
        ensures
            r == (IndexRange {
                start: IndexBound::Included(start),
                end: IndexBound::Included(end),
            }),
    {
        IndexRange { start: IndexBound::Included(start), end: IndexBound::Included(end) }
    }

    /// The range `start..`.
    pub fn starting_at(start: usize) -> (r: Self)
        ensures
            r == (IndexRange { start: IndexBound::Included(start), end: IndexBound::Unbounded }),
    {
        IndexRange { start: IndexBound::Included(start), end: IndexBound::Unbounded }
    }

    /// The range `..end`.
    pub fn up_to(end: usize) -> (r: Self)
        ensures
            r == (IndexRange { start: IndexBound::Unbounded, end: IndexBound::Excluded(end) }),
    {
        IndexRange { start: IndexBound::Unbounded, end: IndexBound::Excluded(end) }
    }

    /// The range `..`.
    pub fn full() -> (r: Self)
        ensures
            r == (IndexRange { start: IndexBound::Unbounded, end: IndexBound::Unbounded }),
    {
        IndexRange { start: IndexBound::Unbounded, end: IndexBound::Unbounded }
    }
}

/// The inclusive lower bound that a range resolves to: `0` when the
/// range is open below.
pub open spec fn spec_range_start(range: IndexRange) -> int {
    match range.start {
        IndexBound::Included(x) => x as int,
        IndexBound::Excluded(x) => x + 1,
        IndexBound::Unbounded => 0,
    }
}

/// The exclusive upper bound that a range resolves to against a vector
/// of length `vec_len`: the length itself when the range is open above.
pub open spec fn spec_range_end(range: IndexRange, vec_len: usize) -> int {
    match range.end {
        IndexBound::Excluded(x) => x as int,
        IndexBound::Included(x) => x + 1,
        IndexBound::Unbounded => vec_len as int,
    }
}

/// Resolves the lower endpoint of `range` to a concrete index.
pub fn range_start(range: &IndexRange) -> (start: usize)
    requires
        range.start matches IndexBound::Excluded(x) ==> x < usize::MAX,
    ensures
        start == spec_range_start(*range),
{
    match range.start {
        IndexBound::Included(x) => x,
        IndexBound::Excluded(x) => x + 1,
        IndexBound::Unbounded => 0,
    }
}

/// Resolves the upper endpoint of `range` to a concrete exclusive index
/// against a vector of length `vec_len`.
pub fn range_end(range: &IndexRange, vec_len: usize) -> (end: usize)
    requires
        range.end matches IndexBound::Included(x) ==> x < usize::MAX,
    ensures
        end == spec_range_end(*range, vec_len),
{
    match range.end {
        IndexBound::Excluded(x) => x,
        IndexBound::Included(x) => x + 1,
        IndexBound::Unbounded => vec_len,
    }
}

} // verus!
