use fixed_vec::{range_end, range_start, FixedVec, IndexBound, IndexRange};

#[test]
fn range_start_end() {
    fn test(vec: FixedVec<usize>) {
        assert_eq!(10, range_start(&IndexRange::half_open(10, 20)));
        assert_eq!(10, range_start(&IndexRange::inclusive(10, 20)));
        assert_eq!(0, range_start(&IndexRange::up_to(20)));
        assert_eq!(10, range_start(&IndexRange::starting_at(10)));
        assert_eq!(0, range_start(&IndexRange::full()));

        assert_eq!(20, range_end(&IndexRange::half_open(10, 20), vec.len()));
        assert_eq!(21, range_end(&IndexRange::inclusive(10, 20), vec.len()));
        assert_eq!(20, range_end(&IndexRange::up_to(20), vec.len()));
        assert_eq!(vec.len(), range_end(&IndexRange::starting_at(10), vec.len()));
        assert_eq!(vec.len(), range_end(&IndexRange::full(), vec.len()));
    }

    test(FixedVec::new(100));
    test(FixedVec::new(20));
}

#[test]
fn range_bound_forms() {
    let range = IndexRange {
        start: IndexBound::Excluded(4),
        end: IndexBound::Included(9),
    };
    assert_eq!(5, range_start(&range));
    assert_eq!(10, range_end(&range, 100));
}
