use fixed_vec::{ConcurrentFixedVecIntoIter, FixedVec};

fn drain_count(mut iter: ConcurrentFixedVecIntoIter<String>) -> usize {
    let mut count = 0;
    while iter.next().is_some() {
        count += 1;
    }
    count
}

#[test]
fn into_iter_empty() {
    let iter = || {
        let data: Vec<_> = (0..0).map(|x: usize| Some(x.to_string())).collect();
        let range = 0..data.len();
        ConcurrentFixedVecIntoIter::new(data, range)
    };

    let consume_all = drain_count(iter());
    assert_eq!(consume_all, 0);

    let mut consume_half = iter();
    for _ in 0..10 {
        _ = consume_half.next();
    }

    let _consume_none = iter();
}

#[test]
fn into_iter_non_taken() {
    let iter = || {
        let data: Vec<_> = (0..20).map(|x| Some(x.to_string())).collect();
        let range = 0..data.len();
        ConcurrentFixedVecIntoIter::new(data, range)
    };

    let consume_all = drain_count(iter());
    assert_eq!(consume_all, 20);

    let mut consume_half = iter();
    for _ in 0..10 {
        _ = consume_half.next();
    }

    let _consume_none = iter();
}

#[test]
fn into_iter_taken_from_beg() {
    let iter = || {
        let data: Vec<_> = (0..20)
            .map(|x| if x < 5 { None } else { Some(x.to_string()) })
            .collect::<Vec<_>>();
        let range = 5..data.len();

        ConcurrentFixedVecIntoIter::new(data, range)
    };

    let consume_all = drain_count(iter());
    assert_eq!(consume_all, 15);

    let mut consume_half = iter();
    for _ in 0..10 {
        _ = consume_half.next();
    }

    let _consume_none = iter();
}

#[test]
fn into_iter_taken_from_end() {
    let iter = || {
        let data: Vec<_> = (0..20)
            .map(|x| if x >= 15 { None } else { Some(x.to_string()) })
            .collect::<Vec<_>>();
        let range = 0..15;

        ConcurrentFixedVecIntoIter::new(data, range)
    };

    let consume_all = drain_count(iter());
    assert_eq!(consume_all, 15);

    let mut consume_half = iter();
    for _ in 0..10 {
        _ = consume_half.next();
    }

    let _consume_none = iter();
}

#[test]
fn into_iter_taken_from_both_ends() {
    let iter = || {
        let data: Vec<_> = (0..20)
            .map(|x| if (4..15).contains(&x) { Some(x.to_string()) } else { None })
            .collect::<Vec<_>>();
        let range = 4..15;

        ConcurrentFixedVecIntoIter::new(data, range)
    };

    let consume_all = drain_count(iter());
    assert_eq!(consume_all, 11);

    let mut consume_half = iter();
    for _ in 0..7 {
        _ = consume_half.next();
    }

    let _consume_none = iter();
}

#[test]
fn into_iter_from_concurrent_vec() {
    let vec = FixedVec::<usize>::new(6);
    let mut con = vec.into_concurrent();
    for i in 1..4 {
        con.write(i, 10 * i);
    }

    let mut iter = con.into_iter(1..4);
    assert_eq!(Some(10), iter.next());
    assert_eq!(Some(20), iter.next());
    assert_eq!(Some(30), iter.next());
    assert_eq!(None, iter.next());
}

#[test]
fn into_iter_values_and_len() {
    let data: Vec<Option<usize>> = (0..6).map(Some).collect();
    let mut iter = ConcurrentFixedVecIntoIter::new(data, 2..5);

    assert_eq!(3, iter.len());
    assert_eq!((3, Some(3)), iter.size_hint());
    assert_eq!(Some(2), iter.next());
    assert_eq!(Some(3), iter.next());
    assert_eq!(Some(4), iter.next());
    assert_eq!(None, iter.next());
    assert_eq!(0, iter.len());
}
