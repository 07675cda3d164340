use fixed_vec::{FixedVec, GrowthError};

#[test]
fn reserve() {
    let vec = FixedVec::<String>::new(42);

    let mut con_vec = vec.into_concurrent();

    con_vec.write(0, "first".to_string());

    assert_eq!(con_vec.capacity(), 42);
    assert_eq!(con_vec.max_capacity(), 42);

    con_vec.reserve_maximum_concurrent_capacity(0, 74);
    let new_capacity = con_vec.capacity();
    assert!(new_capacity >= 74);
    assert_eq!(con_vec.max_capacity(), new_capacity);

    let vec = con_vec.into_inner(1);

    assert_eq!(vec.len(), 1);
    assert_eq!(vec.capacity(), new_capacity);
    assert_eq!(&vec[0], &"first".to_string());
}

#[test]
fn into_concurrent_fill_with() {
    let vec = FixedVec::<String>::new(42);
    let con_vec = vec.into_concurrent_filled_with(|| "x".to_string());
    let vec = con_vec.into_inner(42);
    assert!(vec == (0..42).map(|_| "x".to_string()).collect::<Vec<_>>());

    let mut vec = FixedVec::<String>::new(42);
    vec.push("y".to_string());
    let con_vec = vec.into_concurrent_filled_with(|| "x".to_string());
    let vec = con_vec.into_inner(42);
    assert_eq!(&vec[0], &"y".to_string());
    assert_eq!(
        &vec.as_slice()[1..],
        (1..42).map(|_| "x".to_string()).collect::<Vec<_>>().as_slice()
    );
}

#[test]
fn reserve_fill_with() {
    let vec = FixedVec::<String>::new(42);

    let mut con_vec = vec.into_concurrent_filled_with(|| "x".to_string());

    con_vec.reserve_maximum_concurrent_capacity_fill_with(42, 74, || "y".to_string());
    let new_capacity = con_vec.capacity();
    assert!(new_capacity >= 74);
    assert_eq!(con_vec.max_capacity(), new_capacity);

    let vec = con_vec.into_inner(new_capacity);

    assert_eq!(
        &vec.as_slice()[0..42],
        (0..42).map(|_| "x".to_string()).collect::<Vec<_>>().as_slice()
    );
    assert_eq!(
        &vec.as_slice()[42..],
        (42..new_capacity).map(|_| "y".to_string()).collect::<Vec<_>>().as_slice()
    );
}

#[test]
fn write_get_and_fill() {
    let vec = FixedVec::<usize>::new(6);
    let mut con = vec.into_concurrent();

    con.write(3, 30);
    con.write(1, 10);
    assert_eq!(Some(&30), con.get(3));
    assert_eq!(Some(&10), con.get(1));
    assert_eq!(None, con.get(6));

    con.fill_with(4..6, || 7);
    assert_eq!(Some(&7), con.get(4));
    assert_eq!(Some(&7), con.get(5));

    *con.get_mut(3).unwrap() = 33;
    assert_eq!(Some(&33), con.get(3));
}

#[test]
fn disjoint_partition_drain() {
    let vec = FixedVec::<usize>::new(10);
    let mut con = vec.into_concurrent();

    for i in 5..10 {
        con.write(i, i);
    }
    for i in 0..3 {
        con.write(i, i);
    }
    for i in 3..5 {
        con.write(i, i);
    }

    let vec = con.into_inner(10);
    assert_eq!(vec.as_slice(), &[0, 1, 2, 3, 4, 5, 6, 7, 8, 9]);
}

#[test]
fn grow_to_twice() {
    let vec = FixedVec::<usize>::new(10);
    let mut con = vec.into_concurrent();
    con.write(0, 5);

    let first = con.grow_to(7);
    let second = con.grow_to(7);
    assert_eq!(Ok(10), first);
    assert_eq!(Ok(10), second);
    assert_eq!(10, con.capacity());
    assert_eq!(Some(&5), con.get(0));

    assert_eq!(
        Err(GrowthError::FailedToGrowWhileKeepingElementsPinned),
        con.grow_to(11)
    );
    assert_eq!(
        Err(GrowthError::FailedToGrowWhileKeepingElementsPinned),
        con.grow_to_and_fill_with(11, || 0)
    );
    assert_eq!(Ok(10), con.grow_to_and_fill_with(10, || 0));
}

#[test]
fn concurrent_slices() {
    let vec = FixedVec::<usize>::new(10);
    let mut con = vec.into_concurrent();
    for i in 0..10 {
        con.write(i, 100 + i);
    }

    assert!(con.slices(5..12).is_none());
    assert!(con.slices(10..11).is_none());

    let empty = con.slices(5..5).unwrap();
    assert!(empty.is_empty());

    let refs = con.slices(2..5).unwrap();
    assert_eq!(vec![&102, &103, &104], refs);

    let whole = con.iter(10);
    assert_eq!(10, whole.len());
    assert_eq!(&100, whole[0]);
    assert_eq!(&109, whole[9]);
}

#[test]
fn concurrent_slices_mut() {
    let vec = FixedVec::<usize>::new(8);
    let mut con = vec.into_concurrent();

    assert!(con.slices_mut(5..9).is_none());
    assert!(con.slices_mut(3..3).unwrap().is_empty());

    let slots = con.slices_mut(2..5).unwrap();
    assert_eq!(3, slots.len());
    for (offset, slot) in slots.iter_mut().enumerate() {
        *slot = Some(20 + offset);
    }

    assert_eq!(Some(&20), con.get(2));
    assert_eq!(Some(&21), con.get(3));
    assert_eq!(Some(&22), con.get(4));
}

#[test]
fn clone_with_len_and_clear() {
    let vec = FixedVec::<String>::new(5);
    let mut con = vec.into_concurrent();
    con.write(0, "a".to_string());
    con.write(1, "b".to_string());

    let copy = con.clone_with_len(2);
    assert_eq!(5, copy.capacity());
    assert_eq!(Some(&"a".to_string()), copy.get(0));
    assert_eq!(Some(&"b".to_string()), copy.get(1));

    con.clear(2);
    assert_eq!(5, con.capacity());
    con.write(0, "c".to_string());
    assert_eq!(Some(&"c".to_string()), con.get(0));
}
