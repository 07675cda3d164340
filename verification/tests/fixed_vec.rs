use fixed_vec::FixedVec;

#[test]
fn new() {
    let vec: FixedVec<char> = FixedVec::new(17);
    assert_eq!(0, vec.len());
    assert!(vec.is_empty());
    assert_eq!(17, vec.capacity());
}

#[test]
fn from() {
    let vec = vec![1, 3, 42];
    let fixed_vec: FixedVec<_> = vec.clone().into();
    assert_eq!(&vec, fixed_vec.as_ref());
    assert_eq!(vec.len(), fixed_vec.capacity());
    let into_vec: Vec<_> = fixed_vec.into();
    assert_eq!(&vec, &into_vec);

    let mut vec = Vec::with_capacity(7);
    vec.push(42);
    let fixed_vec: FixedVec<_> = vec.clone().into();
    assert_eq!(&vec, fixed_vec.as_ref());
    assert_eq!(1, fixed_vec.capacity());
    let into_vec: Vec<_> = fixed_vec.into();
    assert_eq!(&vec, &into_vec);
}

#[test]
fn room() {
    let mut vec = FixedVec::new(10);

    for i in 0..vec.capacity() {
        assert_eq!(i, vec.len());
        assert_eq!(vec.capacity() - i, vec.room());
        vec.push(1.1);
    }

    assert_eq!(vec.len(), vec.capacity());
    assert_eq!(0, vec.room());
    assert!(vec.is_full());
}

#[test]
fn as_slice() {
    let fixed_vec: FixedVec<_> = (0..20).collect::<Vec<_>>().into();
    let vec: Vec<_> = (0..20).collect();

    let slice = fixed_vec.as_slice();
    assert_eq!(slice, &vec);
}

#[test]
fn panic_if_not_enough_room_for_when_ok() {
    let mut vec = FixedVec::new(3);

    vec.panic_if_not_enough_room_for(3);

    vec.push("a");
    vec.panic_if_not_enough_room_for(2);

    vec.push("b");
    vec.panic_if_not_enough_room_for(1);

    vec.push("c");
    vec.panic_if_not_enough_room_for(0);
}

#[test]
#[should_panic]
fn panic_if_not_enough_room_for_when_not_ok() {
    let mut vec = FixedVec::new(3);
    vec.push("a");
    vec.panic_if_not_enough_room_for(3);
}

#[test]
fn push_or_panic_when_ok() {
    let mut vec = FixedVec::new(3);

    vec.push(0);
    vec.push(1);
    vec.push(2);

    assert_eq!(Some(&0), vec.get(0));
    assert_eq!(Some(&1), vec.get(1));
    assert_eq!(Some(&2), vec.get(2));
}

#[test]
#[should_panic]
fn push_or_panic_when_not_ok() {
    let mut vec = FixedVec::new(3);

    vec.push(0);
    vec.push(1);
    vec.push(2);

    assert_eq!(Some(&0), vec.get(0));
    assert_eq!(Some(&1), vec.get(1));
    assert_eq!(Some(&2), vec.get(2));

    vec.push(3);
}

#[test]
fn round_trip_keeps_room() {
    let mut vec: FixedVec<usize> = FixedVec::new(10);
    vec.push(1);
    vec.push(2);
    vec.push(3);

    let plain: Vec<usize> = vec.into();
    let back: FixedVec<usize> = plain.into();

    assert_eq!(back.as_slice(), &[1, 2, 3]);
    assert_eq!(3, back.len());
    assert!(back.capacity() >= 10);
    assert!(back.room() >= 7);
    assert!(!back.is_full());
}

#[test]
fn zero_capacity() {
    let vec: FixedVec<usize> = FixedVec::new(0);
    assert!(vec.is_full());
    assert!(vec.is_empty());
    assert_eq!(0, vec.room());
    assert_eq!(None, vec.get(0));
    assert!(vec.slices(0..0).unwrap().is_empty());
    assert!(vec.slices(0..1).is_none());
}

#[test]
fn full_vector_scenario() {
    let mut vec = FixedVec::new(4);
    vec.push(0);
    vec.push(1);
    vec.push(2);
    vec.push(3);

    assert!(vec.is_full());
    assert_eq!(0, vec.room());
    assert_eq!(vec.as_slice(), &[0, 1, 2, 3]);
}
