use std::ops::Deref;

use fixed_vec::FixedVec;

#[test]
fn as_ref() {
    let mut vec = FixedVec::new(4);
    for i in 0..vec.capacity() {
        vec.push(i);
    }

    assert_eq!(vec.as_ref(), &[0, 1, 2, 3]);
}

#[test]
fn as_mut() {
    let mut vec = FixedVec::new(4);
    for i in 0..vec.capacity() {
        vec.push(i);
    }

    for x in vec.as_mut() {
        *x *= 10;
    }

    assert_eq!(vec.as_ref(), &[0, 10, 20, 30]);
}

#[test]
fn eq_eq() {
    let mut vec = FixedVec::new(42);
    for i in 0..vec.capacity() {
        vec.push(i);
    }

    let slice = &(0..vec.capacity()).collect::<Vec<_>>();
    assert!(vec.eq(slice));
}

#[test]
fn index() {
    let mut vec = FixedVec::new(42);
    for i in 0..vec.capacity() / 2 {
        vec.push(i);
    }

    for i in 0..vec.len() {
        assert_eq!(i, vec[i]);
    }

    *vec.get_mut(7).unwrap() = 77;
    assert_eq!(77, vec[7]);
}

#[test]
fn into_iter() {
    let mut vec = FixedVec::new(4);
    for i in 0..vec.capacity() {
        vec.push(i);
    }

    let vec_from_iter: Vec<_> = vec.into_iter().map(|x| x + 1).collect();
    assert_eq!(vec_from_iter, &[1, 2, 3, 4]);
}

#[test]
fn iter() {
    let mut vec = FixedVec::new(4);
    for i in 0..vec.capacity() {
        vec.push(i);
    }

    let vec_from_iter: Vec<_> = vec.iter().map(|x| x + 1).collect();
    assert_eq!(vec_from_iter, &[1, 2, 3, 4]);
}

#[test]
fn deref() {
    let mut vec = FixedVec::new(4);
    for i in 0..vec.capacity() {
        vec.push(i);
    }

    let slice = Deref::deref(&vec);
    assert_eq!(slice, &[0, 1, 2, 3]);
    assert_eq!(slice, vec.as_slice());
}

#[test]
fn clone_keeps_elements() {
    let mut vec = FixedVec::new(8);
    vec.push("a".to_string());
    vec.push("b".to_string());

    let copy = vec.clone();
    assert!(copy == vec);
    assert_eq!(8, copy.capacity());
}
