use bitbound::overread::OverreadVec;

fn margin_holds<T, const K: usize>(v: &OverreadVec<T, K>) -> bool {
    v.capacity() >= v.len() + K
}

#[test]
fn margin_after_every_growth() {
    let mut v: OverreadVec<u32, 16> = OverreadVec::new();
    assert!(margin_holds(&v));
    for i in 0..100 {
        v.push(i);
        assert!(margin_holds(&v));
    }
    v.extend(vec![1, 2, 3, 4, 5]);
    assert!(margin_holds(&v));
    v.extend_from_slice(&[9; 40]);
    assert!(margin_holds(&v));
    v.insert(0, 77);
    assert!(margin_holds(&v));
    v.reserve(1000);
    assert!(v.capacity() >= v.len() + 1000 + 16);
    assert_eq!(v.len(), 146);
}

#[test]
fn constructors_keep_the_margin() {
    let v: OverreadVec<u8, 32> = OverreadVec::with_capacity(10);
    assert!(v.capacity() >= 42);
    assert!(v.is_empty());
    let w: OverreadVec<u8, 32> = OverreadVec::from_vec(vec![1, 2, 3]);
    assert!(margin_holds(&w));
    assert_eq!(w.as_ref(), &vec![1, 2, 3]);
}

#[test]
fn buffer_contents_follow_the_operations() {
    let mut v: OverreadVec<i32, 4> = OverreadVec::new();
    v.push(1);
    v.push(2);
    v.extend(vec![3, 4]);
    v.extend_from_slice(&[5, 6]);
    v.insert(2, 100);
    assert_eq!(&v[..], &[1, 2, 100, 3, 4, 5, 6]);
    assert_eq!(v.pop(), Some(6));
    assert_eq!(v.into_inner(), vec![1, 2, 100, 3, 4, 5]);
}

#[test]
fn pop_and_clear_on_small_buffers() {
    let mut v: OverreadVec<i32, 2> = OverreadVec::new();
    assert_eq!(v.pop(), None);
    v.insert(0, 5);
    v.push(6);
    v.clear();
    assert!(v.is_empty());
    assert_eq!(v.pop(), None);
}

#[test]
fn clear_and_pop_keep_the_allocation() {
    let mut v: OverreadVec<u64, 8> = OverreadVec::from_vec(vec![1, 2, 3, 4, 5]);
    let before = v.capacity();
    assert!(before >= 13);
    assert_eq!(v.pop(), Some(5));
    assert_eq!(v.capacity(), before);
    assert!(margin_holds(&v));
    v.clear();
    assert_eq!(v.capacity(), before);
    assert!(margin_holds(&v));
}

#[test]
fn reserve_reaches_length_plus_additional_plus_margin() {
    let mut v: OverreadVec<u8, 64> = OverreadVec::from_vec(vec![0; 10]);
    v.reserve(500);
    assert!(v.capacity() >= 10 + 500 + 64);
    assert_eq!(v.len(), 10);
}
