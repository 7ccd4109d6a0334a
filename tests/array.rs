use bitbound::array::BitBoundArray;
use bitbound::bounded::BoundedUsize;

#[test]
fn test_bitbound_array_index() {
    let array = BitBoundArray::from_array([1, 2, 3, 4]);
    let index = BoundedUsize::<2>::wrapping_masked(3);
    assert_eq!(array[index], 2);
}

#[test]
fn test_bitbound_array_rangeindex() {
    let array = BitBoundArray::from_array([1, 2, 3, 4]);
    let index = BoundedUsize::<5>::new_unchecked(4);
    let slice = array.slice_to(index);
    let slice_index = BoundedUsize::<4>::wrapping_masked(3);
    assert_eq!(array.0.as_ptr(), slice.inner_slice().as_ptr());
    assert_eq!(slice[slice_index], 4);
}

#[test]
fn masked_index_reads_last_element() {
    let array = BitBoundArray::from_array([1, 2, 3, 4]);
    let index = BoundedUsize::<4>::wrapping_masked(3);
    assert_eq!(index.into_inner(), 3);
    assert_eq!(array[index], 4);
    assert_eq!(*array.get(index), 4);
}

#[test]
fn slice_past_its_end_reads_the_backing_array() {
    let array = BitBoundArray::from_array([10, 20, 30, 40]);
    let end = BoundedUsize::<5>::new_unchecked(2);
    let slice = array.slice_to(end);
    assert_eq!(slice.inner_slice(), &[10, 20]);
    assert_eq!(slice.inner_slice().as_ptr(), array.get_inner().as_ptr());
    let past = BoundedUsize::<4>::wrapping_masked(3);
    assert_eq!(slice[past], 40);
    assert_eq!(*slice.get(past), 40);
}

#[test]
fn empty_and_full_slices() {
    let array = BitBoundArray::from_array([7u8, 8, 9, 10]);
    let empty = array.slice_to(BoundedUsize::<1>::wrapping_masked(5));
    assert!(empty.inner_slice().is_empty());
    let full = array.as_bound_slice();
    assert_eq!(full.inner_slice(), &[7, 8, 9, 10]);
    let whole = array.slice_to(BoundedUsize::<5>::new_unchecked(4));
    assert_eq!(whole.inner_slice(), &[7, 8, 9, 10]);
}

#[test]
fn set_then_get_returns_the_written_value() {
    let mut array = BitBoundArray::from_array([0u64; 8]);
    for raw in 0..8usize {
        let index = BoundedUsize::<8>::wrapping_masked(raw);
        array.set(index, raw as u64 * 11);
        assert_eq!(array[index], raw as u64 * 11);
    }
    let narrow = BoundedUsize::<2>::wrapping_masked(1);
    array.set(narrow, 99);
    assert_eq!(*array.get(narrow), 99);
    assert_eq!(array.0, [0, 99, 22, 33, 44, 55, 66, 77]);
}

#[test]
fn get_mut_changes_one_element() {
    let mut array = BitBoundArray::from_array([1, 2, 3, 4]);
    let index = BoundedUsize::<4>::wrapping_masked(6);
    *array.get_mut(index) += 100;
    assert_eq!(array.0, [1, 2, 103, 4]);
}

#[test]
fn inner_access_and_length() {
    let mut array = BitBoundArray::from_array([5, 6, 7]);
    assert_eq!(array.len(), 3);
    assert_eq!(array.get_inner(), &[5, 6, 7]);
    array.get_inner_mut()[0] = 50;
    assert_eq!(array.0, [50, 6, 7]);
}

#[test]
fn default_array_is_all_default() {
    let array: BitBoundArray<u16, 5> = BitBoundArray::default();
    assert_eq!(array.0, [0; 5]);
    assert_eq!(array.len(), 5);
}

#[test]
fn mutable_view_writes_into_the_array() {
    let mut array = BitBoundArray::from_array([1, 2, 3, 4]);
    let end = BoundedUsize::<5>::new_unchecked(2);
    let past = BoundedUsize::<4>::wrapping_masked(3);
    let mut view = array.slice_to_mut(end);
    assert_eq!(*view.get(past), 4);
    view.set(past, 40);
    assert_eq!(*view.get(past), 40);
    let front = view.inner_slice_mut();
    assert_eq!(front.len(), 2);
    front[0] = 10;
    assert_eq!(array.0, [10, 2, 3, 40]);
}

#[test]
fn mutable_view_shares_the_array_storage() {
    let mut array = BitBoundArray::from_array([5u8, 6, 7, 8]);
    let base = array.0.as_ptr();
    let mut view = array.slice_to_mut(BoundedUsize::<5>::new_unchecked(4));
    assert_eq!(view.inner_slice_mut().as_ptr(), base);
    let mut empty = array.slice_to_mut(BoundedUsize::<1>::wrapping_masked(9));
    assert!(empty.inner_slice_mut().is_empty());
}
