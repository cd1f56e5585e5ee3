use safe_array::{
    check_access, check_layout, element_size, Guard, SafeArray, SafeArrayStorable, SafeSlice,
    SafeSliceError, SafeVec, VarType, E_INVALIDARG, E_UNEXPECTED, S_OK,
};

fn open_err<T>(a: &mut SafeArray<T>) -> SafeSliceError {
    match SafeSlice::new(a) {
        Ok(v) => {
            v.close();
            panic!("the view opened")
        }
        Err(e) => e,
    }
}

#[test]
fn released_i32_array_reopens_with_its_elements() {
    let owned = SafeVec::<i32>::new(&[1, 2, 3, 4]).unwrap();
    let mut raw = owned.into_raw();
    assert_eq!(raw.vartype(), Some(VarType::I4));
    let view = SafeSlice::<i32>::new(&mut raw).unwrap();
    assert_eq!(view.as_slice(), &[1, 2, 3, 4]);
    view.close();
    assert!(!raw.is_locked());
}

#[test]
fn summing_a_double_array_through_a_view() {
    let mut a = SafeArray::from_parts(1, 8, vec![1.5f64, 2.5]);
    let view = SafeSlice::<f64>::new(&mut a).unwrap();
    let total: f64 = view.as_slice().iter().sum();
    view.close();
    assert_eq!(total, 4.0);
}

#[test]
fn four_byte_elements_are_not_doubles() {
    let mut a = SafeArray::from_parts(1, 4, vec![0.0f64; 3]);
    assert_eq!(open_err(&mut a), SafeSliceError::InvalidElementSize(4));
    assert!(!a.is_locked());
}

#[test]
fn two_dimensional_array_is_rejected_without_a_lock_left() {
    for dims in [0u16, 2, 3, 65535] {
        let mut a = SafeArray::from_parts(dims, 4, vec![1i32, 2, 3, 4]);
        assert_eq!(open_err(&mut a), SafeSliceError::InvalidDimensions(dims as usize));
        assert!(!a.is_locked());
    }
}

#[test]
fn dimensions_are_checked_before_element_size() {
    let mut a = SafeArray::from_parts(2, 8, vec![1i32, 2]);
    assert_eq!(open_err(&mut a), SafeSliceError::InvalidDimensions(2));
}

#[test]
fn wrong_element_size_is_rejected_without_a_lock_left() {
    for size in [0u32, 1, 2, 8, 16] {
        let mut a = SafeArray::from_parts(1, size, vec![1i32, 2]);
        assert_eq!(open_err(&mut a), SafeSliceError::InvalidElementSize(size as usize));
        assert!(!a.is_locked());
    }
}

#[test]
fn view_length_is_the_element_count() {
    for n in [0usize, 1, 7, 300] {
        let mut a = SafeArray::from_parts(1, 2, vec![9u16; n]);
        let view = SafeSlice::<u16>::new(&mut a).unwrap();
        assert_eq!(view.as_slice().len(), n);
        view.close();
    }
}

#[test]
fn writes_are_seen_by_a_fresh_view() {
    let mut a = SafeArray::from_parts(1, 4, vec![1u32, 2, 3]);
    let mut view = SafeSlice::<u32>::new(&mut a).unwrap();
    assert!(view.as_slice().len() == 3);
    {
        let s = view.as_mut_slice();
        s[0] = 10;
        s[2] = 30;
    }
    view.close();
    let again = SafeSlice::<u32>::new(&mut a).unwrap();
    assert_eq!(again.as_slice(), &[10, 2, 30]);
    again.close();
}

#[test]
fn round_trip_i32_of_several_lengths() {
    for n in [0usize, 1, 1000] {
        let xs: Vec<i32> = (0..n as i32).map(|i| i * 3 - 500).collect();
        let mut raw = SafeVec::new(&xs).unwrap().into_raw();
        let view = SafeSlice::<i32>::new(&mut raw).unwrap();
        assert_eq!(view.as_slice(), &xs[..]);
        view.close();
    }
}

#[test]
fn round_trip_f64_of_several_lengths() {
    for n in [0usize, 1, 1000] {
        let xs: Vec<f64> = (0..n).map(|i| i as f64 * 0.25 - 3.0).collect();
        let mut raw = SafeVec::new_as(VarType::R8, &xs).unwrap().into_raw();
        assert_eq!(raw.vartype(), Some(VarType::R8));
        let view = SafeSlice::<f64>::new(&mut raw).unwrap();
        assert_eq!(view.as_slice(), &xs[..]);
        view.close();
    }
}

#[test]
fn round_trip_i64_and_u8() {
    let big = [i64::MIN, -1, 0, i64::MAX];
    let mut raw = SafeVec::new(&big).unwrap().into_raw();
    let view = SafeSlice::<i64>::new(&mut raw).unwrap();
    assert_eq!(view.as_slice(), &big);
    view.close();
    let bytes = [0u8, 255, 17];
    let mut raw = SafeVec::new(&bytes).unwrap().into_raw();
    assert_eq!(raw.element_size(), 1);
    let view = SafeSlice::<u8>::new(&mut raw).unwrap();
    assert_eq!(view.as_slice(), &bytes);
    view.close();
}

#[test]
fn opening_twice_in_turn_unlocks_once_each_time() {
    let mut a = SafeArray::from_parts(1, 8, vec![5u64, 6]);
    let v1 = SafeSlice::<u64>::new(&mut a).unwrap();
    v1.close();
    assert!(!a.is_locked());
    let v2 = SafeSlice::<u64>::new(&mut a).unwrap();
    v2.close();
    assert!(!a.is_locked());
    assert_eq!(a.access_data(), S_OK);
    assert_eq!(a.access_data(), E_UNEXPECTED);
    a.unaccess_data();
    assert!(!a.is_locked());
}

#[test]
fn a_view_left_open_makes_the_next_lock_fail() {
    let mut a = SafeArray::from_parts(1, 4, vec![1i32]);
    let v = SafeSlice::<i32>::new(&mut a).unwrap();
    std::mem::forget(v);
    assert!(a.is_locked());
    assert_eq!(open_err(&mut a), SafeSliceError::LockFailed);
    assert!(a.is_locked());
}

#[test]
fn lock_results_map_to_errors() {
    assert_eq!(check_access(S_OK), Ok(()));
    assert_eq!(check_access(E_INVALIDARG), Err(SafeSliceError::InvalidSafeArray));
    assert_eq!(check_access(E_UNEXPECTED), Err(SafeSliceError::LockFailed));
    assert_eq!(check_access(1), Err(SafeSliceError::LockFailed));
    assert_eq!(E_INVALIDARG as u32, 0x8007_0057);
    assert_eq!(E_UNEXPECTED as u32, 0x8000_FFFF);
}

#[test]
fn layout_checks() {
    assert_eq!(check_layout(1, 8, 8), Ok(()));
    assert_eq!(check_layout(2, 8, 8), Err(SafeSliceError::InvalidDimensions(2)));
    assert_eq!(check_layout(0, 4, 8), Err(SafeSliceError::InvalidDimensions(0)));
    assert_eq!(check_layout(1, 4, 8), Err(SafeSliceError::InvalidElementSize(4)));
}

#[test]
fn registry_tags_and_widths() {
    let table = [
        (VarType::Bool, 11u16, 2usize),
        (VarType::I1, 16, 1),
        (VarType::I2, 2, 2),
        (VarType::I4, 3, 4),
        (VarType::I8, 20, 8),
        (VarType::UI1, 17, 1),
        (VarType::UI2, 18, 2),
        (VarType::UI4, 19, 4),
        (VarType::UI8, 21, 8),
        (VarType::R4, 4, 4),
        (VarType::R8, 5, 8),
        (VarType::Bstr, 8, std::mem::size_of::<usize>()),
    ];
    for (vt, tag, size) in table {
        assert_eq!(vt.tag(), tag);
        assert_eq!(element_size(vt), size);
    }
    assert_eq!(i8::storage_type(), VarType::I1);
    assert_eq!(i16::storage_type(), VarType::I2);
    assert_eq!(i32::storage_type(), VarType::I4);
    assert_eq!(i64::storage_type(), VarType::I8);
    assert_eq!(u8::storage_type(), VarType::UI1);
    assert_eq!(u16::storage_type(), VarType::UI2);
    assert_eq!(u32::storage_type(), VarType::UI4);
    assert_eq!(u64::storage_type(), VarType::UI8);
}

#[test]
fn with_capacity_allocates_default_elements() {
    let mut owned = SafeVec::<i16>::with_capacity(5).unwrap();
    let view = owned.as_safeslice();
    assert_eq!(view.as_slice(), &[0i16; 5]);
    view.close();
    let raw = owned.into_raw();
    assert_eq!(raw.dims(), 1);
    assert_eq!(raw.element_size(), 2);
    assert_eq!(raw.len(), 5);
    assert_eq!(raw.vartype(), Some(VarType::I2));
}

#[test]
fn oversized_length_is_refused() {
    if usize::BITS > 32 {
        let too_long = (u32::MAX as usize) + 1;
        assert!(SafeVec::<u8>::with_capacity(too_long).is_none());
        assert!(SafeArray::<u8>::create_vector(VarType::UI1, too_long).is_none());
    }
}

#[test]
fn owned_array_writes_through_its_view() {
    let mut owned = SafeVec::new(&[1u32, 2, 3]).unwrap();
    let mut view = owned.as_safeslice();
    view.as_mut_slice()[1] = 20;
    view.close();
    let mut raw = owned.into_raw();
    let view = SafeSlice::<u32>::new(&mut raw).unwrap();
    assert_eq!(view.as_slice(), &[1, 20, 3]);
    view.close();
}

#[test]
fn guard_runs_its_action_once() {
    let count = std::cell::Cell::new(0);
    let g = Guard::new(|| count.set(count.get() + 1));
    assert_eq!(count.get(), 0);
    g.run();
    assert_eq!(count.get(), 1);
}
