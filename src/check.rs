use vstd::prelude::*;

verus! {

/// `HRESULT` of success.
pub const S_OK: i32 = 0;

/// `HRESULT` 0x80070057: the handle was rejected (a null array).
pub const E_INVALIDARG: i32 = -2147024809;

/// `HRESULT` 0x8000FFFF: the array could not be locked.
pub const E_UNEXPECTED: i32 = -2147418113;

/// Why an array handle could not be opened as a typed view.
#[derive(Copy, Clone, Debug, PartialEq, Eq, Structural)]
pub enum SafeSliceError {
    InvalidSafeArray,
    LockFailed,
    InvalidDimensions(usize),
    InvalidElementSize(usize),
}

/// What the `HRESULT` of a lock request means: the lock is held exactly on
/// `S_OK`; a rejected handle is `InvalidSafeArray`; any other failure is
/// `LockFailed`.
pub open spec fn access_outcome(hr: i32) -> Result<(), SafeSliceError> {
    if hr == S_OK {
        Ok(())
    } else if hr == E_INVALIDARG {
        Err(SafeSliceError::InvalidSafeArray)
    } else {
        Err(SafeSliceError::LockFailed)
    }
}

pub fn check_access(hr: i32) -> (r: Result<(), SafeSliceError>)
    ensures
        r == access_outcome(hr),
{
    if hr == S_OK {
        Ok(())
    } else if hr == E_INVALIDARG {
        Err(SafeSliceError::InvalidSafeArray)
    } else {
        Err(SafeSliceError::LockFailed)
    }
}

/// Whether a locked array whose header reports `dims` dimensions and elements
/// of `elem_size` bytes can be viewed as elements of `expected` bytes: the
/// dimension count is checked first, then the element width.
pub open spec fn layout_outcome(dims: usize, elem_size: usize, expected: usize) -> Result<
    (),
    SafeSliceError,
> {
    if dims != 1 {
        Err(SafeSliceError::InvalidDimensions(dims))
    } else if elem_size != expected {
        Err(SafeSliceError::InvalidElementSize(elem_size))
    } else {
        Ok(())
    }
}

pub fn check_layout(dims: usize, elem_size: usize, expected: usize) -> (r: Result<
    (),
    SafeSliceError,
>)
    ensures
        r == layout_outcome(dims, elem_size, expected),
{
    if dims != 1 {
        Err(SafeSliceError::InvalidDimensions(dims))
    } else if elem_size != expected {
        Err(SafeSliceError::InvalidElementSize(elem_size))
    } else {
        Ok(())
    }
}

} // verus!
