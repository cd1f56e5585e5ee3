use crate::check::{check_access, check_layout, SafeSliceError};
use crate::safearray::SafeArray;
use vstd::layout::size_of;
use vstd::prelude::*;

verus! {

broadcast use SafeArray::lemma_with_lock;

/// What opening a view of elements of `T` over `a` gives: a locked array
/// cannot be locked again, and once locked the array must report one
/// dimension and elements of `T`'s width.
pub open spec fn open_outcome<T>(a: SafeArray<T>) -> Result<(), SafeSliceError> {
    if a.spec_locked() {
        Err(SafeSliceError::LockFailed)
    } else if a.spec_dims() != 1 {
        Err(SafeSliceError::InvalidDimensions(a.spec_dims() as usize))
    } else if a.spec_element_size() != size_of::<T>() {
        Err(SafeSliceError::InvalidElementSize(a.spec_element_size() as usize))
    } else {
        Ok(())
    }
}

/// An array that can be locked but reports a dimension count other than one
/// is rejected with that count.
pub proof fn lemma_wrong_dims_rejected<T>(a: SafeArray<T>)
    requires
        !a.spec_locked(),
        a.spec_dims() != 1,
    ensures
        open_outcome::<T>(a) == Err::<(), SafeSliceError>(
            SafeSliceError::InvalidDimensions(a.spec_dims() as usize),
        ),
{
}

/// A one-dimensional array that can be locked but reports an element width
/// other than `T`'s is rejected with that width.
pub proof fn lemma_wrong_size_rejected<T>(a: SafeArray<T>)
    requires
        !a.spec_locked(),
        a.spec_dims() == 1,
        a.spec_element_size() != size_of::<T>(),
    ensures
        open_outcome::<T>(a) == Err::<(), SafeSliceError>(
            SafeSliceError::InvalidElementSize(a.spec_element_size() as usize),
        ),
{
}

/// Once a view is closed, a fresh view over the same array opens and sees
/// the elements that the first one left.
pub proof fn lemma_closed_view_reopens<T>(a: SafeArray<T>)
    requires
        a.spec_locked(),
        a.spec_dims() == 1,
        a.spec_element_size() == size_of::<T>(),
    ensures
        open_outcome::<T>(a.with_lock(false)) is Ok,
        a.with_lock(false).elems() == a.elems(),
{
}

/// Opening and closing a view leaves the array exactly as it was, so a
/// second open and close starts from an unlocked array; while a view is
/// open, another attempt is refused rather than locking twice.
pub proof fn lemma_open_close_restores<T>(a: SafeArray<T>)
    requires
        !a.spec_locked(),
    ensures
        a.with_lock(true).with_lock(false) == a,
        open_outcome::<T>(a.with_lock(true)) == Err::<(), SafeSliceError>(
            SafeSliceError::LockFailed,
        ),
{
}

/// A typed view over a locked one-dimensional array. The view holds the lock
/// from `new` until `close`.
pub struct SafeSlice<'a, T> {
    wrapped: &'a mut SafeArray<T>,
}

impl<'a, T> SafeSlice<'a, T> {
    /// The reference to the viewed array.
    pub closed spec fn handle(&self) -> &'a mut SafeArray<T> {
        self.wrapped
    }

    /// The viewed array as it stands now.
    pub open spec fn array(&self) -> SafeArray<T> {
        *self.handle()
    }

    /// While the view lives, its array is locked, one-dimensional, and holds
    /// elements of `T`'s width.
    pub open spec fn wf(&self) -> bool {
        &&& self.array().spec_locked()
        &&& self.array().spec_dims() == 1
        &&& self.array().spec_element_size() == size_of::<T>()
    }

    /// Locks the array and checks that it holds one dimension of elements of
    /// `T`'s width. On failure the array is left as it was.
    pub fn new(array: &'a mut SafeArray<T>) -> (r: Result<Self, SafeSliceError>)
        ensures
            r is Ok <==> open_outcome(*old(array)) is Ok,
            r is Err ==> r->Err_0 == open_outcome(*old(array))->Err_0 && *final(array)
                == *old(array),
            r is Ok ==> *final(r->Ok_0.handle()) == *final(array) && r->Ok_0.array() == old(
                array,
            ).with_lock(true),
            r is Ok ==> r->Ok_0.wf() && r->Ok_0.array().elems() == old(array).elems()
                && r->Ok_0.array().spec_vartype() == old(array).spec_vartype(),
    {
        let hr = array.access_data();
        match check_access(hr) {
            Err(e) => Err(e),
            Ok(()) => {
                match check_layout(array.dims(), array.element_size(), core::mem::size_of::<T>()) {
                    Err(e) => {
                        array.unaccess_data();
                        Err(e)
                    },
                    Ok(()) => Ok(SafeSlice { wrapped: array }),
                }
            },
        }
    }

    /// The elements, as many as the array's first dimension holds.
    pub fn as_slice(&self) -> (r: &[T])
        requires
            self.wf(),
        ensures
            r@ == self.array().elems(),
    {
        self.wrapped.data_slice()
    }

    /// The elements, for writing; what is written stays in the array.
    pub fn as_mut_slice(&mut self) -> (r: &mut [T])
        requires
            old(self).wf(),
        ensures
            r@ == old(self).array().elems(),
            final(r)@ == final(self).array().elems(),
            final(self).array().spec_locked(),
            final(self).array().spec_dims() == old(self).array().spec_dims(),
            final(self).array().spec_element_size() == old(self).array().spec_element_size(),
            final(self).array().spec_vartype() == old(self).array().spec_vartype(),
            final(self).wf(),
            *final(final(self).handle()) == *final(old(self).handle()),
    {
        self.wrapped.data_mut_slice()
    }

    /// Unlocks the array and ends the view; the array keeps what was
    /// written through the view.
    pub fn close(self)
        requires
            self.wf(),
        ensures
            !final(self.handle()).spec_locked(),
            final(self.handle()).spec_dims() == self.array().spec_dims(),
            final(self.handle()).spec_element_size() == self.array().spec_element_size(),
            final(self.handle()).elems() == self.array().elems(),
            final(self.handle()).spec_vartype() == self.array().spec_vartype(),
            *final(self.handle()) == self.array().with_lock(false),
    {
        self.wrapped.unaccess_data();
    }
}

} // verus!
