use crate::registry::{SafeArrayStorable, VarType};
use crate::safearray::SafeArray;
use crate::safeslice::{open_outcome, SafeSlice};
use vstd::layout::size_of;
use vstd::prelude::*;

verus! {

broadcast use SafeArray::lemma_with_lock;

/// An array released from an owned array opens as a view of `T`, so the
/// view shows the elements the owned array held.
pub proof fn lemma_released_array_opens<T>(v: SafeVec<T>)
    requires
        v.wf(),
    ensures
        open_outcome::<T>(v.array()) is Ok,
{
}

/// An array that this library allocated and owns, holding elements of `T`.
/// Dropping it frees the array; `into_raw` hands the array to the caller
/// instead.
pub struct SafeVec<T> {
    wrapped: SafeArray<T>,
}

impl<T> SafeVec<T> {
    /// The owned array.
    pub closed spec fn array(&self) -> SafeArray<T> {
        self.wrapped
    }

    /// Between uses the owned array is unlocked, one-dimensional, and holds
    /// elements of `T`'s width.
    pub open spec fn wf(&self) -> bool {
        &&& !self.array().spec_locked()
        &&& self.array().spec_dims() == 1
        &&& self.array().spec_element_size() == size_of::<T>()
    }

    /// The elements of the owned array.
    pub open spec fn elems(&self) -> Seq<T> {
        self.array().elems()
    }

    /// Allocates an array of `len` default elements of type `vt`, whose
    /// width must be `T`'s; fails when the allocator refuses the length.
    pub fn with_capacity_as(vt: VarType, len: usize) -> (r: Option<Self>)
        where
            T: Default,
        requires
            vt.size_spec() == size_of::<T>(),
        ensures
            r is Some <==> len <= u32::MAX,
            r is Some ==> r->0.wf() && r->0.elems().len() == len && r->0.array().spec_vartype()
                == Some(vt),
    {
        match SafeArray::create_vector(vt, len) {
            Some(arr) => Some(SafeVec { wrapped: arr }),
            None => None,
        }
    }

    /// Allocates an array of `len` default elements tagged with `T`'s
    /// element type; fails when the allocator refuses the length.
    pub fn with_capacity(len: usize) -> (r: Option<Self>)
        where
            T: SafeArrayStorable + Default,
        ensures
            r is Some <==> len <= u32::MAX,
            r is Some ==> r->0.wf() && r->0.elems().len() == len && r->0.array().spec_vartype()
                == Some(T::storage_type_spec()),
    {
        let vt = T::storage_type();
        Self::with_capacity_as(vt, len)
    }

    /// Allocates an array of type `vt`, whose width must be `T`'s, and copies
    /// `from` into it through a view.
    pub fn new_as(vt: VarType, from: &[T]) -> (r: Option<Self>)
        where
            T: Default + Copy,
        requires
            vt.size_spec() == size_of::<T>(),
        ensures
            r is Some <==> from@.len() <= u32::MAX,
            r is Some ==> r->0.wf() && r->0.elems() == from@ && r->0.array().spec_vartype() == Some(
                vt,
            ),
    {
        let mut this = match Self::with_capacity_as(vt, from.len()) {
            Some(v) => v,
            None => return None,
        };
        let mut view = this.as_safeslice();
        let dst = view.as_mut_slice();
        let mut i: usize = 0;
        while i < from.len()
            invariant
                i <= from@.len(),
                dst@.len() == from@.len(),
                forall|j: int| 0 <= j < i ==> dst@[j] == from@[j],
            decreases from@.len() - i,
        {
            dst[i] = from[i];
            i = i + 1;
        }
        assert(dst@ == from@);
        view.close();
        Some(this)
    }

    /// Allocates an array tagged with `T`'s element type and copies `from`
    /// into it through a view.
    pub fn new(from: &[T]) -> (r: Option<Self>)
        where
            T: SafeArrayStorable + Default + Copy,
        ensures
            r is Some <==> from@.len() <= u32::MAX,
            r is Some ==> r->0.wf() && r->0.elems() == from@ && r->0.array().spec_vartype()
                == Some(T::storage_type_spec()),
    {
        let vt = T::storage_type();
        Self::new_as(vt, from)
    }

    /// Opens a view over the owned array; closing the view hands the array
    /// back, with what was written through it.
    pub fn as_safeslice(&mut self) -> (r: SafeSlice<'_, T>)
        requires
            old(self).wf(),
        ensures
            r.wf(),
            r.array() == old(self).array().with_lock(true),
            r.array().elems() == old(self).elems(),
            r.array().spec_vartype() == old(self).array().spec_vartype(),
            *final(r.handle()) == final(self).array(),
    {
        match SafeSlice::new(&mut self.wrapped) {
            Ok(v) => v,
            Err(_) => vstd::pervasive::unreached(),
        }
    }

    /// Gives up ownership: the caller receives the array and becomes
    /// responsible for freeing it.
    pub fn into_raw(self) -> (r: SafeArray<T>)
        ensures
            r == self.array(),
    {
        self.wrapped
    }
}

} // verus!
