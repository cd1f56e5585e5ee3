use crate::check::{E_UNEXPECTED, S_OK};
use crate::registry::{element_size, VarType};
use vstd::prelude::*;

verus! {

/// An array object of the OLE automation kind, held in memory: a header that
/// reports the dimension count and the element width, a lock, and the
/// elements of its storage.
pub struct SafeArray<T> {
    dims: u16,
    elem_size: u32,
    locked: bool,
    vartype: Option<VarType>,
    data: Vec<T>,
}

impl<T> SafeArray<T> {
    /// The dimension count that the header reports.
    pub closed spec fn spec_dims(&self) -> u16 {
        self.dims
    }

    /// The element width in bytes that the header reports.
    pub closed spec fn spec_element_size(&self) -> u32 {
        self.elem_size
    }

    /// The element type the array was created with, if it records one.
    pub closed spec fn spec_vartype(&self) -> Option<VarType> {
        self.vartype
    }

    /// Whether the storage is locked.
    pub closed spec fn spec_locked(&self) -> bool {
        self.locked
    }

    /// The elements of the storage, in order.
    pub closed spec fn elems(&self) -> Seq<T> {
        self.data@
    }

    /// The same array with the lock set to `locked`.
    pub closed spec fn with_lock(self, locked: bool) -> Self {
        SafeArray { locked, ..self }
    }

    /// Setting the lock changes nothing else, and the last setting wins.
    pub broadcast proof fn lemma_with_lock(a: Self, locked: bool)
        ensures
            #![trigger a.with_lock(locked)]
            a.with_lock(locked).spec_locked() == locked,
            a.with_lock(locked).spec_dims() == a.spec_dims(),
            a.with_lock(locked).spec_element_size() == a.spec_element_size(),
            a.with_lock(locked).elems() == a.elems(),
            a.with_lock(locked).spec_vartype() == a.spec_vartype(),
            a.spec_locked() == locked ==> a.with_lock(locked) == a,
            forall|m: bool| #[trigger] a.with_lock(locked).with_lock(m) == a.with_lock(m),
    {
    }

    /// An unlocked array with the given header and elements.
    pub fn from_parts(dims: u16, elem_size: u32, data: Vec<T>) -> (r: Self)
        ensures
            r.spec_dims() == dims,
            r.spec_element_size() == elem_size,
            !r.spec_locked(),
            r.elems() == data@,
            r.spec_vartype() is None,
    {
        SafeArray { dims, elem_size, locked: false, vartype: None, data }
    }

    /// A new unlocked one-dimensional array of `len` elements of type `vt`,
    /// each the default value. An element count that does not fit in 32 bits
    /// cannot be allocated.
    pub fn create_vector(vt: VarType, len: usize) -> (r: Option<Self>)
        where
            T: Default,
        ensures
            r is Some <==> len <= u32::MAX,
            r is Some ==> {
                let a = r->0;
                &&& a.spec_dims() == 1
                &&& a.spec_element_size() == vt.size_spec()
                &&& !a.spec_locked()
                &&& a.spec_vartype() == Some(vt)
                &&& a.elems().len() == len
            },
    {
        if len > u32::MAX as usize {
            return None;
        }
        let elem_size = element_size(vt);
        let mut data: Vec<T> = Vec::new();
        let mut i: usize = 0;
        while i < len
            invariant
                i <= len,
                data@.len() == i,
            decreases len - i,
        {
            data.push(T::default());
            i = i + 1;
        }
        Some(SafeArray { dims: 1, elem_size: elem_size as u32, locked: false, vartype: Some(vt), data })
    }

    /// The element type the array was created with, if it records one.
    pub fn vartype(&self) -> (r: Option<VarType>)
        ensures
            r == self.spec_vartype(),
    {
        self.vartype
    }

    pub fn dims(&self) -> (r: usize)
        ensures
            r == self.spec_dims(),
    {
        self.dims as usize
    }

    pub fn element_size(&self) -> (r: usize)
        ensures
            r == self.spec_element_size(),
    {
        self.elem_size as usize
    }

    pub fn is_locked(&self) -> (r: bool)
        ensures
            r == self.spec_locked(),
    {
        self.locked
    }

    /// The element count of the first dimension.
    pub fn len(&self) -> (r: usize)
        ensures
            r == self.elems().len(),
    {
        self.data.len()
    }

    pub(crate) fn data_slice(&self) -> (r: &[T])
        ensures
            r@ == self.elems(),
    {
        self.data.as_slice()
    }

    pub(crate) fn data_mut_slice(&mut self) -> (r: &mut [T])
        ensures
            r@ == old(self).elems(),
            final(r)@ == final(self).elems(),
            final(self).spec_locked() == old(self).spec_locked(),
            final(self).spec_dims() == old(self).spec_dims(),
            final(self).spec_element_size() == old(self).spec_element_size(),
            final(self).spec_vartype() == old(self).spec_vartype(),
    {
        self.data.as_mut_slice()
    }

    /// Requests the lock: granted (`S_OK`) only when the array is not locked
    /// already; otherwise `E_UNEXPECTED` and nothing changes.
    pub fn access_data(&mut self) -> (hr: i32)
        ensures
            !old(self).spec_locked() ==> hr == S_OK && *final(self) == old(self).with_lock(true),
            old(self).spec_locked() ==> hr == E_UNEXPECTED && *final(self) == *old(self),
    {
        if self.locked {
            E_UNEXPECTED
        } else {
            self.locked = true;
            S_OK
        }
    }

    /// Releases the lock, which must be held.
    pub fn unaccess_data(&mut self)
        requires
            old(self).spec_locked(),
        ensures
            *final(self) == old(self).with_lock(false),
    {
        self.locked = false;
    }
}

} // verus!
