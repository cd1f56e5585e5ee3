use vstd::layout::{layout_of_primitives, size_of};
use vstd::prelude::*;

verus! {

/// The element types that a new array can be created with, each standing for
/// one `VARTYPE` tag of OLE automation.
#[derive(Copy, Clone, Debug, PartialEq, Eq, Structural)]
pub enum VarType {
    Bool,
    Bstr,
    I1,
    I2,
    I4,
    I8,
    UI1,
    UI2,
    UI4,
    UI8,
    R4,
    R8,
}

impl VarType {
    /// The numeric `VARTYPE` tag.
    pub open spec fn tag_spec(self) -> u16 {
        match self {
            VarType::Bool => 11,
            VarType::Bstr => 8,
            VarType::I1 => 16,
            VarType::I2 => 2,
            VarType::I4 => 3,
            VarType::I8 => 20,
            VarType::UI1 => 17,
            VarType::UI2 => 18,
            VarType::UI4 => 19,
            VarType::UI8 => 21,
            VarType::R4 => 4,
            VarType::R8 => 5,
        }
    }

    pub fn tag(&self) -> (r: u16)
        ensures
            r == self.tag_spec(),
    {
        match self {
            VarType::Bool => 11,
            VarType::Bstr => 8,
            VarType::I1 => 16,
            VarType::I2 => 2,
            VarType::I4 => 3,
            VarType::I8 => 20,
            VarType::UI1 => 17,
            VarType::UI2 => 18,
            VarType::UI4 => 19,
            VarType::UI8 => 21,
            VarType::R4 => 4,
            VarType::R8 => 5,
        }
    }

    /// The byte width of one element of this type in an array, as the array
    /// reports it (a `VARIANT_BOOL` is two bytes, a `BSTR` one pointer).
    pub open spec fn size_spec(self) -> nat {
        match self {
            VarType::Bool => 2,
            VarType::Bstr => size_of::<usize>(),
            VarType::I1 | VarType::UI1 => 1,
            VarType::I2 | VarType::UI2 => 2,
            VarType::I4 | VarType::UI4 | VarType::R4 => 4,
            VarType::I8 | VarType::UI8 | VarType::R8 => 8,
        }
    }
}

/// The element byte width that an array created with `vt` reports.
pub fn element_size(vt: VarType) -> (r: usize)
    ensures
        r == vt.size_spec(),
{
    broadcast use layout_of_primitives;
    match vt {
        VarType::Bool => 2,
        VarType::Bstr => core::mem::size_of::<usize>(),
        VarType::I1 | VarType::UI1 => 1,
        VarType::I2 | VarType::UI2 => 2,
        VarType::I4 | VarType::UI4 | VarType::R4 => 4,
        VarType::I8 | VarType::UI8 | VarType::R8 => 8,
    }
}

/// A Rust type that can be the element type of a new array: it names its
/// `VARTYPE`, whose element width equals the type's own size. `bool` has no
/// impl, since a `VT_BOOL` element is two bytes wide; arrays of other types
/// are created by naming their `VarType` (`SafeVec::new_as`).
pub trait SafeArrayStorable: Sized {
    spec fn storage_type_spec() -> VarType;

    fn storage_type() -> (r: VarType)
        ensures
            r == Self::storage_type_spec(),
            r.size_spec() == size_of::<Self>(),
    ;
}

impl SafeArrayStorable for i8 {
    open spec fn storage_type_spec() -> VarType {
        VarType::I1
    }

    fn storage_type() -> (r: VarType) {
        broadcast use layout_of_primitives;
        VarType::I1
    }
}

impl SafeArrayStorable for i16 {
    open spec fn storage_type_spec() -> VarType {
        VarType::I2
    }

    fn storage_type() -> (r: VarType) {
        broadcast use layout_of_primitives;
        VarType::I2
    }
}

impl SafeArrayStorable for i32 {
    open spec fn storage_type_spec() -> VarType {
        VarType::I4
    }

    fn storage_type() -> (r: VarType) {
        broadcast use layout_of_primitives;
        VarType::I4
    }
}

impl SafeArrayStorable for i64 {
    open spec fn storage_type_spec() -> VarType {
        VarType::I8
    }

    fn storage_type() -> (r: VarType) {
        broadcast use layout_of_primitives;
        VarType::I8
    }
}

impl SafeArrayStorable for u8 {
    open spec fn storage_type_spec() -> VarType {
        VarType::UI1
    }

    fn storage_type() -> (r: VarType) {
        broadcast use layout_of_primitives;
        VarType::UI1
    }
}

impl SafeArrayStorable for u16 {
    open spec fn storage_type_spec() -> VarType {
        VarType::UI2
    }

    fn storage_type() -> (r: VarType) {
        broadcast use layout_of_primitives;
        VarType::UI2
    }
}

impl SafeArrayStorable for u32 {
    open spec fn storage_type_spec() -> VarType {
        VarType::UI4
    }

    fn storage_type() -> (r: VarType) {
        broadcast use layout_of_primitives;
        VarType::UI4
    }
}

impl SafeArrayStorable for u64 {
    open spec fn storage_type_spec() -> VarType {
        VarType::UI8
    }

    fn storage_type() -> (r: VarType) {
        broadcast use layout_of_primitives;
        VarType::UI8
    }
}

} // verus!
