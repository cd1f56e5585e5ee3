//! A checked, typed view over one-dimensional, lockable, dynamically typed
//! arrays of the OLE automation kind, and owned arrays built from typed data.

mod check;
mod guard;
mod registry;
mod safearray;
mod safeslice;
mod safevec;

pub use check::{
    access_outcome, check_access, check_layout, layout_outcome, SafeSliceError, E_INVALIDARG,
    E_UNEXPECTED, S_OK,
};
pub use guard::Guard;
pub use registry::{element_size, SafeArrayStorable, VarType};
pub use safearray::SafeArray;
pub use safeslice::{
    lemma_closed_view_reopens, lemma_open_close_restores, lemma_wrong_dims_rejected,
    lemma_wrong_size_rejected, open_outcome, SafeSlice,
};
pub use safevec::{lemma_released_array_opens, SafeVec};
