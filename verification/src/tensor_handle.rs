//! The shared-ownership wrapper around a runtime-owned tensor pointer.
//!
//! A `TensorPointerHolder` records the address of one runtime tensor and,
//! when the runtime returned a whole array of tensors, the address of that
//! enclosing array.  The embedding program wraps the holder in a reference
//! count and calls the runtime's release entry exactly once per owned
//! address when the last reference drops; the holder itself knows nothing of
//! the tensor's kind, shape or size.
//!
//! The type deliberately has no `Clone` or `Copy`: duplicating the addresses
//! without the surrounding reference count would risk a double release.
//! Share a holder only through reference-counted aliasing.

use vstd::prelude::*;

verus! {

/// Shared ownership record for one runtime tensor pointer, with an optional
/// co-owned array-of-tensors pointer.  Addresses are never null.
#[derive(Debug)]
pub struct TensorPointerHolder {
    tensor_addr: usize,
    array_addr: Option<usize>,
}

impl TensorPointerHolder {
    /// The address of the owned tensor.
    pub closed spec fn spec_tensor_addr(self) -> usize {
        self.tensor_addr
    }

    /// The address of the co-owned array of tensors, when there is one.
    pub closed spec fn spec_array_addr(self) -> Option<usize> {
        self.array_addr
    }

    /// A holder is well formed when none of its addresses is null.
    pub open spec fn wf(self) -> bool {
        &&& self.spec_tensor_addr() != 0
        &&& match self.spec_array_addr() {
            Some(a) => a != 0,
            None => true,
        }
    }

    /// Wrap a single non-null tensor address.
    pub fn new(tensor_addr: usize) -> (r: Self)
        requires
            tensor_addr != 0,
        ensures
            r.wf(),
            r.spec_tensor_addr() == tensor_addr,
            r.spec_array_addr() is None,
    {
        TensorPointerHolder { tensor_addr, array_addr: None }
    }

    /// Wrap a non-null tensor address together with the non-null address of
    /// the array of tensors that encloses it.
    pub fn new_in_array(tensor_addr: usize, array_addr: usize) -> (r: Self)
        requires
            tensor_addr != 0,
            array_addr != 0,
        ensures
            r.wf(),
            r.spec_tensor_addr() == tensor_addr,
            r.spec_array_addr() == Some(array_addr),
    {
        TensorPointerHolder { tensor_addr, array_addr: Some(array_addr) }
    }

    /// The owned tensor address, for the release call.
    pub fn tensor_addr(&self) -> (r: usize)
        ensures
            r == self.spec_tensor_addr(),
    {
        self.tensor_addr
    }

    /// The co-owned array address, for the release call, when present.
    pub fn array_addr(&self) -> (r: Option<usize>)
        ensures
            r == self.spec_array_addr(),
    {
        self.array_addr
    }
}

} // verus!
