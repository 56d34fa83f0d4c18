//! What all kernel objects have in common.

use vstd::prelude::*;

verus! {

/// A handle to a kernel object.
pub trait Object {
    /// Address of the kernel object that the handle stands for. A handle
    /// never stands for the null address.
    fn get_ptr(&self) -> (ptr: usize)
        ensures
            ptr != 0,
    ;
}

} // verus!
