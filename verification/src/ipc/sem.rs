//! Semaphores of the kernel.

use vstd::prelude::*;
use crate::object::Object;
use crate::RtError;

verus! {

/// A handle to a kernel semaphore: the address of the kernel's object, which
/// the handle does not own. Copies of a handle stand for the same object.
#[derive(Copy, Clone, Debug)]
pub struct Semaphore {
    raw: usize,
}

impl Semaphore {
    #[verifier::type_invariant]
    spec fn inv(self) -> bool {
        self.raw != 0
    }

    /// Address of the kernel object.
    pub closed spec fn addr(&self) -> usize {
        self.raw
    }

    /// The handle for the address that a kernel call has returned: the
    /// kernel reports failure by the null address, which gives `Error`.
    pub fn from_raw(raw: usize) -> (res: Result<Self, RtError>)
        ensures
            raw == 0 ==> res == Err::<Self, RtError>(RtError::Error),
            raw != 0 ==> (res matches Ok(handle) && handle.addr() == raw),
    {
        if raw == 0 {
            Err(RtError::Error)
        } else {
            Ok(Self { raw })
        }
    }

    /// Address of the kernel object, to hand to the kernel.
    pub fn as_raw(&self) -> (raw: usize)
        ensures
            raw == self.addr(),
            raw != 0,
    {
        proof {
            use_type_invariant(self);
        }
        self.raw
    }
}

impl Object for Semaphore {
    fn get_ptr(&self) -> (ptr: usize)
        ensures
            ptr == self.addr(),
    {
        self.as_raw()
    }
}

} // verus!
