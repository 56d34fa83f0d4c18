//! Timer refers to triggering an event after a certain specified time from a specified moment.

use vstd::prelude::*;
use crate::object::Object;
use crate::RtError;

verus! {

/// How a timer runs: once or again and again, in the tick interrupt or in the timer thread.
#[derive(Copy, Clone, Debug, PartialEq, Eq)]
pub struct TimerFlags {
    bits: u8,
}

impl TimerFlags {
    /// The timer fires once.
    pub const ONE_SHOT: u8 = 0x000;

    /// The timer fires again and again.
    pub const PERIODIC: u8 = 0x002;

    /// The timer fires in the tick interrupt.
    pub const HARD_TIMER: u8 = 0x000;

    /// The timer fires in the timer thread.
    pub const SOFT_TIMER: u8 = 0x004;

    /// Every bit that stands for a flag.
    pub const ALL: u8 = 0x006;

    #[verifier::type_invariant]
    spec fn inv(self) -> bool {
        self.bits & !Self::ALL == 0
    }

    /// The bits of the flags that are set.
    pub closed spec fn value(&self) -> u8 {
        self.bits
    }

    /// The flags among `bits`; bits that stand for no flag are dropped.
    pub fn from_bits_truncate(bits: u8) -> (flags: Self)
        ensures
            flags.value() == bits & Self::ALL,
    {
        assert((bits & 0x006u8) & !0x006u8 == 0) by (bit_vector);
        Self { bits: bits & Self::ALL }
    }

    /// The raw value of the flags.
    pub fn bits(&self) -> (bits: u8)
        ensures
            bits == self.value(),
            bits & !Self::ALL == 0,
    {
        proof {
            use_type_invariant(self);
        }
        self.bits
    }

    /// Whether every flag of `other` is set.
    pub fn contains(&self, other: Self) -> (all: bool)
        ensures
            all == (self.value() & other.value() == other.value()),
    {
        self.bits & other.bits == other.bits
    }

    /// The flags of both.
    pub fn union(self, other: Self) -> (both: Self)
        ensures
            both.value() == self.value() | other.value(),
    {
        proof {
            use_type_invariant(self);
            use_type_invariant(other);
        }
        let a: u8 = self.bits;
        let b: u8 = other.bits;
        assert((a & !0x006u8 == 0 && b & !0x006u8 == 0) ==> (a | b) & !0x006u8 == 0) by (bit_vector);
        Self { bits: a | b }
    }
}

/// A handle to a kernel timer: the address of the kernel's object, which
/// the handle does not own. Copies of a handle stand for the same object.
#[derive(Copy, Clone, Debug)]
pub struct Timer {
    raw: usize,
}

impl Timer {
    #[verifier::type_invariant]
    spec fn inv(self) -> bool {
        self.raw != 0
    }

    /// Address of the kernel object.
    pub closed spec fn addr(&self) -> usize {
        self.raw
    }

    /// The handle for the address that a kernel call has returned: the
    /// kernel reports failure by the null address, which gives `Error`.
    pub fn from_raw(raw: usize) -> (res: Result<Self, RtError>)
        ensures
            raw == 0 ==> res == Err::<Self, RtError>(RtError::Error),
            raw != 0 ==> (res matches Ok(handle) && handle.addr() == raw),
    {
        if raw == 0 {
            Err(RtError::Error)
        } else {
            Ok(Self { raw })
        }
    }

    /// Address of the kernel object, to hand to the kernel.
    pub fn as_raw(&self) -> (raw: usize)
        ensures
            raw == self.addr(),
            raw != 0,
    {
        proof {
            use_type_invariant(self);
        }
        self.raw
    }
}

impl Object for Timer {
    fn get_ptr(&self) -> (ptr: usize)
        ensures
            ptr == self.addr(),
    {
        self.as_raw()
    }
}

} // verus!
