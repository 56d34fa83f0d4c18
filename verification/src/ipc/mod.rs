//! RT-Thread uses thread semaphores, mutexes, and event sets to achieve inter-thread synchronization.

use vstd::prelude::*;
use crate::ffi::{RT_IPC_FLAG_FIFO, RT_IPC_FLAG_PRIO};

pub mod mutex;
pub mod sem;

verus! {

/// Order in which the threads that wait for an object are woken.
#[derive(Copy, Clone, Debug, PartialEq, Eq, Structural)]
pub enum IpcFlag {
    /// First come, first served.
    Fifo,
    /// The thread of the highest priority first.
    Priority,
}

impl From<IpcFlag> for u8 {
    /// The kernel's number for the order.
    #[inline]
    fn from(flag: IpcFlag) -> (code: u8) {
        match flag {
            IpcFlag::Fifo => RT_IPC_FLAG_FIFO,
            IpcFlag::Priority => RT_IPC_FLAG_PRIO,
        }
    }
}

impl vstd::std_specs::convert::FromSpecImpl<IpcFlag> for u8 {
    open spec fn obeys_from_spec() -> bool {
        true
    }

    open spec fn from_spec(flag: IpcFlag) -> u8 {
        match flag {
            IpcFlag::Fifo => RT_IPC_FLAG_FIFO,
            IpcFlag::Priority => RT_IPC_FLAG_PRIO,
        }
    }
}

} // verus!
