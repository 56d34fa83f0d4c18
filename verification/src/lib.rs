//! Ownership-typed bindings over the RT-Thread kernel: the values that cross
//! the kernel boundary, and the rules by which they are encoded and decoded.

use vstd::prelude::*;

pub mod cmd;
pub mod cstr;
pub mod device;
pub mod ffi;
pub mod fmt;
pub mod io;
pub mod ipc;
pub mod object;
pub mod thread;
pub mod timer;

use crate::ffi::{
    rt_err_t, RT_EBUSY, RT_EEMPTY, RT_EFULL, RT_EINTR, RT_EINVAL, RT_EIO, RT_ENOMEM, RT_ENOSYS, RT_EOK,
    RT_ERROR, RT_ETIMEOUT,
};

verus! {

/// RT-Thread error code definitions
#[derive(Debug, Clone, Copy, PartialEq, Eq, Structural)]
pub enum RtError {
    /// A generic error happens
    Error,
    /// Timed out
    TimeOut,
    /// The resource is full
    Full,
    /// The resource is empty
    Empty,
    /// No memory
    NoMem,
    /// No system
    NoSys,
    /// Busy
    Busy,
    /// IO error
    IO,
    /// Interrupted system call
    Intr,
    /// Invalid argument
    Inval,
    /// Unknown error
    Unknown,
}

impl RtError {
    /// The kind that a kernel status stands for: none for zero, else the kind
    /// listed for the status's magnitude, `Unknown` where none is listed.
    pub open spec fn decode(code: int) -> Option<RtError> {
        let magnitude = if code < 0 { -code } else { code };
        if magnitude == RT_EOK {
            None
        } else if magnitude == RT_ETIMEOUT {
            Some(RtError::TimeOut)
        } else if magnitude == RT_EFULL {
            Some(RtError::Full)
        } else if magnitude == RT_EEMPTY {
            Some(RtError::Empty)
        } else if magnitude == RT_ENOMEM {
            Some(RtError::NoMem)
        } else if magnitude == RT_ENOSYS {
            Some(RtError::NoSys)
        } else if magnitude == RT_EBUSY {
            Some(RtError::Busy)
        } else if magnitude == RT_EIO {
            Some(RtError::IO)
        } else if magnitude == RT_EINTR {
            Some(RtError::Intr)
        } else if magnitude == RT_EINVAL {
            Some(RtError::Inval)
        } else {
            Some(RtError::Unknown)
        }
    }

    /// The status that reports this kind to the kernel: minus the kind's
    /// code, and for `Unknown` minus the number behind the last code.
    pub open spec fn encode(self) -> int {
        match self {
            RtError::Error => -RT_ERROR,
            RtError::TimeOut => -RT_ETIMEOUT,
            RtError::Full => -RT_EFULL,
            RtError::Empty => -RT_EEMPTY,
            RtError::NoMem => -RT_ENOMEM,
            RtError::NoSys => -RT_ENOSYS,
            RtError::Busy => -RT_EBUSY,
            RtError::IO => -RT_EIO,
            RtError::Intr => -RT_EINTR,
            RtError::Inval => -RT_EINVAL,
            RtError::Unknown => -(RT_EINVAL + 1),
        }
    }

    /// The kind that this kind comes back as once the kernel has carried its
    /// status: itself, but for `Error`, which the kernel's table does not
    /// list and which therefore comes back as `Unknown`.
    pub open spec fn carried(self) -> RtError {
        if self == RtError::Error {
            RtError::Unknown
        } else {
            self
        }
    }

    /// Decodes a kernel status. Zero is success; every other status is an
    /// error, also one that no kind is listed for.
    pub fn from_code(err: rt_err_t) -> (kind: Option<Self>)
        ensures
            kind == Self::decode(err as int),
            kind is None <==> err == 0,
    {
        if err == i32::MIN {
            return Some(RtError::Unknown);
        }
        let magnitude: i32 = if err < 0 { -err } else { err };
        if magnitude == RT_EOK {
            None
        } else if magnitude == RT_ETIMEOUT {
            Some(RtError::TimeOut)
        } else if magnitude == RT_EFULL {
            Some(RtError::Full)
        } else if magnitude == RT_EEMPTY {
            Some(RtError::Empty)
        } else if magnitude == RT_ENOMEM {
            Some(RtError::NoMem)
        } else if magnitude == RT_ENOSYS {
            Some(RtError::NoSys)
        } else if magnitude == RT_EBUSY {
            Some(RtError::Busy)
        } else if magnitude == RT_EIO {
            Some(RtError::IO)
        } else if magnitude == RT_EINTR {
            Some(RtError::Intr)
        } else if magnitude == RT_EINVAL {
            Some(RtError::Inval)
        } else {
            Some(RtError::Unknown)
        }
    }

    /// Turns a kernel status into a result that carries `ok` on success.
    pub fn from_code_none<R>(err: rt_err_t, ok: R) -> (res: Result<R, RtError>)
        ensures
            res == match Self::decode(err as int) {
                None => Ok::<R, RtError>(ok),
                Some(kind) => Err::<R, RtError>(kind),
            },
    {
        match Self::from_code(err) {
            None => Ok(ok),
            Some(kind) => Err(kind),
        }
    }

    /// Turns a kernel status into a result; `ok` runs on success only, and
    /// then exactly once.
    pub fn from_code_none_then<F, R>(err: rt_err_t, ok: F) -> (res: Result<R, RtError>) where
        F: FnOnce() -> R,

        requires
            Self::decode(err as int) is None ==> call_requires(ok, ()),
        ensures
            match Self::decode(err as int) {
                None => res is Ok && call_ensures(ok, (), res->Ok_0),
                Some(kind) => res == Err::<R, RtError>(kind),
            },
    {
        match Self::from_code(err) {
            None => Ok(ok()),
            Some(kind) => Err(kind),
        }
    }

    /// Encodes this kind as the status handed back to the kernel.
    pub fn to_code(&self) -> (code: rt_err_t)
        ensures
            code == self.encode(),
            code < 0,
    {
        let code: rt_err_t = match self {
            RtError::Error => RT_ERROR,
            RtError::TimeOut => RT_ETIMEOUT,
            RtError::Full => RT_EFULL,
            RtError::Empty => RT_EEMPTY,
            RtError::NoMem => RT_ENOMEM,
            RtError::NoSys => RT_ENOSYS,
            RtError::Busy => RT_EBUSY,
            RtError::IO => RT_EIO,
            RtError::Intr => RT_EINTR,
            RtError::Inval => RT_EINVAL,
            RtError::Unknown => RT_EINVAL + 1,
        };
        -code
    }
}

/// A status and its negative stand for the same kind: only the magnitude of a
/// status counts.
pub proof fn lemma_decode_ignores_sign(code: int)
    ensures
        RtError::decode(code) == RtError::decode(-code),
{
}

/// Zero is the only status that stands for success, and the statuses that
/// stand for `Unknown` are those whose magnitude the table does not list:
/// one, and everything above ten.
pub proof fn lemma_decode_unlisted_is_unknown(code: int)
    ensures
        RtError::decode(code) is None <==> code == 0,
        RtError::decode(code) == Some(RtError::Unknown) <==> (code == 1 || code == -1 || code > 10
            || code < -10),
{
}

/// The status of an error kind never stands for success, and it decodes to
/// the kind it was made from; `Error` alone, which the table does not list,
/// comes back as `Unknown`.
pub proof fn lemma_encode_then_decode(kind: RtError)
    ensures
        kind.encode() < 0,
        RtError::decode(kind.encode()) == Some(kind.carried()),
        kind != RtError::Error ==> RtError::decode(kind.encode()) == Some(kind),
{
}

/// Encoding and decoding again changes nothing any more: the kind that came
/// back from the kernel comes back as itself.
pub proof fn lemma_carried_settles(kind: RtError)
    ensures
        kind.carried().carried() == kind.carried(),
        RtError::decode(kind.carried().encode()) == Some(kind.carried()),
{
}

} // verus!
