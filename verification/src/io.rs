//! Moving about in a stream of bytes.

use vstd::prelude::*;

verus! {

/// Enumeration of possible methods to seek within an I/O object.
///
/// It is used by the `seek` method of the device streams.
#[derive(Debug, Clone, Copy, PartialEq, Eq, Structural)]
pub enum SeekFrom {
    /// Sets the offset to the provided number of bytes.
    Start(u64),
    /// Sets the offset to the size of this object plus the specified number of
    /// bytes.
    ///
    /// It is possible to seek beyond the end of an object, but it's an error to
    /// seek before byte 0.
    End(i64),
    /// Sets the offset to the current position plus the specified number of
    /// bytes.
    ///
    /// It is possible to seek beyond the end of an object, but it's an error to
    /// seek before byte 0.
    Current(i64),
}

impl SeekFrom {
    /// The offset that a seek from the offset `here` aims at. A stream whose
    /// size is not known has no offset counted from its end.
    pub open spec fn target(self, here: int) -> Option<int> {
        match self {
            SeekFrom::Start(pos) => Some(pos as int),
            SeekFrom::End(_) => None,
            SeekFrom::Current(by) => Some(here + by),
        }
    }

    /// Whether a stream can stand at `offset` and report it: it is not
    /// negative and fits both the machine's sizes and the result of a seek.
    pub open spec fn reachable(offset: int) -> bool {
        0 <= offset <= usize::MAX && offset <= i64::MAX
    }

    /// The offset to seek to from `here`, where there is one that can be
    /// reached.
    pub fn resolve(self, here: u128) -> (offset: Option<usize>)
        ensures
            offset == match self.target(here as int) {
                Some(target) => if Self::reachable(target) {
                    Some(target as usize)
                } else {
                    None
                },
                None => None::<usize>,
            },
    {
        let target: u128 = match self {
            SeekFrom::Start(pos) => pos as u128,
            SeekFrom::End(_) => {
                return None;
            },
            SeekFrom::Current(by) => {
                if by >= 0 {
                    match here.checked_add(by as u128) {
                        Some(target) => target,
                        None => {
                            return None;
                        },
                    }
                } else {
                    let back: u128 = (-(by as i128)) as u128;
                    if back > here {
                        return None;
                    }
                    here - back
                }
            },
        };
        if target > usize::MAX as u128 || target > i64::MAX as u128 {
            None
        } else {
            Some(target as usize)
        }
    }
}

} // verus!
