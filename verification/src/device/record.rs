//! A device together with the record of the calls made on it.
//!
//! Nothing is known of what a device answers, so what an operation on a
//! device has done can only be told by the calls it has made and the answers
//! it has got. `Recorded` keeps that record as ghost state, and lets it grow
//! in one way only: by a call on the device.

use vstd::prelude::*;
use crate::device::{DeviceIo, DeviceType};
use crate::RtError;

verus! {

/// One call of a device operation: what the device was handed and what came
/// back from it.
pub enum IoEvent {
    /// The question what class the device is of, answered with `kind`.
    Kind { kind: DeviceType },
    /// The control operation `cmd` on `len` words, which held `words` when
    /// the call returned.
    Control { cmd: i32, len: nat, status: Result<(), RtError>, words: Seq<u32> },
    /// A read of `size` units at `pos` into a buffer of `len` bytes, which
    /// held `data` when the call returned.
    Read { pos: usize, size: usize, len: nat, reply: Result<usize, RtError>, data: Seq<u8> },
    /// A write of `size` units at `pos` out of the bytes `data`.
    Write { pos: usize, size: usize, data: Seq<u8>, reply: Result<usize, RtError> },
}

/// Whether the record `later` continues the record `earlier`.
pub open spec fn extends(later: Seq<IoEvent>, earlier: Seq<IoEvent>) -> bool {
    &&& earlier.len() <= later.len()
    &&& forall|i: int| 0 <= i < earlier.len() ==> later[i] == earlier[i]
}

/// A record that continues a continuation of a record continues that record.
pub proof fn lemma_extends_twice(last: Seq<IoEvent>, middle: Seq<IoEvent>, first: Seq<IoEvent>)
    requires
        extends(last, middle),
        extends(middle, first),
    ensures
        extends(last, first),
{
    assert forall|i: int| 0 <= i < first.len() implies last[i] == first[i] by {
        assert(middle[i] == first[i]);
    }
}

/// A record with one more event continues the record.
pub proof fn lemma_push_extends(log: Seq<IoEvent>, event: IoEvent)
    ensures
        extends(log.push(event), log),
        log.push(event)[log.len() as int] == event,
{
}

/// A borrowed device and the record of every call made on it through this
/// value, oldest first.
pub struct Recorded<'a, D: DeviceIo> {
    device: &'a mut D,
    log: Ghost<Seq<IoEvent>>,
}

impl<'a, D: DeviceIo> Recorded<'a, D> {
    /// The calls made so far.
    pub closed spec fn log(&self) -> Seq<IoEvent> {
        self.log@
    }

    /// Starts an empty record for `device`.
    pub fn new(device: &'a mut D) -> (recorded: Self)
        ensures
            recorded.log() == Seq::<IoEvent>::empty(),
    {
        Recorded { device, log: Ghost(Seq::empty()) }
    }

    /// Asks the device for its class.
    pub fn get_device_type(&mut self) -> (kind: DeviceType)
        ensures
            final(self).log() == old(self).log().push(IoEvent::Kind { kind }),
    {
        let kind = self.device.get_device_type();
        proof {
            self.log@ = self.log@.push(IoEvent::Kind { kind });
        }
        kind
    }

    /// Performs the control operation `cmd` on the words of `arg`.
    pub fn control(&mut self, cmd: i32, arg: &mut [u32]) -> (status: Result<(), RtError>)
        ensures
            final(self).log() == old(self).log().push(
                IoEvent::Control { cmd, len: old(arg)@.len(), status, words: final(arg)@ },
            ),
    {
        let ghost len = arg@.len();
        let status = self.device.control(cmd, arg);
        proof {
            self.log@ = self.log@.push(IoEvent::Control { cmd, len, status, words: arg@ });
        }
        status
    }

    /// Reads `size` units at `pos` into `buffer`.
    pub fn read(&mut self, pos: usize, buffer: &mut [u8], size: usize) -> (reply: Result<
        usize,
        RtError,
    >)
        ensures
            final(self).log() == old(self).log().push(
                IoEvent::Read { pos, size, len: old(buffer)@.len(), reply, data: final(buffer)@ },
            ),
    {
        let ghost len = buffer@.len();
        let reply = self.device.read(pos, buffer, size);
        proof {
            self.log@ = self.log@.push(IoEvent::Read { pos, size, len, reply, data: buffer@ });
        }
        reply
    }

    /// Writes `size` units of `buffer` at `pos`.
    pub fn write(&mut self, pos: usize, buffer: &[u8], size: usize) -> (reply: Result<
        usize,
        RtError,
    >)
        ensures
            final(self).log() == old(self).log().push(
                IoEvent::Write { pos, size, data: buffer@, reply },
            ),
    {
        let reply = self.device.write(pos, buffer, size);
        proof {
            self.log@ = self.log@.push(IoEvent::Write { pos, size, data: buffer@, reply });
        }
        reply
    }
}

} // verus!
