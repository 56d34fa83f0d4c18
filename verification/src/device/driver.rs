//! A driver together with the record of the calls made on it.
//!
//! Nothing is known of what a driver answers, so what an entry point of the
//! kernel has done can only be told by the calls it has made on the driver
//! and the answers it has got. `Driven` keeps that record as ghost state, and
//! lets it grow in one way only: by a call on the driver.

use vstd::prelude::*;
use crate::device::{Device, DeviceOps, OpenFlag};
use crate::RtError;

verus! {

/// One call of a driver's operation: what the driver was handed and what
/// came back from it. `dev` is the address of the device that the call was
/// made for.
pub enum DriverEvent {
    Init { dev: usize, status: Result<(), RtError> },
    Open { dev: usize, oflag: u16, status: Result<(), RtError> },
    Close { dev: usize, status: Result<(), RtError> },
    /// A read of `size` units at `pos` into a buffer of `len` bytes, which
    /// held `data` when the call returned.
    Read {
        dev: usize,
        pos: usize,
        size: usize,
        len: nat,
        reply: Result<usize, RtError>,
        data: Seq<u8>,
    },
    /// A write of `size` units at `pos` out of the bytes `data`.
    Write { dev: usize, pos: usize, size: usize, data: Seq<u8>, reply: Result<usize, RtError> },
    Control { dev: usize, cmd: i32, args: usize, status: Result<(), RtError> },
    /// The question for the size of a block, answered with `bytes`.
    BlockSize { bytes: usize },
}

/// A borrowed driver and the record of every call made on it through this
/// value, oldest first.
pub struct Driven<'a, O: DeviceOps + ?Sized> {
    ops: &'a mut O,
    log: Ghost<Seq<DriverEvent>>,
}

impl<'a, O: DeviceOps + ?Sized> Driven<'a, O> {
    /// The calls made so far.
    pub closed spec fn log(&self) -> Seq<DriverEvent> {
        self.log@
    }

    /// Starts an empty record for `ops`.
    pub fn new(ops: &'a mut O) -> (driven: Self)
        ensures
            driven.log() == Seq::<DriverEvent>::empty(),
    {
        Driven { ops, log: Ghost(Seq::empty()) }
    }

    pub fn init(&mut self, device: &mut Device) -> (status: Result<(), RtError>)
        ensures
            final(self).log() == old(self).log().push(
                DriverEvent::Init { dev: old(device).addr(), status },
            ),
    {
        let ghost dev = device.addr();
        let status = self.ops.init(device);
        proof {
            self.log@ = self.log@.push(DriverEvent::Init { dev, status });
        }
        status
    }

    pub fn open(&mut self, device: &mut Device, oflag: OpenFlag) -> (status: Result<(), RtError>)
        ensures
            final(self).log() == old(self).log().push(
                DriverEvent::Open { dev: old(device).addr(), oflag: oflag.value(), status },
            ),
    {
        let ghost dev = device.addr();
        let status = self.ops.open(device, oflag);
        proof {
            self.log@ = self.log@.push(DriverEvent::Open { dev, oflag: oflag.value(), status });
        }
        status
    }

    pub fn close(&mut self, device: &mut Device) -> (status: Result<(), RtError>)
        ensures
            final(self).log() == old(self).log().push(
                DriverEvent::Close { dev: old(device).addr(), status },
            ),
    {
        let ghost dev = device.addr();
        let status = self.ops.close(device);
        proof {
            self.log@ = self.log@.push(DriverEvent::Close { dev, status });
        }
        status
    }

    pub fn read(&mut self, device: &mut Device, pos: usize, buffer: &mut [u8], size: usize) -> (reply:
        Result<usize, RtError>)
        ensures
            final(self).log() == old(self).log().push(
                DriverEvent::Read {
                    dev: old(device).addr(),
                    pos,
                    size,
                    len: old(buffer)@.len(),
                    reply,
                    data: final(buffer)@,
                },
            ),
    {
        let ghost dev = device.addr();
        let ghost len = buffer@.len();
        let reply = self.ops.read(device, pos, buffer, size);
        proof {
            self.log@ = self.log@.push(
                DriverEvent::Read { dev, pos, size, len, reply, data: buffer@ },
            );
        }
        reply
    }

    pub fn write(&mut self, device: &mut Device, pos: usize, buffer: &[u8], size: usize) -> (reply:
        Result<usize, RtError>)
        ensures
            final(self).log() == old(self).log().push(
                DriverEvent::Write { dev: old(device).addr(), pos, size, data: buffer@, reply },
            ),
    {
        let ghost dev = device.addr();
        let reply = self.ops.write(device, pos, buffer, size);
        proof {
            self.log@ = self.log@.push(
                DriverEvent::Write { dev, pos, size, data: buffer@, reply },
            );
        }
        reply
    }

    pub fn control(&mut self, device: &mut Device, cmd: i32, args: usize) -> (status: Result<
        (),
        RtError,
    >)
        ensures
            final(self).log() == old(self).log().push(
                DriverEvent::Control { dev: old(device).addr(), cmd, args, status },
            ),
    {
        let ghost dev = device.addr();
        let status = self.ops.control(device, cmd, args);
        proof {
            self.log@ = self.log@.push(DriverEvent::Control { dev, cmd, args, status });
        }
        status
    }

    pub fn get_block_size(&mut self) -> (bytes: usize)
        ensures
            final(self).log() == old(self).log().push(DriverEvent::BlockSize { bytes }),
    {
        let bytes = self.ops.get_block_size();
        proof {
            self.log@ = self.log@.push(DriverEvent::BlockSize { bytes });
        }
        bytes
    }
}

} // verus!
