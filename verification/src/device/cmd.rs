//! Commands that only a device understands.

use vstd::prelude::*;
use crate::cmd::{Command, RawCommand};
use crate::device::record::{IoEvent, Recorded};
use crate::device::DeviceIo;
use crate::ffi::{rt_device_blk_geometry, RT_DEVICE_CTRL_BLK_GETGEOME};
use crate::RtError;

verus! {

/// Command can be used only for device
pub trait DeviceCommand: Command + Sized {
    type Return;

    /// Runs the command on `device` and hands back what it produced.
    fn exec<D: DeviceIo>(self, device: &mut Recorded<'_, D>) -> Result<Self::Return, RtError>;
}

impl DeviceCommand for RawCommand {
    type Return = RawCommand;

    /// Makes one control call with the command's code and words. On success
    /// the command comes back with the words as the device left them; else
    /// the device's error is the result.
    fn exec<D: DeviceIo>(self, device: &mut Recorded<'_, D>) -> (res: Result<RawCommand, RtError>)
        ensures
            final(device).log().len() == old(device).log().len() + 1,
            final(device).log().drop_last() == old(device).log(),
            final(device).log().last() matches IoEvent::Control { cmd, len, status, words } && {
                &&& cmd == self.code()
                &&& len == self.words().len()
                &&& match status {
                    Ok(_) => res matches Ok(done) && done.code() == self.code() && done.words()
                        == words,
                    Err(err) => res matches Err(failure) && failure == err,
                }
            },
    {
        let mut command = self;
        let cmd: i32 = command.get_cmd();
        let status = device.control(cmd, command.get_arg());
        proof {
            assert(device.log().drop_last() =~= old(device).log());
        }
        match status {
            Ok(_) => Ok(command),
            Err(err) => Err(err),
        }
    }
}

/// Get geometry information of block device
#[derive(Debug)]
pub struct GetGeometry {
    result: [u32; 3],
}

impl GetGeometry {
    /// The words that the device has filled in so far.
    pub closed spec fn words(&self) -> Seq<u32> {
        self.result@
    }

    /// The record that three words stand for, in the kernel's field order.
    pub open spec fn record(words: Seq<u32>) -> rt_device_blk_geometry {
        rt_device_blk_geometry {
            sector_count: words[0],
            bytes_per_sector: words[1],
            block_size: words[2],
        }
    }

    pub fn new() -> (command: Self)
        ensures
            command.words() == seq![0u32, 0u32, 0u32],
    {
        Self { result: [0u32, 0u32, 0u32] }
    }

    /// What the command yields once the device has answered with `reply`: the
    /// record it filled in on success, and no record at all on an error.
    pub fn complete(self, reply: Result<(), RtError>) -> (res: Result<
        rt_device_blk_geometry,
        RtError,
    >)
        ensures
            res == match reply {
                Ok(_) => Ok::<rt_device_blk_geometry, RtError>(Self::record(self.words())),
                Err(err) => Err::<rt_device_blk_geometry, RtError>(err),
            },
    {
        match reply {
            Ok(_) => Ok(
                rt_device_blk_geometry {
                    sector_count: self.result[0],
                    bytes_per_sector: self.result[1],
                    block_size: self.result[2],
                },
            ),
            Err(err) => Err(err),
        }
    }
}

impl Command for GetGeometry {
    fn get_cmd(&self) -> (cmd: i32)
        ensures
            cmd == RT_DEVICE_CTRL_BLK_GETGEOME,
    {
        RT_DEVICE_CTRL_BLK_GETGEOME
    }

    fn get_arg(&mut self) -> (arg: &mut [u32])
        ensures
            arg@ == old(self).words(),
            arg@.len() == 3,
            final(arg)@ == final(self).words(),
    {
        &mut self.result
    }
}

impl DeviceCommand for GetGeometry {
    type Return = rt_device_blk_geometry;

    /// Makes one control call that asks for the geometry, on three words.
    /// On success the result is the record that the device wrote into them;
    /// else it is the device's error, and the words are not looked at.
    fn exec<D: DeviceIo>(self, device: &mut Recorded<'_, D>) -> (res: Result<
        rt_device_blk_geometry,
        RtError,
    >)
        ensures
            final(device).log().len() == old(device).log().len() + 1,
            final(device).log().drop_last() == old(device).log(),
            final(device).log().last() matches IoEvent::Control { cmd, len, status, words } && {
                &&& cmd == RT_DEVICE_CTRL_BLK_GETGEOME
                &&& len == 3
                &&& res == match status {
                    Ok(_) => Ok::<rt_device_blk_geometry, RtError>(Self::record(words)),
                    Err(err) => Err::<rt_device_blk_geometry, RtError>(err),
                }
            },
    {
        let mut command = self;
        let cmd: i32 = command.get_cmd();
        let status = device.control(cmd, command.get_arg());
        proof {
            assert(device.log().drop_last() =~= old(device).log());
        }
        command.complete(status)
    }
}

} // verus!
