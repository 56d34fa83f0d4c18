//! Kernel devices: their classes and flags, the operations a device answers,
//! the bridge between the kernel's calls and a driver, and the commands,
//! readers and writers built on a device's operations.

use vstd::prelude::*;
use crate::device::driver::{DriverEvent, Driven};
use crate::ffi::{rt_device_class_type, rt_err_t, rt_off_t, rt_size_t};
use crate::RtError;

pub mod cmd;
pub mod driver;
pub mod io;
pub mod record;

pub use crate::device::cmd::{DeviceCommand, GetGeometry};
pub use crate::device::io::{BlockDevice, CharDevice};

verus! {

/// Class of a kernel device.
pub type DeviceType = rt_device_class_type;

/// How a device is opened.
#[derive(Copy, Clone, Debug, PartialEq, Eq)]
pub struct OpenFlag {
    bits: u16,
}

impl OpenFlag {
    /// The device is closed (kept by the kernel).
    pub const CLOSE: u16 = 0x000;

    /// Open for reading only.
    pub const RDONLY: u16 = 0x001;

    /// Open for writing only.
    pub const WRONLY: u16 = 0x002;

    /// Open for reading and writing.
    pub const RDWR: u16 = 0x003;

    /// The device is open (kept by the kernel).
    pub const OPEN: u16 = 0x008;

    /// Open in stream mode.
    pub const STREAM: u16 = 0x040;

    /// Receive by interrupt.
    pub const INT_RX: u16 = 0x100;

    /// Receive by DMA.
    pub const DMA_RX: u16 = 0x200;

    /// Send by interrupt.
    pub const INT_TX: u16 = 0x400;

    /// Send by DMA.
    pub const DMA_TX: u16 = 0x800;

    /// Every bit that stands for a flag.
    pub const ALL: u16 = 0xf4b;

    #[verifier::type_invariant]
    spec fn inv(self) -> bool {
        self.bits & !Self::ALL == 0
    }

    /// The bits of the flags that are set.
    pub closed spec fn value(&self) -> u16 {
        self.bits
    }

    /// The flags among `bits`; bits that stand for no flag are dropped.
    pub fn from_bits_truncate(bits: u16) -> (flags: Self)
        ensures
            flags.value() == bits & Self::ALL,
    {
        assert((bits & 0xf4bu16) & !0xf4bu16 == 0) by (bit_vector);
        Self { bits: bits & Self::ALL }
    }

    /// The raw value of the flags.
    pub fn bits(&self) -> (bits: u16)
        ensures
            bits == self.value(),
            bits & !Self::ALL == 0,
    {
        proof {
            use_type_invariant(self);
        }
        self.bits
    }

    /// Whether every flag of `other` is set.
    pub fn contains(&self, other: Self) -> (all: bool)
        ensures
            all == (self.value() & other.value() == other.value()),
    {
        self.bits & other.bits == other.bits
    }

    /// The flags of both.
    pub fn union(self, other: Self) -> (both: Self)
        ensures
            both.value() == self.value() | other.value(),
    {
        proof {
            use_type_invariant(self);
            use_type_invariant(other);
        }
        let a: u16 = self.bits;
        let b: u16 = other.bits;
        assert((a & !0xf4bu16 == 0 && b & !0xf4bu16 == 0) ==> (a | b) & !0xf4bu16 == 0) by (bit_vector);
        Self { bits: a | b }
    }
}

/// What a device that is being registered can do.
#[derive(Copy, Clone, Debug, PartialEq, Eq)]
pub struct RegisterFlag {
    bits: u16,
}

impl RegisterFlag {
    /// Can be read.
    pub const RDONLY: u16 = 0x001;

    /// Can be written.
    pub const WRONLY: u16 = 0x002;

    /// Can be read and written.
    pub const RDWR: u16 = 0x003;

    /// Can be removed.
    pub const REMOVABLE: u16 = 0x004;

    /// Stands alone.
    pub const STANDALONE: u16 = 0x008;

    /// Is suspended.
    pub const SUSPENDED: u16 = 0x020;

    /// Works in stream mode.
    pub const STREAM: u16 = 0x040;

    /// Can receive by interrupt.
    pub const INT_RX: u16 = 0x100;

    /// Can receive by DMA.
    pub const DMA_RX: u16 = 0x200;

    /// Can send by interrupt.
    pub const INT_TX: u16 = 0x400;

    /// Can send by DMA.
    pub const DMA_TX: u16 = 0x800;

    /// Every bit that stands for a flag.
    pub const ALL: u16 = 0xf6f;

    #[verifier::type_invariant]
    spec fn inv(self) -> bool {
        self.bits & !Self::ALL == 0
    }

    /// The bits of the flags that are set.
    pub closed spec fn value(&self) -> u16 {
        self.bits
    }

    /// The flags among `bits`; bits that stand for no flag are dropped.
    pub fn from_bits_truncate(bits: u16) -> (flags: Self)
        ensures
            flags.value() == bits & Self::ALL,
    {
        assert((bits & 0xf6fu16) & !0xf6fu16 == 0) by (bit_vector);
        Self { bits: bits & Self::ALL }
    }

    /// The raw value of the flags.
    pub fn bits(&self) -> (bits: u16)
        ensures
            bits == self.value(),
            bits & !Self::ALL == 0,
    {
        proof {
            use_type_invariant(self);
        }
        self.bits
    }

    /// Whether every flag of `other` is set.
    pub fn contains(&self, other: Self) -> (all: bool)
        ensures
            all == (self.value() & other.value() == other.value()),
    {
        self.bits & other.bits == other.bits
    }

    /// The flags of both.
    pub fn union(self, other: Self) -> (both: Self)
        ensures
            both.value() == self.value() | other.value(),
    {
        proof {
            use_type_invariant(self);
            use_type_invariant(other);
        }
        let a: u16 = self.bits;
        let b: u16 = other.bits;
        assert((a & !0xf6fu16 == 0 && b & !0xf6fu16 == 0) ==> (a | b) & !0xf6fu16 == 0) by (bit_vector);
        Self { bits: a | b }
    }
}

/// A handle to a kernel device: the address of the kernel's object, which
/// the handle does not own.
#[derive(Debug)]
pub struct Device {
    raw: usize,
}

impl Device {
    #[verifier::type_invariant]
    spec fn inv(self) -> bool {
        self.raw != 0
    }

    /// Address of the kernel object.
    pub closed spec fn addr(&self) -> usize {
        self.raw
    }

    /// The handle for the address that a kernel call has returned: the
    /// kernel reports failure by the null address, which gives `Error`.
    pub fn from_raw(raw: usize) -> (res: Result<Self, RtError>)
        ensures
            raw == 0 ==> res == Err::<Self, RtError>(RtError::Error),
            raw != 0 ==> (res matches Ok(handle) && handle.addr() == raw),
    {
        if raw == 0 {
            Err(RtError::Error)
        } else {
            Ok(Self { raw })
        }
    }

    /// Address of the kernel object, to hand to the kernel.
    pub fn as_raw(&self) -> (raw: usize)
        ensures
            raw == self.addr(),
            raw != 0,
    {
        proof {
            use_type_invariant(self);
        }
        self.raw
    }
}

/// The operations of an opened device, as the kernel offers them for a device
/// handle. Positions and sizes count blocks on a block device and bytes on any
/// other; a buffer holds `size` blocks or bytes. Nothing is assumed of what an
/// operation returns.
pub trait DeviceIo {
    fn get_device_type(&self) -> DeviceType;

    /// Performs the control operation `cmd` on the words of `arg`.
    fn control(&mut self, cmd: i32, arg: &mut [u32]) -> Result<(), RtError>;

    /// Reads `size` units at `pos` into `buffer`; gives the units read.
    fn read(&mut self, pos: usize, buffer: &mut [u8], size: usize) -> Result<usize, RtError>;

    /// Writes `size` units of `buffer` at `pos`; gives the units written.
    fn write(&mut self, pos: usize, buffer: &[u8], size: usize) -> Result<usize, RtError>;
}

/// A driver: the operations that the kernel asks of a device. Positions and
/// sizes count units of `get_block_size` bytes, and a buffer holds `size`
/// such units. `args` is the address that the caller of the control
/// operation has handed to the kernel.
pub trait DeviceOps {
    fn init(&mut self, device: &mut Device) -> Result<(), RtError>;

    fn open(&mut self, device: &mut Device, oflag: OpenFlag) -> Result<(), RtError>;

    fn close(&mut self, device: &mut Device) -> Result<(), RtError>;

    fn read(&mut self, device: &mut Device, pos: usize, buffer: &mut [u8], size: usize) -> Result<
        usize,
        RtError,
    >;

    fn write(&mut self, device: &mut Device, pos: usize, buffer: &[u8], size: usize) -> Result<
        usize,
        RtError,
    >;

    fn control(&mut self, device: &mut Device, cmd: i32, args: usize) -> Result<(), RtError>;

    #[inline]
    fn get_block_size(&self) -> usize {
        1
    }
}

/// What a read or write entry hands back to the kernel: the number of units
/// transferred, and the status to leave in the kernel's error variable where
/// the transfer failed.
#[derive(Debug, Clone, Copy, PartialEq, Eq, Structural)]
pub struct Transfer {
    pub size: rt_size_t,
    pub errno: Option<rt_err_t>,
}

impl Transfer {
    /// The transfer that failed with `err`: nothing has gone, and the
    /// error's status is left for the caller.
    pub open spec fn failure(err: RtError) -> Transfer {
        Transfer { size: 0, errno: Some(err.encode() as rt_err_t) }
    }

    /// What a driver's result comes to for the kernel.
    pub open spec fn of(result: Result<usize, RtError>) -> Transfer {
        match result {
            Ok(size) => Transfer { size, errno: None },
            Err(err) => Self::failure(err),
        }
    }

    /// Whether the kernel can take the transfer: a failure has moved nothing
    /// and leaves the status of an error kind.
    pub open spec fn sound(self) -> bool {
        self.errno matches Some(code) ==> self.size == 0 && exists|err: RtError|
            code == #[trigger] err.encode()
    }
}

/// The status that a driver's result comes to for the kernel: zero for
/// success, and the status of its kind for an error.
pub open spec fn status_of(result: Result<(), RtError>) -> int {
    match result {
        Ok(_) => 0,
        Err(err) => err.encode(),
    }
}

/// What a driver answers is what the caller of the kernel gets: the status
/// that stands for the driver's result is zero for success only, and it
/// decodes to success for success and to the driver's error, as the kernel
/// carries it, for an error.
pub proof fn lemma_status_carries_the_result(result: Result<(), RtError>)
    ensures
        status_of(result) == 0 <==> result is Ok,
        RtError::decode(status_of(result)) == match result {
            Ok(_) => None,
            Err(err) => Some(err.carried()),
        },
{
}

/// A failed transfer reports a status that decodes to the driver's error, as
/// the kernel carries it, and a transfer that went through reports none.
pub proof fn lemma_transfer_carries_the_result(result: Result<usize, RtError>)
    ensures
        Transfer::of(result).errno is Some <==> result is Err,
        result matches Err(err) ==> RtError::decode(Transfer::of(result).errno->Some_0 as int)
            == Some(err.carried()),
{
}

/// The status that a driver's result comes to for the kernel: zero for
/// success and for nothing else.
pub fn status_code(result: Result<(), RtError>) -> (code: rt_err_t)
    ensures
        code == status_of(result),
        code == 0 <==> result is Ok,
{
    match result {
        Ok(_) => 0,
        Err(err) => err.to_code(),
    }
}

/// What a driver's result of a read or write comes to for the kernel.
pub fn transfer_status(result: Result<usize, RtError>) -> (transfer: Transfer)
    ensures
        transfer == Transfer::of(result),
        transfer.sound(),
{
    match result {
        Ok(size) => Transfer { size, errno: None },
        Err(err) => Transfer { size: 0, errno: Some(err.to_code()) },
    }
}

/// Number of bytes in a buffer of `size` units of `block_size` bytes, where
/// the machine can count that far.
pub fn transfer_len(size: rt_size_t, block_size: usize) -> (len: Option<usize>)
    ensures
        len == if size * block_size <= usize::MAX {
            Some((size * block_size) as usize)
        } else {
            None
        },
{
    size.checked_mul(block_size)
}

/// Whether the record `later` is the record `earlier` with `count` more
/// events behind it.
pub open spec fn grown_by(later: Seq<DriverEvent>, earlier: Seq<DriverEvent>, count: nat) -> bool {
    &&& later.len() == earlier.len() + count
    &&& later.subrange(0, earlier.len() as int) == earlier
}

/// The kernel's `init` call for the device at `dev`, passed on to its driver
/// in one call, whose answer decides the status. A null `dev` is answered
/// with the status of `Error`, and the driver is not asked.
pub fn init_wrapper<O: DeviceOps + ?Sized>(ops: &mut Driven<'_, O>, dev: usize) -> (code: rt_err_t)
    ensures
        dev == 0 ==> final(ops).log() == old(ops).log() && code == RtError::Error.encode(),
        dev != 0 ==> {
            &&& grown_by(final(ops).log(), old(ops).log(), 1)
            &&& final(ops).log().last() matches DriverEvent::Init { dev: asked, status }
            &&& asked == dev
            &&& code == status_of(status)
        },
{
    match Device::from_raw(dev) {
        Ok(mut device) => {
            let status = ops.init(&mut device);
            proof {
                assert(ops.log().subrange(0, old(ops).log().len() as int) =~= old(ops).log());
            }
            status_code(status)
        },
        Err(err) => err.to_code(),
    }
}

/// The kernel's `open` call for the device at `dev`, passed on to its
/// driver in one call with the flags that `oflag` holds; the driver's answer
/// decides the status. A null `dev` is answered with the status of `Error`,
/// and the driver is not asked.
pub fn open_wrapper<O: DeviceOps + ?Sized>(ops: &mut Driven<'_, O>, dev: usize, oflag: u16) -> (code:
    rt_err_t)
    ensures
        dev == 0 ==> final(ops).log() == old(ops).log() && code == RtError::Error.encode(),
        dev != 0 ==> {
            &&& grown_by(final(ops).log(), old(ops).log(), 1)
            &&& final(ops).log().last() matches DriverEvent::Open { dev: asked, oflag: flags, status }
            &&& asked == dev
            &&& flags == oflag & OpenFlag::ALL
            &&& code == status_of(status)
        },
{
    match Device::from_raw(dev) {
        Ok(mut device) => {
            let status = ops.open(&mut device, OpenFlag::from_bits_truncate(oflag));
            proof {
                assert(ops.log().subrange(0, old(ops).log().len() as int) =~= old(ops).log());
            }
            status_code(status)
        },
        Err(err) => err.to_code(),
    }
}

/// The kernel's `close` call for the device at `dev`, passed on to its
/// driver in one call, whose answer decides the status. A null `dev` is
/// answered with the status of `Error`, and the driver is not asked.
pub fn close_wrapper<O: DeviceOps + ?Sized>(ops: &mut Driven<'_, O>, dev: usize) -> (code: rt_err_t)
    ensures
        dev == 0 ==> final(ops).log() == old(ops).log() && code == RtError::Error.encode(),
        dev != 0 ==> {
            &&& grown_by(final(ops).log(), old(ops).log(), 1)
            &&& final(ops).log().last() matches DriverEvent::Close { dev: asked, status }
            &&& asked == dev
            &&& code == status_of(status)
        },
{
    match Device::from_raw(dev) {
        Ok(mut device) => {
            let status = ops.close(&mut device);
            proof {
                assert(ops.log().subrange(0, old(ops).log().len() as int) =~= old(ops).log());
            }
            status_code(status)
        },
        Err(err) => err.to_code(),
    }
}

/// Whether a transfer of `size` units at `pos` with a buffer of `len` bytes
/// can be passed on to a driver whose blocks have `bytes` bytes: the position
/// is not negative, and the buffer holds exactly `size` blocks.
pub open spec fn fits(pos: rt_off_t, len: nat, size: rt_size_t, bytes: usize) -> bool {
    pos >= 0 && size * bytes == len
}

/// The kernel's `read` call for the device at `dev`. A null `dev` is
/// answered with `Error` and a negative `pos` with `Inval`, and the driver is
/// not asked. Else the driver is asked for its block size; where `buffer`
/// does not hold `size` blocks the call is answered with `Inval`, else it is
/// passed on to the driver in one call, whose answer decides what is handed
/// back, and `buffer` holds what the driver left in it.
pub fn read_wrapper<O: DeviceOps + ?Sized>(
    ops: &mut Driven<'_, O>,
    dev: usize,
    pos: rt_off_t,
    buffer: &mut [u8],
    size: rt_size_t,
) -> (transfer: Transfer)
    ensures
        transfer.sound(),
        dev == 0 ==> final(ops).log() == old(ops).log() && transfer == Transfer::failure(
            RtError::Error,
        ) && final(buffer)@ == old(buffer)@,
        dev != 0 && pos < 0 ==> final(ops).log() == old(ops).log() && transfer
            == Transfer::failure(RtError::Inval) && final(buffer)@ == old(buffer)@,
        dev != 0 && pos >= 0 ==> {
            let first = old(ops).log().len() as int;
            &&& final(ops).log().len() > first
            &&& final(ops).log()[first] matches DriverEvent::BlockSize { bytes }
            &&& if fits(pos, old(buffer)@.len(), size, bytes) {
                &&& grown_by(final(ops).log(), old(ops).log(), 2)
                &&& final(ops).log().last() matches DriverEvent::Read {
                    dev: asked,
                    pos: at,
                    size: units,
                    len,
                    reply,
                    data,
                }
                &&& asked == dev
                &&& at == pos
                &&& units == size
                &&& len == old(buffer)@.len()
                &&& data == final(buffer)@
                &&& transfer == Transfer::of(reply)
            } else {
                &&& grown_by(final(ops).log(), old(ops).log(), 1)
                &&& transfer == Transfer::failure(RtError::Inval)
                &&& final(buffer)@ == old(buffer)@
            }
        },
{
    let mut device = match Device::from_raw(dev) {
        Ok(device) => device,
        Err(err) => {
            return transfer_status(Err(err));
        },
    };
    if pos < 0 {
        return transfer_status(Err(RtError::Inval));
    }
    let bytes: usize = ops.get_block_size();
    let have: usize = buffer.len();
    let fitting = match transfer_len(size, bytes) {
        Some(len) => len == have,
        None => false,
    };
    if !fitting {
        proof {
            assert(ops.log().subrange(0, old(ops).log().len() as int) =~= old(ops).log());
        }
        return transfer_status(Err(RtError::Inval));
    }
    let reply = ops.read(&mut device, pos as usize, buffer, size);
    proof {
        assert(ops.log().subrange(0, old(ops).log().len() as int) =~= old(ops).log());
    }
    transfer_status(reply)
}

/// The kernel's `write` call for the device at `dev`. A null `dev` is
/// answered with `Error` and a negative `pos` with `Inval`, and the driver is
/// not asked. Else the driver is asked for its block size; where `buffer`
/// does not hold `size` blocks the call is answered with `Inval`, else it is
/// passed on to the driver in one call, whose answer decides what is handed
/// back.
pub fn write_wrapper<O: DeviceOps + ?Sized>(
    ops: &mut Driven<'_, O>,
    dev: usize,
    pos: rt_off_t,
    buffer: &[u8],
    size: rt_size_t,
) -> (transfer: Transfer)
    ensures
        transfer.sound(),
        dev == 0 ==> final(ops).log() == old(ops).log() && transfer == Transfer::failure(
            RtError::Error,
        ),
        dev != 0 && pos < 0 ==> final(ops).log() == old(ops).log() && transfer
            == Transfer::failure(RtError::Inval),
        dev != 0 && pos >= 0 ==> {
            let first = old(ops).log().len() as int;
            &&& final(ops).log().len() > first
            &&& final(ops).log()[first] matches DriverEvent::BlockSize { bytes }
            &&& if fits(pos, buffer@.len(), size, bytes) {
                &&& grown_by(final(ops).log(), old(ops).log(), 2)
                &&& final(ops).log().last() matches DriverEvent::Write {
                    dev: asked,
                    pos: at,
                    size: units,
                    data,
                    reply,
                }
                &&& asked == dev
                &&& at == pos
                &&& units == size
                &&& data == buffer@
                &&& transfer == Transfer::of(reply)
            } else {
                &&& grown_by(final(ops).log(), old(ops).log(), 1)
                &&& transfer == Transfer::failure(RtError::Inval)
            }
        },
{
    let mut device = match Device::from_raw(dev) {
        Ok(device) => device,
        Err(err) => {
            return transfer_status(Err(err));
        },
    };
    if pos < 0 {
        return transfer_status(Err(RtError::Inval));
    }
    let bytes: usize = ops.get_block_size();
    let have: usize = buffer.len();
    let fitting = match transfer_len(size, bytes) {
        Some(len) => len == have,
        None => false,
    };
    if !fitting {
        proof {
            assert(ops.log().subrange(0, old(ops).log().len() as int) =~= old(ops).log());
        }
        return transfer_status(Err(RtError::Inval));
    }
    let reply = ops.write(&mut device, pos as usize, buffer, size);
    proof {
        assert(ops.log().subrange(0, old(ops).log().len() as int) =~= old(ops).log());
    }
    transfer_status(reply)
}

/// The kernel's `control` call for the device at `dev`, passed on to its
/// driver in one call, whose answer decides the status. A null `dev` is
/// answered with the status of `Error`, and the driver is not asked.
pub fn control_wrapper<O: DeviceOps + ?Sized>(
    ops: &mut Driven<'_, O>,
    dev: usize,
    cmd: i32,
    args: usize,
) -> (code: rt_err_t)
    ensures
        dev == 0 ==> final(ops).log() == old(ops).log() && code == RtError::Error.encode(),
        dev != 0 ==> {
            &&& grown_by(final(ops).log(), old(ops).log(), 1)
            &&& final(ops).log().last() matches DriverEvent::Control { dev: asked, cmd: code_asked, args: args_asked, status }
            &&& asked == dev
            &&& code_asked == cmd
            &&& args_asked == args
            &&& code == status_of(status)
        },
{
    match Device::from_raw(dev) {
        Ok(mut device) => {
            let status = ops.control(&mut device, cmd, args);
            proof {
                assert(ops.log().subrange(0, old(ops).log().len() as int) =~= old(ops).log());
            }
            status_code(status)
        },
        Err(err) => err.to_code(),
    }
}

} // verus!
