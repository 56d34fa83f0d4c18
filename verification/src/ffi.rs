//! Plain data of the RT-Thread kernel interface: the integer types of its C
//! API, its error codes, flags and the records it exchanges with drivers.

use vstd::prelude::*;

verus! {

/// Signed status of a kernel call: zero on success, else minus an error code.
#[allow(non_camel_case_types)]
pub type rt_err_t = i32;

/// A size as the kernel counts it: bytes, or blocks on a block device.
#[allow(non_camel_case_types)]
pub type rt_size_t = usize;

/// A position as the kernel counts it: bytes, or blocks on a block device.
#[allow(non_camel_case_types)]
pub type rt_off_t = isize;

/// A number of kernel ticks.
#[allow(non_camel_case_types)]
pub type rt_tick_t = u32;

/// No error: the status of success.
pub const RT_EOK: rt_err_t = 0;

/// A generic error happens.
pub const RT_ERROR: rt_err_t = 1;

/// Timed out.
pub const RT_ETIMEOUT: rt_err_t = 2;

/// The resource is full.
pub const RT_EFULL: rt_err_t = 3;

/// The resource is empty.
pub const RT_EEMPTY: rt_err_t = 4;

/// No memory.
pub const RT_ENOMEM: rt_err_t = 5;

/// No system.
pub const RT_ENOSYS: rt_err_t = 6;

/// Busy.
pub const RT_EBUSY: rt_err_t = 7;

/// IO error.
pub const RT_EIO: rt_err_t = 8;

/// Interrupted system call.
pub const RT_EINTR: rt_err_t = 9;

/// Invalid argument.
pub const RT_EINVAL: rt_err_t = 10;

/// Length of the name field of every kernel object.
pub const RT_NAME_MAX: usize = 8;

/// Threads that wait for an object are woken first come, first served.
pub const RT_IPC_FLAG_FIFO: u8 = 0;

/// Threads that wait for an object are woken by priority.
pub const RT_IPC_FLAG_PRIO: u8 = 1;

/// Control command that asks a block device for its geometry.
pub const RT_DEVICE_CTRL_BLK_GETGEOME: i32 = 0x10;

/// Class of a kernel device, in the order in which the kernel numbers them.
#[allow(non_camel_case_types)]
#[derive(Debug, Clone, Copy, PartialEq, Eq, Structural)]
pub enum rt_device_class_type {
    RT_Device_Class_Char,
    RT_Device_Class_Block,
    RT_Device_Class_NetIf,
    RT_Device_Class_MTD,
    RT_Device_Class_CAN,
    RT_Device_Class_RTC,
    RT_Device_Class_Sound,
    RT_Device_Class_Graphic,
    RT_Device_Class_I2CBUS,
    RT_Device_Class_USBDevice,
    RT_Device_Class_USBHost,
    RT_Device_Class_SPIBUS,
    RT_Device_Class_SPIDevice,
    RT_Device_Class_SDIO,
    RT_Device_Class_PM,
    RT_Device_Class_Pipe,
    RT_Device_Class_Portal,
    RT_Device_Class_Timer,
    RT_Device_Class_Miscellaneous,
    RT_Device_Class_Sensor,
    RT_Device_Class_Touch,
    RT_Device_Class_Unknown,
}

impl rt_device_class_type {
    /// The kernel's number for the class.
    pub open spec fn number(self) -> u32 {
        match self {
            rt_device_class_type::RT_Device_Class_Char => 0,
            rt_device_class_type::RT_Device_Class_Block => 1,
            rt_device_class_type::RT_Device_Class_NetIf => 2,
            rt_device_class_type::RT_Device_Class_MTD => 3,
            rt_device_class_type::RT_Device_Class_CAN => 4,
            rt_device_class_type::RT_Device_Class_RTC => 5,
            rt_device_class_type::RT_Device_Class_Sound => 6,
            rt_device_class_type::RT_Device_Class_Graphic => 7,
            rt_device_class_type::RT_Device_Class_I2CBUS => 8,
            rt_device_class_type::RT_Device_Class_USBDevice => 9,
            rt_device_class_type::RT_Device_Class_USBHost => 10,
            rt_device_class_type::RT_Device_Class_SPIBUS => 11,
            rt_device_class_type::RT_Device_Class_SPIDevice => 12,
            rt_device_class_type::RT_Device_Class_SDIO => 13,
            rt_device_class_type::RT_Device_Class_PM => 14,
            rt_device_class_type::RT_Device_Class_Pipe => 15,
            rt_device_class_type::RT_Device_Class_Portal => 16,
            rt_device_class_type::RT_Device_Class_Timer => 17,
            rt_device_class_type::RT_Device_Class_Miscellaneous => 18,
            rt_device_class_type::RT_Device_Class_Sensor => 19,
            rt_device_class_type::RT_Device_Class_Touch => 20,
            rt_device_class_type::RT_Device_Class_Unknown => 21,
        }
    }

    /// The class that the kernel numbers `number`; a number that the kernel
    /// does not use stands for no known class.
    pub open spec fn numbered(number: u32) -> rt_device_class_type {
        if number == 0 {
            rt_device_class_type::RT_Device_Class_Char
        } else if number == 1 {
            rt_device_class_type::RT_Device_Class_Block
        } else if number == 2 {
            rt_device_class_type::RT_Device_Class_NetIf
        } else if number == 3 {
            rt_device_class_type::RT_Device_Class_MTD
        } else if number == 4 {
            rt_device_class_type::RT_Device_Class_CAN
        } else if number == 5 {
            rt_device_class_type::RT_Device_Class_RTC
        } else if number == 6 {
            rt_device_class_type::RT_Device_Class_Sound
        } else if number == 7 {
            rt_device_class_type::RT_Device_Class_Graphic
        } else if number == 8 {
            rt_device_class_type::RT_Device_Class_I2CBUS
        } else if number == 9 {
            rt_device_class_type::RT_Device_Class_USBDevice
        } else if number == 10 {
            rt_device_class_type::RT_Device_Class_USBHost
        } else if number == 11 {
            rt_device_class_type::RT_Device_Class_SPIBUS
        } else if number == 12 {
            rt_device_class_type::RT_Device_Class_SPIDevice
        } else if number == 13 {
            rt_device_class_type::RT_Device_Class_SDIO
        } else if number == 14 {
            rt_device_class_type::RT_Device_Class_PM
        } else if number == 15 {
            rt_device_class_type::RT_Device_Class_Pipe
        } else if number == 16 {
            rt_device_class_type::RT_Device_Class_Portal
        } else if number == 17 {
            rt_device_class_type::RT_Device_Class_Timer
        } else if number == 18 {
            rt_device_class_type::RT_Device_Class_Miscellaneous
        } else if number == 19 {
            rt_device_class_type::RT_Device_Class_Sensor
        } else if number == 20 {
            rt_device_class_type::RT_Device_Class_Touch
        } else {
            rt_device_class_type::RT_Device_Class_Unknown
        }
    }

    /// The kernel's number for the class.
    pub fn code(self) -> (number: u32)
        ensures
            number == self.number(),
    {
        match self {
            rt_device_class_type::RT_Device_Class_Char => 0,
            rt_device_class_type::RT_Device_Class_Block => 1,
            rt_device_class_type::RT_Device_Class_NetIf => 2,
            rt_device_class_type::RT_Device_Class_MTD => 3,
            rt_device_class_type::RT_Device_Class_CAN => 4,
            rt_device_class_type::RT_Device_Class_RTC => 5,
            rt_device_class_type::RT_Device_Class_Sound => 6,
            rt_device_class_type::RT_Device_Class_Graphic => 7,
            rt_device_class_type::RT_Device_Class_I2CBUS => 8,
            rt_device_class_type::RT_Device_Class_USBDevice => 9,
            rt_device_class_type::RT_Device_Class_USBHost => 10,
            rt_device_class_type::RT_Device_Class_SPIBUS => 11,
            rt_device_class_type::RT_Device_Class_SPIDevice => 12,
            rt_device_class_type::RT_Device_Class_SDIO => 13,
            rt_device_class_type::RT_Device_Class_PM => 14,
            rt_device_class_type::RT_Device_Class_Pipe => 15,
            rt_device_class_type::RT_Device_Class_Portal => 16,
            rt_device_class_type::RT_Device_Class_Timer => 17,
            rt_device_class_type::RT_Device_Class_Miscellaneous => 18,
            rt_device_class_type::RT_Device_Class_Sensor => 19,
            rt_device_class_type::RT_Device_Class_Touch => 20,
            rt_device_class_type::RT_Device_Class_Unknown => 21,
        }
    }

    /// The class that the kernel numbers `number`.
    pub fn from_code(number: u32) -> (class: Self)
        ensures
            class == Self::numbered(number),
    {
        if number == 0 {
            rt_device_class_type::RT_Device_Class_Char
        } else if number == 1 {
            rt_device_class_type::RT_Device_Class_Block
        } else if number == 2 {
            rt_device_class_type::RT_Device_Class_NetIf
        } else if number == 3 {
            rt_device_class_type::RT_Device_Class_MTD
        } else if number == 4 {
            rt_device_class_type::RT_Device_Class_CAN
        } else if number == 5 {
            rt_device_class_type::RT_Device_Class_RTC
        } else if number == 6 {
            rt_device_class_type::RT_Device_Class_Sound
        } else if number == 7 {
            rt_device_class_type::RT_Device_Class_Graphic
        } else if number == 8 {
            rt_device_class_type::RT_Device_Class_I2CBUS
        } else if number == 9 {
            rt_device_class_type::RT_Device_Class_USBDevice
        } else if number == 10 {
            rt_device_class_type::RT_Device_Class_USBHost
        } else if number == 11 {
            rt_device_class_type::RT_Device_Class_SPIBUS
        } else if number == 12 {
            rt_device_class_type::RT_Device_Class_SPIDevice
        } else if number == 13 {
            rt_device_class_type::RT_Device_Class_SDIO
        } else if number == 14 {
            rt_device_class_type::RT_Device_Class_PM
        } else if number == 15 {
            rt_device_class_type::RT_Device_Class_Pipe
        } else if number == 16 {
            rt_device_class_type::RT_Device_Class_Portal
        } else if number == 17 {
            rt_device_class_type::RT_Device_Class_Timer
        } else if number == 18 {
            rt_device_class_type::RT_Device_Class_Miscellaneous
        } else if number == 19 {
            rt_device_class_type::RT_Device_Class_Sensor
        } else if number == 20 {
            rt_device_class_type::RT_Device_Class_Touch
        } else {
            rt_device_class_type::RT_Device_Class_Unknown
        }
    }
}

/// A class comes back from its number.
pub proof fn lemma_class_from_its_number(class: rt_device_class_type)
    ensures
        rt_device_class_type::numbered(class.number()) == class,
{
}

/// Geometry of a block device, field for field as the kernel lays it out.
#[allow(non_camel_case_types)]
#[derive(Debug, Clone, Copy, PartialEq, Eq, Structural)]
pub struct rt_device_blk_geometry {
    pub sector_count: u32,
    pub bytes_per_sector: u32,
    pub block_size: u32,
}

} // verus!
