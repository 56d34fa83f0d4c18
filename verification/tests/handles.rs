use rttrust::device::{Device, DeviceType, OpenFlag, RegisterFlag};
use rttrust::ipc::mutex::Mutex;
use rttrust::ipc::sem::Semaphore;
use rttrust::object::Object;
use rttrust::thread::Thread;
use rttrust::timer::{Timer, TimerFlags};
use rttrust::RtError;

#[test]
fn null_address_is_the_generic_error() {
    assert_eq!(Thread::from_raw(0).err(), Some(RtError::Error));
    assert_eq!(Timer::from_raw(0).err(), Some(RtError::Error));
    assert_eq!(Mutex::from_raw(0).err(), Some(RtError::Error));
    assert_eq!(Semaphore::from_raw(0).err(), Some(RtError::Error));
    assert_eq!(Device::from_raw(0).err(), Some(RtError::Error));
}

#[test]
fn handle_keeps_the_address() {
    let thread = Thread::from_raw(0x2000_0100).unwrap();
    assert_eq!(thread.as_raw(), 0x2000_0100);
    assert_eq!(thread.get_ptr(), 0x2000_0100);
    let copy = thread;
    assert_eq!(copy.as_raw(), thread.as_raw());
    assert_eq!(Timer::from_raw(8).unwrap().get_ptr(), 8);
    assert_eq!(Mutex::from_raw(usize::MAX).unwrap().get_ptr(), usize::MAX);
    assert_eq!(Semaphore::from_raw(1).unwrap().get_ptr(), 1);
    assert_eq!(Device::from_raw(0x1000).unwrap().as_raw(), 0x1000);
}

#[test]
fn open_flags_drop_unknown_bits() {
    assert_eq!(OpenFlag::from_bits_truncate(0xffff).bits(), 0x0f4b);
    assert_eq!(OpenFlag::from_bits_truncate(0x0043).bits(), 0x0043);
    assert_eq!(OpenFlag::from_bits_truncate(0x0010).bits(), 0);
    assert_eq!(OpenFlag::from_bits_truncate(OpenFlag::RDWR | OpenFlag::STREAM).bits(), 0x043);
    assert_eq!(OpenFlag::ALL, 0x0f4b);
}

#[test]
fn register_flags_drop_unknown_bits() {
    assert_eq!(RegisterFlag::from_bits_truncate(0xffff).bits(), 0x0f6f);
    assert_eq!(RegisterFlag::from_bits_truncate(0x0010).bits(), 0);
    assert_eq!(
        RegisterFlag::from_bits_truncate(RegisterFlag::RDWR | RegisterFlag::REMOVABLE).bits(),
        0x007
    );
}

#[test]
fn timer_flags_drop_unknown_bits() {
    assert_eq!(TimerFlags::from_bits_truncate(0xff).bits(), 0x06);
    assert_eq!(TimerFlags::from_bits_truncate(TimerFlags::ONE_SHOT).bits(), 0);
    assert_eq!(
        TimerFlags::from_bits_truncate(TimerFlags::PERIODIC | TimerFlags::SOFT_TIMER).bits(),
        0x06
    );
}

#[test]
fn flags_union_and_contains() {
    let read = OpenFlag::from_bits_truncate(OpenFlag::RDONLY);
    let write = OpenFlag::from_bits_truncate(OpenFlag::WRONLY);
    let both = read.union(write);
    assert_eq!(both.bits(), OpenFlag::RDWR);
    assert!(both.contains(read));
    assert!(both.contains(write));
    assert!(!read.contains(write));
    assert!(!read.contains(both));
    let periodic = TimerFlags::from_bits_truncate(TimerFlags::PERIODIC);
    let soft = TimerFlags::from_bits_truncate(TimerFlags::SOFT_TIMER);
    assert_eq!(periodic.union(soft).bits(), 0x6);
    assert!(periodic.union(soft).contains(soft));
    let removable = RegisterFlag::from_bits_truncate(RegisterFlag::REMOVABLE);
    let stream = RegisterFlag::from_bits_truncate(RegisterFlag::STREAM);
    assert_eq!(removable.union(stream).bits(), 0x44);
    assert!(!removable.contains(stream));
}

#[test]
fn device_class_numbers() {
    assert_eq!(DeviceType::RT_Device_Class_Char.code(), 0);
    assert_eq!(DeviceType::RT_Device_Class_Block.code(), 1);
    assert_eq!(DeviceType::RT_Device_Class_Graphic.code(), 7);
    assert_eq!(DeviceType::RT_Device_Class_Unknown.code(), 21);
    assert_eq!(DeviceType::from_code(1), DeviceType::RT_Device_Class_Block);
    assert_eq!(DeviceType::from_code(15), DeviceType::RT_Device_Class_Pipe);
    assert_eq!(DeviceType::from_code(22), DeviceType::RT_Device_Class_Unknown);
    assert_eq!(DeviceType::from_code(u32::MAX), DeviceType::RT_Device_Class_Unknown);
    for number in 0..=21 {
        assert_eq!(DeviceType::from_code(number).code(), number);
    }
}
