use rttrust::device::io::BlockDevice;
use rttrust::device::{DeviceIo, DeviceType};
use rttrust::ffi::rt_device_blk_geometry;
use rttrust::io::SeekFrom;
use rttrust::RtError;

#[derive(Debug, Clone, Copy, PartialEq, Eq)]
enum Op {
    Read,
    Write,
}

/// One device call as the mock saw it.
#[derive(Debug, Clone, PartialEq, Eq)]
struct Call {
    op: Op,
    pos: usize,
    size: usize,
    len: usize,
}

/// One expected device call: it must come exactly once.
struct Expectation {
    call: Call,
    reply: Result<usize, RtError>,
    fill: Option<Vec<u8>>,
    data: Option<Vec<u8>>,
    seen: usize,
}

struct MockDevice {
    kind: DeviceType,
    geometry: Result<rt_device_blk_geometry, RtError>,
    controls: Vec<i32>,
    expectations: Vec<Expectation>,
    calls: Vec<Call>,
}

impl MockDevice {
    fn new(kind: DeviceType, geometry: Result<rt_device_blk_geometry, RtError>) -> Self {
        MockDevice { kind, geometry, controls: Vec::new(), expectations: Vec::new(), calls: Vec::new() }
    }

    fn expect(&mut self, op: Op, pos: usize, size: usize, len: usize, reply: Result<usize, RtError>) {
        self.expectations.push(Expectation {
            call: Call { op, pos, size, len },
            reply,
            fill: None,
            data: None,
            seen: 0,
        });
    }

    fn expect_read(&mut self, pos: usize, size: usize, len: usize, reply: Result<usize, RtError>) {
        self.expect(Op::Read, pos, size, len, reply);
    }

    fn expect_write(&mut self, pos: usize, size: usize, len: usize, reply: Result<usize, RtError>) {
        self.expect(Op::Write, pos, size, len, reply);
    }

    /// The read expected last fills the buffer with `bytes`.
    fn filling(&mut self, bytes: Vec<u8>) {
        self.expectations.last_mut().unwrap().fill = Some(bytes);
    }

    /// The write expected last must carry `bytes`.
    fn carrying(&mut self, bytes: Vec<u8>) {
        self.expectations.last_mut().unwrap().data = Some(bytes);
    }

    fn answer(&mut self, call: Call) -> usize {
        self.calls.push(call.clone());
        for (index, expectation) in self.expectations.iter_mut().enumerate() {
            if expectation.call == call && expectation.seen == 0 {
                expectation.seen = 1;
                return index;
            }
        }
        panic!("unexpected device call {:?}", call);
    }

    /// Every expected call has come.
    fn checkpoint(&mut self) {
        for expectation in self.expectations.iter() {
            assert_eq!(expectation.seen, 1, "expected call {:?} did not come", expectation.call);
        }
        self.expectations.clear();
    }
}

impl DeviceIo for MockDevice {
    fn get_device_type(&self) -> DeviceType {
        self.kind
    }

    fn control(&mut self, cmd: i32, arg: &mut [u32]) -> Result<(), RtError> {
        self.controls.push(cmd);
        let geometry = self.geometry?;
        arg[0] = geometry.sector_count;
        arg[1] = geometry.bytes_per_sector;
        arg[2] = geometry.block_size;
        Ok(())
    }

    fn read(&mut self, pos: usize, buffer: &mut [u8], size: usize) -> Result<usize, RtError> {
        let index = self.answer(Call { op: Op::Read, pos, size, len: buffer.len() });
        if let Some(bytes) = &self.expectations[index].fill {
            buffer.copy_from_slice(bytes);
        }
        self.expectations[index].reply
    }

    fn write(&mut self, pos: usize, buffer: &[u8], size: usize) -> Result<usize, RtError> {
        let index = self.answer(Call { op: Op::Write, pos, size, len: buffer.len() });
        if let Some(bytes) = &self.expectations[index].data {
            assert_eq!(buffer, &bytes[..]);
        }
        self.expectations[index].reply
    }
}

fn setup_block_device(block_size: usize) -> MockDevice {
    MockDevice::new(
        DeviceType::RT_Device_Class_Block,
        Ok(rt_device_blk_geometry {
            block_size: block_size as u32,
            bytes_per_sector: 0,
            sector_count: 0,
        }),
    )
}

fn read_call(pos: usize, size: usize, len: usize) -> Call {
    Call { op: Op::Read, pos, size, len }
}

fn write_call(pos: usize, size: usize, len: usize) -> Call {
    Call { op: Op::Write, pos, size, len }
}

#[test]
fn block_single_aligned_write() -> Result<(), RtError> {
    const BLK_SIZE: usize = 10;
    let mut device = setup_block_device(BLK_SIZE);
    device.expect_write(0, 1, BLK_SIZE, Ok(1));
    let mut block_device = BlockDevice::new(&mut device)?;
    block_device.write(&vec![1; BLK_SIZE])?;
    assert_eq!(block_device.block_pos(), 1);
    assert_eq!(block_device.byte_pos(), 0);
    device.checkpoint();
    assert_eq!(device.calls, vec![write_call(0, 1, BLK_SIZE)]);
    Ok(())
}

#[test]
fn block_multiple_aligned_write() -> Result<(), RtError> {
    const BLK_SIZE: usize = 10;
    let mut device = setup_block_device(BLK_SIZE);
    device.expect_write(0, 3, BLK_SIZE * 3, Ok(3));
    let mut block_device = BlockDevice::new(&mut device)?;
    block_device.write(&vec![1; BLK_SIZE * 3])?;
    assert_eq!(block_device.block_pos(), 3);
    assert_eq!(block_device.byte_pos(), 0);
    device.checkpoint();
    assert_eq!(device.calls, vec![write_call(0, 3, BLK_SIZE * 3)]);
    Ok(())
}

#[test]
fn block_unaligned_write() -> Result<(), RtError> {
    const BLK_SIZE: usize = 10;
    let buf: Vec<u8> = (0..10).collect();
    let mut device = setup_block_device(BLK_SIZE);
    // Read first block
    device.expect_read(0, 1, BLK_SIZE, Ok(1));
    // (3 + 10 * 3 + 3) = 36 => read block 3
    device.expect_read(3, 1, BLK_SIZE, Ok(1));
    // Write first block
    device.expect_write(0, 1, BLK_SIZE, Ok(1));
    // Write 1 - 2 blocks
    device.expect_write(1, 2, BLK_SIZE * 2, Ok(2));
    let mut block_device = BlockDevice::new(&mut device)?;
    block_device.write(&buf[..3])?;
    assert_eq!(block_device.block_pos(), 0);
    assert_eq!(block_device.byte_pos(), 3);
    block_device.write(&vec![1; BLK_SIZE * 3 + 3])?;
    assert_eq!(block_device.block_pos(), 3);
    assert_eq!(block_device.byte_pos(), 6);
    device.checkpoint();
    assert_eq!(
        device.calls,
        vec![
            read_call(0, 1, BLK_SIZE),
            write_call(0, 1, BLK_SIZE),
            write_call(1, 2, BLK_SIZE * 2),
            read_call(3, 1, BLK_SIZE),
        ]
    );
    Ok(())
}

#[test]
fn block_partial_write() -> Result<(), RtError> {
    const BLK_SIZE: usize = 10;
    let buf: Vec<u8> = (0..5).collect();
    let mut device = setup_block_device(BLK_SIZE);
    device.expect_read(0, 1, BLK_SIZE, Ok(1));
    let mut block_device = BlockDevice::new(&mut device)?;
    block_device.write(&buf[..3])?;
    assert_eq!(block_device.block_pos(), 0);
    assert_eq!(block_device.byte_pos(), 3);
    block_device.write(&buf[..3])?;
    assert_eq!(block_device.block_pos(), 0);
    assert_eq!(block_device.byte_pos(), 6);
    device.checkpoint();
    Ok(())
}

#[test]
fn block_flush() -> Result<(), RtError> {
    const BLK_SIZE: usize = 10;
    let buf: Vec<u8> = (0..5).collect();
    let mut device = setup_block_device(BLK_SIZE);
    device.expect_read(0, 1, BLK_SIZE, Ok(1));
    device.expect_write(0, 1, BLK_SIZE, Ok(1));
    device.carrying(vec![0, 1, 2, 0, 1, 2, 0, 0, 0, 0]);
    let mut block_device = BlockDevice::new(&mut device)?;
    block_device.write(&buf[..3])?;
    assert_eq!(block_device.block_pos(), 0);
    assert_eq!(block_device.byte_pos(), 3);
    block_device.write(&buf[..3])?;
    assert_eq!(block_device.block_pos(), 0);
    assert_eq!(block_device.byte_pos(), 6);
    block_device.flush()?;
    assert_eq!(block_device.block_pos(), 0);
    assert_eq!(block_device.byte_pos(), 6);
    device.checkpoint();
    Ok(())
}

#[test]
fn block_single_aligned_read() -> Result<(), RtError> {
    const BLK_SIZE: usize = 10;
    let mut device = setup_block_device(BLK_SIZE);
    device.expect_read(0, 1, BLK_SIZE, Ok(1));
    let mut block_device = BlockDevice::new(&mut device)?;
    block_device.read(&mut vec![1; BLK_SIZE])?;
    assert_eq!(block_device.block_pos(), 1);
    assert_eq!(block_device.byte_pos(), 0);
    device.checkpoint();
    Ok(())
}

#[test]
fn block_multiple_aligned_read() -> Result<(), RtError> {
    const BLK_SIZE: usize = 10;
    let mut device = setup_block_device(BLK_SIZE);
    device.expect_read(0, 3, BLK_SIZE * 3, Ok(3));
    let mut block_device = BlockDevice::new(&mut device)?;
    block_device.read(&mut vec![1; BLK_SIZE * 3])?;
    assert_eq!(block_device.block_pos(), 3);
    assert_eq!(block_device.byte_pos(), 0);
    device.checkpoint();
    Ok(())
}

#[test]
fn block_unaligned_read() -> Result<(), RtError> {
    const BLK_SIZE: usize = 10;
    let mut buf: Vec<u8> = (0..10).collect();
    let mut device = setup_block_device(BLK_SIZE);
    // Read first block
    device.expect_read(0, 1, BLK_SIZE, Ok(1));
    // (3 + 10 * 3 + 3) = 36 => read block 3
    device.expect_read(3, 1, BLK_SIZE, Ok(1));
    // Read 1 - 2 blocks
    device.expect_read(1, 2, BLK_SIZE * 2, Ok(2));
    let mut block_device = BlockDevice::new(&mut device)?;
    block_device.read(&mut buf[..3])?;
    assert_eq!(block_device.block_pos(), 0);
    assert_eq!(block_device.byte_pos(), 3);
    block_device.read(&mut vec![1; BLK_SIZE * 3 + 3])?;
    assert_eq!(block_device.block_pos(), 3);
    assert_eq!(block_device.byte_pos(), 6);
    device.checkpoint();
    Ok(())
}

#[test]
fn block_partial_read() -> Result<(), RtError> {
    const BLK_SIZE: usize = 10;
    let mut buf: Vec<u8> = (0..5).collect();
    let mut device = setup_block_device(BLK_SIZE);
    device.expect_read(0, 1, BLK_SIZE, Ok(1));
    let mut block_device = BlockDevice::new(&mut device)?;
    block_device.read(&mut buf[..3])?;
    assert_eq!(block_device.block_pos(), 0);
    assert_eq!(block_device.byte_pos(), 3);
    block_device.read(&mut buf[..3])?;
    assert_eq!(block_device.block_pos(), 0);
    assert_eq!(block_device.byte_pos(), 6);
    device.checkpoint();
    Ok(())
}

#[test]
fn block_new_asks_for_the_geometry() {
    let mut device = setup_block_device(512);
    let block_device = BlockDevice::new(&mut device).unwrap();
    assert_eq!(block_device.block_size(), 512);
    assert_eq!(block_device.block_pos(), 0);
    assert_eq!(block_device.byte_pos(), 0);
    assert!(block_device.is_begin());
    assert!(!block_device.is_end());
    assert_eq!(block_device.remain(), 512);
    assert_eq!(device.controls, vec![0x10]);
}

#[test]
fn block_new_refuses_other_classes() {
    let mut device = MockDevice::new(
        DeviceType::RT_Device_Class_Char,
        Ok(rt_device_blk_geometry { block_size: 10, bytes_per_sector: 0, sector_count: 0 }),
    );
    assert_eq!(BlockDevice::new(&mut device).err(), Some(RtError::NoSys));
    // The geometry of a device that is refused is never asked for.
    assert!(device.controls.is_empty());
}

#[test]
fn block_new_hands_on_the_control_error() {
    let mut device = MockDevice::new(DeviceType::RT_Device_Class_Block, Err(RtError::Busy));
    assert_eq!(BlockDevice::new(&mut device).err(), Some(RtError::Busy));
}

#[test]
fn block_new_refuses_empty_blocks() {
    let mut device = setup_block_device(0);
    assert_eq!(BlockDevice::new(&mut device).err(), Some(RtError::Inval));
}

#[test]
fn block_with_geometry_decides_by_class_and_size() {
    let geometry = rt_device_blk_geometry { block_size: 16, bytes_per_sector: 4, sector_count: 9 };
    let mut device = setup_block_device(10);
    assert_eq!(
        BlockDevice::with_geometry(&mut device, DeviceType::RT_Device_Class_MTD, geometry).err(),
        Some(RtError::NoSys)
    );
    let stream =
        BlockDevice::with_geometry(&mut device, DeviceType::RT_Device_Class_Block, geometry)
            .unwrap();
    assert_eq!(stream.block_size(), 16);
}

#[test]
fn block_read_returns_the_device_bytes() {
    const BLK_SIZE: usize = 4;
    let mut device = setup_block_device(BLK_SIZE);
    // Two bytes through the block buffer, then two whole blocks, then one byte.
    device.expect_read(0, 1, BLK_SIZE, Ok(1));
    device.filling(vec![10, 11, 12, 13]);
    device.expect_read(1, 2, BLK_SIZE * 2, Ok(2));
    device.filling(vec![20, 21, 22, 23, 24, 25, 26, 27]);
    device.expect_read(3, 1, BLK_SIZE, Ok(1));
    device.filling(vec![30, 31, 32, 33]);
    let mut block_device = BlockDevice::new(&mut device).unwrap();
    let mut head = [0u8; 2];
    assert_eq!(block_device.read(&mut head), Ok(2));
    assert_eq!(head, [10, 11]);
    let mut rest = [0u8; 11];
    assert_eq!(block_device.read(&mut rest), Ok(11));
    assert_eq!(rest, [12, 13, 20, 21, 22, 23, 24, 25, 26, 27, 30]);
    assert_eq!(block_device.block_pos(), 3);
    assert_eq!(block_device.byte_pos(), 1);
    device.checkpoint();
}

#[test]
fn block_write_block_takes_what_the_block_has_room_for() {
    const BLK_SIZE: usize = 4;
    let mut device = setup_block_device(BLK_SIZE);
    device.expect_read(0, 1, BLK_SIZE, Ok(1));
    device.filling(vec![9, 9, 9, 9]);
    device.expect_write(0, 1, BLK_SIZE, Ok(1));
    device.carrying(vec![1, 2, 3, 4]);
    let mut block_device = BlockDevice::new(&mut device).unwrap();
    assert_eq!(block_device.write_block(&[1, 2, 3]), Ok(3));
    assert_eq!(block_device.remain(), 1);
    assert_eq!(block_device.write_block(&[4, 5, 6]), Ok(1));
    assert!(block_device.is_end());
    assert_eq!(block_device.write_block(&[7]), Ok(0));
    assert_eq!(block_device.flush(), Ok(()));
    // Nothing is dirty any more: a second flush makes no call.
    assert_eq!(block_device.flush(), Ok(()));
    device.checkpoint();
    assert_eq!(device.calls.len(), 2);
}

#[test]
fn block_read_block_loads_once() {
    const BLK_SIZE: usize = 4;
    let mut device = setup_block_device(BLK_SIZE);
    device.expect_read(0, 1, BLK_SIZE, Ok(1));
    device.filling(vec![5, 6, 7, 8]);
    let mut block_device = BlockDevice::new(&mut device).unwrap();
    let mut out = [0u8; 3];
    assert_eq!(block_device.read_block(&mut out), Ok(3));
    assert_eq!(out, [5, 6, 7]);
    let mut out = [0u8; 3];
    assert_eq!(block_device.read_block(&mut out), Ok(1));
    assert_eq!(out, [8, 0, 0]);
    device.checkpoint();
}

#[test]
fn block_load_failure_is_the_result() {
    const BLK_SIZE: usize = 4;
    let mut device = setup_block_device(BLK_SIZE);
    device.expect_read(0, 1, BLK_SIZE, Err(RtError::IO));
    let mut block_device = BlockDevice::new(&mut device).unwrap();
    assert_eq!(block_device.write(&[1, 2]), Err(RtError::IO));
    assert_eq!(block_device.block_pos(), 0);
    assert_eq!(block_device.byte_pos(), 0);
    device.checkpoint();
}

#[test]
fn block_forward_stores_a_dirty_block_first() {
    const BLK_SIZE: usize = 4;
    let mut device = setup_block_device(BLK_SIZE);
    device.expect_read(0, 1, BLK_SIZE, Ok(1));
    device.expect_write(0, 1, BLK_SIZE, Ok(1));
    device.carrying(vec![7, 0, 0, 0]);
    let mut block_device = BlockDevice::new(&mut device).unwrap();
    assert_eq!(block_device.write(&[7]), Ok(1));
    assert_eq!(block_device.forward(2), Ok(()));
    assert_eq!(block_device.block_pos(), 2);
    assert_eq!(block_device.byte_pos(), 1);
    assert_eq!(block_device.forward(-1), Ok(()));
    assert_eq!(block_device.block_pos(), 1);
    assert_eq!(block_device.forward(0), Ok(()));
    assert_eq!(block_device.block_pos(), 1);
    device.checkpoint();
}

#[test]
fn block_forward_refuses_to_leave_the_device() {
    let mut device = setup_block_device(4);
    let mut block_device = BlockDevice::new(&mut device).unwrap();
    assert_eq!(block_device.forward(-1), Err(RtError::Inval));
    assert_eq!(block_device.block_pos(), 0);
    assert_eq!(block_device.forward(isize::MAX), Ok(()));
    assert_eq!(block_device.forward(isize::MAX), Ok(()));
    assert_eq!(block_device.forward(2), Err(RtError::Inval));
    assert_eq!(block_device.forward(isize::MIN), Ok(()));
    assert_eq!(block_device.block_pos(), usize::MAX - 1 - (isize::MAX as usize + 1));
}

#[test]
fn block_forward_keeps_the_block_when_the_store_fails() {
    const BLK_SIZE: usize = 4;
    let mut device = setup_block_device(BLK_SIZE);
    device.expect_read(0, 1, BLK_SIZE, Ok(1));
    device.expect_write(0, 1, BLK_SIZE, Err(RtError::Full));
    let mut block_device = BlockDevice::new(&mut device).unwrap();
    assert_eq!(block_device.write(&[7]), Ok(1));
    assert_eq!(block_device.forward(1), Err(RtError::Full));
    assert_eq!(block_device.block_pos(), 0);
    device.checkpoint();
}

#[test]
fn block_write_stops_at_a_device_that_counts_wrong() {
    const BLK_SIZE: usize = 4;
    let mut device = setup_block_device(BLK_SIZE);
    device.expect_write(0, 2, BLK_SIZE * 2, Ok(0));
    let mut block_device = BlockDevice::new(&mut device).unwrap();
    assert_eq!(block_device.write(&[0; 8]), Err(RtError::IO));
    device.checkpoint();

    let mut device = setup_block_device(BLK_SIZE);
    device.expect_write(0, 2, BLK_SIZE * 2, Ok(3));
    let mut block_device = BlockDevice::new(&mut device).unwrap();
    assert_eq!(block_device.write(&[0; 8]), Err(RtError::IO));
    device.checkpoint();

    let mut device = setup_block_device(BLK_SIZE);
    device.expect_read(0, 2, BLK_SIZE * 2, Ok(0));
    let mut block_device = BlockDevice::new(&mut device).unwrap();
    assert_eq!(block_device.read(&mut [0; 8]), Err(RtError::IO));
    device.checkpoint();
}

#[test]
fn block_write_goes_on_after_a_short_count() {
    const BLK_SIZE: usize = 4;
    let mut device = setup_block_device(BLK_SIZE);
    // Three blocks are handed over, one goes; the two that are left follow
    // at the block behind it.
    device.expect_write(0, 3, BLK_SIZE * 3, Ok(1));
    device.carrying(vec![0, 1, 2, 3, 4, 5, 6, 7, 8, 9, 10, 11]);
    device.expect_write(1, 2, BLK_SIZE * 2, Ok(2));
    device.carrying(vec![4, 5, 6, 7, 8, 9, 10, 11]);
    let mut block_device = BlockDevice::new(&mut device).unwrap();
    let data: Vec<u8> = (0..12).collect();
    assert_eq!(block_device.write(&data), Ok(12));
    assert_eq!(block_device.block_pos(), 3);
    assert_eq!(block_device.byte_pos(), 0);
    device.checkpoint();
    assert_eq!(device.calls, vec![write_call(0, 3, 12), write_call(1, 2, 8)]);
}

#[test]
fn block_read_goes_on_after_a_short_count() {
    const BLK_SIZE: usize = 2;
    let mut device = setup_block_device(BLK_SIZE);
    device.expect_read(0, 3, BLK_SIZE * 3, Ok(2));
    device.filling(vec![1, 2, 3, 4, 0, 0]);
    device.expect_read(2, 1, BLK_SIZE, Ok(1));
    device.filling(vec![5, 6]);
    let mut block_device = BlockDevice::new(&mut device).unwrap();
    let mut out = [9u8; 6];
    assert_eq!(block_device.read(&mut out), Ok(6));
    assert_eq!(out, [1, 2, 3, 4, 5, 6]);
    assert_eq!(block_device.block_pos(), 3);
    assert_eq!(block_device.byte_pos(), 0);
    device.checkpoint();
}

#[test]
fn block_transfer_failure_leaves_the_cursor() {
    const BLK_SIZE: usize = 4;
    let mut device = setup_block_device(BLK_SIZE);
    device.expect_write(0, 2, BLK_SIZE * 2, Err(RtError::NoMem));
    let mut block_device = BlockDevice::new(&mut device).unwrap();
    assert_eq!(block_device.write(&[0; 9]), Err(RtError::NoMem));
    assert_eq!((block_device.block_pos(), block_device.byte_pos()), (0, 0));
    device.checkpoint();

    let mut device = setup_block_device(BLK_SIZE);
    device.expect_read(0, 2, BLK_SIZE * 2, Err(RtError::Intr));
    let mut block_device = BlockDevice::new(&mut device).unwrap();
    assert_eq!(block_device.read(&mut [0; 9]), Err(RtError::Intr));
    assert_eq!((block_device.block_pos(), block_device.byte_pos()), (0, 0));
    device.checkpoint();
}

#[test]
fn block_seek_within_and_across_blocks() {
    const BLK_SIZE: usize = 10;
    let mut device = setup_block_device(BLK_SIZE);
    device.expect_read(0, 1, BLK_SIZE, Ok(1));
    device.expect_write(0, 1, BLK_SIZE, Ok(1));
    let mut block_device = BlockDevice::new(&mut device).unwrap();
    assert_eq!(block_device.write(&[1, 2, 3]), Ok(3));
    // Within the block: nothing is stored.
    assert_eq!(block_device.seek(SeekFrom::Start(7)), Ok(7));
    assert_eq!((block_device.block_pos(), block_device.byte_pos()), (0, 7));
    assert_eq!(block_device.seek(SeekFrom::Current(-2)), Ok(5));
    assert_eq!((block_device.block_pos(), block_device.byte_pos()), (0, 5));
    // To another block: the dirty block is stored first.
    assert_eq!(block_device.seek(SeekFrom::Current(31)), Ok(36));
    assert_eq!((block_device.block_pos(), block_device.byte_pos()), (3, 6));
    assert_eq!(block_device.seek(SeekFrom::Start(40)), Ok(40));
    assert_eq!((block_device.block_pos(), block_device.byte_pos()), (4, 0));
    device.checkpoint();
}

#[test]
fn block_seek_refuses_what_cannot_be_reached() {
    let mut device = setup_block_device(10);
    let mut block_device = BlockDevice::new(&mut device).unwrap();
    assert_eq!(block_device.seek(SeekFrom::End(0)), Err(RtError::Inval));
    assert_eq!(block_device.seek(SeekFrom::Current(-1)), Err(RtError::Inval));
    assert_eq!(block_device.seek(SeekFrom::Start(u64::MAX)), Err(RtError::Inval));
    assert_eq!(block_device.seek(SeekFrom::Start(25)), Ok(25));
    assert_eq!(block_device.seek(SeekFrom::Current(-26)), Err(RtError::Inval));
    assert_eq!((block_device.block_pos(), block_device.byte_pos()), (2, 5));
    assert_eq!(block_device.seek(SeekFrom::Current(i64::MAX)), Err(RtError::Inval));
    assert_eq!(block_device.seek(SeekFrom::Current(-25)), Ok(0));
}

#[test]
fn block_seek_is_given_up_when_the_flush_fails() {
    const BLK_SIZE: usize = 10;
    let mut device = setup_block_device(BLK_SIZE);
    device.expect_read(0, 1, BLK_SIZE, Ok(1));
    device.expect_write(0, 1, BLK_SIZE, Err(RtError::Busy));
    let mut block_device = BlockDevice::new(&mut device).unwrap();
    assert_eq!(block_device.write(&[1, 2, 3]), Ok(3));
    assert_eq!(block_device.seek(SeekFrom::Start(20)), Err(RtError::Busy));
    assert_eq!((block_device.block_pos(), block_device.byte_pos()), (0, 3));
    device.checkpoint();
}
