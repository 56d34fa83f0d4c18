//! Byte streams over devices: a buffered one over a block device, which
//! turns reads and writes of any length into transfers of whole blocks, and a
//! plain one over any other device.
//!
//! Nothing is known of what a device answers. So each stream reaches its
//! device through a `Recorded`, which keeps the record of the calls made,
//! each with what the device was handed and what came back, and the contract
//! of an operation reads its outcome off that record: `BlockState` holds, as
//! functions of a record and a position in it, what each operation of the
//! block stream does, and an operation promises that the events it has added
//! to the record are the calls of that function, and that its result and the
//! state it leaves are those of that function.

use vstd::prelude::*;
use crate::device::cmd::{DeviceCommand, GetGeometry};
use crate::device::record::{extends, lemma_extends_twice, lemma_push_extends, IoEvent, Recorded};
use crate::device::{DeviceIo, DeviceType};
use crate::ffi::{rt_device_blk_geometry, RT_DEVICE_CTRL_BLK_GETGEOME};
use crate::io::SeekFrom;
use crate::RtError;

verus! {

/// What the block buffer holds.
#[derive(Debug, Clone, Copy, PartialEq, Eq, Structural)]
pub enum BlockStatus {
    /// Nothing of the current block.
    Uninit,
    /// The current block as the device has it.
    Clean,
    /// The current block with bytes that the device has not got yet.
    Dirty,
}

/// The cursor and block buffer of a `BlockDevice`.
pub struct BlockState {
    /// Offset of the cursor within the current block; `block_size` once the
    /// block has been used up.
    pub byte_pos: usize,
    /// Index of the current block.
    pub block_pos: usize,
    /// Bytes per block.
    pub block_size: usize,
    pub status: BlockStatus,
    pub buf: Seq<u8>,
}

impl BlockState {
    /// The state of a stream that has just been opened.
    pub open spec fn initial(block_size: usize) -> BlockState {
        BlockState {
            byte_pos: 0,
            block_pos: 0,
            block_size,
            status: BlockStatus::Uninit,
            buf: Seq::empty(),
        }
    }

    /// Whether `evs` is the record of opening a stream over blocks of
    /// `block_size` bytes: the device has said that it is a block device,
    /// and has then answered the question for its geometry with blocks of
    /// that size, which are not empty.
    pub open spec fn opened(evs: Seq<IoEvent>, block_size: usize) -> bool {
        &&& evs.len() == 2
        &&& evs[0] == IoEvent::Kind { kind: DeviceType::RT_Device_Class_Block }
        &&& evs[1] matches IoEvent::Control { cmd, len, status, words }
        &&& cmd == RT_DEVICE_CTRL_BLK_GETGEOME
        &&& len == 3
        &&& status is Ok
        &&& GetGeometry::record(words).block_size == block_size
        &&& block_size != 0
    }

    /// Validity: blocks are not empty, the cursor lies within the block, and
    /// a buffer that holds a block has the block's length.
    pub open spec fn wf(self) -> bool {
        &&& self.block_size > 0
        &&& self.byte_pos <= self.block_size
        &&& self.status != BlockStatus::Uninit ==> self.buf.len() == self.block_size
    }

    /// Bytes left in the current block.
    pub open spec fn remain(self) -> int {
        self.block_size - self.byte_pos
    }

    /// Offset of the cursor from the start of the device, in bytes.
    pub open spec fn offset(self) -> int {
        self.block_pos * self.block_size + self.byte_pos
    }
}

/// What an operation comes to when it is read off a record of device calls:
/// the state it leaves, its result, the index of the first event that it did
/// not use, and whether the events it used are the calls that it makes.
pub struct Run<T> {
    pub state: BlockState,
    pub result: Result<T, RtError>,
    pub next: int,
    pub matched: bool,
}

impl<T> Run<T> {
    /// The same failed run, as that of an operation with another result type.
    pub open spec fn failed<U>(self) -> Run<U> {
        Run { state: self.state, result: Err(self.result->Err_0), next: self.next, matched: self.matched }
    }
}

/// What a transfer of whole blocks comes to: the offset in the caller's
/// bytes up to which blocks have gone, the number of blocks that have gone,
/// the result, and as in `Run` the next event and whether the events fit.
pub struct Bulk {
    pub off: int,
    pub fwd: int,
    pub result: Result<(), RtError>,
    pub next: int,
    pub matched: bool,
}

/// What a read comes to: its run, and what the caller's buffer then holds.
pub struct ReadRun {
    pub run: Run<usize>,
    pub out: Seq<u8>,
}

/// What a transfer of whole blocks into the caller's buffer comes to: as
/// `Bulk`, with what the buffer then holds.
pub struct BulkRead {
    pub off: int,
    pub fwd: int,
    pub out: Seq<u8>,
    pub result: Result<(), RtError>,
    pub next: int,
    pub matched: bool,
}

/// The smaller of two integers.
pub open spec fn least(a: int, b: int) -> int {
    if a <= b {
        a
    } else {
        b
    }
}

impl BlockState {
    /// A run that found another event than the call it makes.
    pub open spec fn stray<T>(self, at: int) -> Run<T> {
        Run { state: self, result: Err(RtError::Error), next: at, matched: false }
    }

    /// Loading the current block: one read of one block at `block_pos` into
    /// a buffer of `block_size` bytes. The buffer then holds whatever the
    /// device left in it; the load fails with the device's error, and with
    /// `IO` if the buffer no longer has the length of a block.
    pub open spec fn load(self, evs: Seq<IoEvent>, at: int) -> Run<()> {
        if 0 <= at < evs.len() {
            match evs[at] {
                IoEvent::Read { pos, size, len, reply, data } => {
                    let filled = BlockState { buf: data, ..self };
                    Run {
                        state: filled,
                        result: match reply {
                            Err(err) => Err(err),
                            Ok(_) => if data.len() == self.block_size {
                                Ok(())
                            } else {
                                Err(RtError::IO)
                            },
                        },
                        next: at + 1,
                        matched: pos == self.block_pos && size == 1 && len == self.block_size,
                    }
                },
                _ => self.stray(at),
            }
        } else {
            self.stray(at)
        }
    }

    /// Copying the first `n` bytes of `data` into the buffer at the cursor:
    /// the cursor moves on by `n`, and the buffer is dirty.
    pub open spec fn put(self, data: Seq<u8>, n: int, at: int) -> Run<usize> {
        Run {
            state: BlockState {
                byte_pos: (self.byte_pos + n) as usize,
                status: BlockStatus::Dirty,
                buf: self.buf.subrange(0, self.byte_pos as int) + data.subrange(0, n)
                    + self.buf.subrange(self.byte_pos + n, self.buf.len() as int),
                ..self
            },
            result: Ok(n as usize),
            next: at,
            matched: true,
        }
    }

    /// Writing into the current block: the block is loaded first if the
    /// buffer holds nothing of it, then as much of `data` as the block has
    /// room for is put into the buffer.
    pub open spec fn write_block(self, data: Seq<u8>, evs: Seq<IoEvent>, at: int) -> Run<usize> {
        let n = least(data.len() as int, self.remain());
        if self.status == BlockStatus::Uninit {
            let loaded = self.load(evs, at);
            if loaded.matched && loaded.result is Ok {
                loaded.state.put(data, n, loaded.next)
            } else {
                loaded.failed()
            }
        } else {
            self.put(data, n, at)
        }
    }

    /// Reading from the current block: the block is loaded first if the
    /// buffer holds nothing of it, then as many bytes as `out` has room for
    /// and the block has left are copied from the buffer at the cursor to
    /// the start of `out`. The buffer then counts as clean.
    pub open spec fn read_block(self, out: Seq<u8>, evs: Seq<IoEvent>, at: int) -> ReadRun {
        let n = least(out.len() as int, self.remain());
        if self.status == BlockStatus::Uninit {
            let loaded = self.load(evs, at);
            if loaded.matched && loaded.result is Ok {
                loaded.state.take(out, n, loaded.next)
            } else {
                ReadRun { run: loaded.failed(), out }
            }
        } else {
            self.take(out, n, at)
        }
    }

    /// Copying `n` bytes of the buffer from the cursor on to the start of
    /// `out`: the cursor moves on by `n`, and the buffer is clean.
    pub open spec fn take(self, out: Seq<u8>, n: int, at: int) -> ReadRun {
        ReadRun {
            run: Run {
                state: BlockState {
                    byte_pos: (self.byte_pos + n) as usize,
                    status: BlockStatus::Clean,
                    ..self
                },
                result: Ok(n as usize),
                next: at,
                matched: true,
            },
            out: self.buf.subrange(self.byte_pos as int, self.byte_pos + n) + out.subrange(
                n,
                out.len() as int,
            ),
        }
    }

    /// Storing the buffer: one write of one block at `block_pos` out of the
    /// buffer's bytes. It fails with the device's error.
    pub open spec fn store(self, evs: Seq<IoEvent>, at: int) -> Run<()> {
        if 0 <= at < evs.len() {
            match evs[at] {
                IoEvent::Write { pos, size, data, reply } => Run {
                    state: self,
                    result: match reply {
                        Err(err) => Err(err),
                        Ok(_) => Ok(()),
                    },
                    next: at + 1,
                    matched: pos == self.block_pos && size == 1 && data == self.buf,
                },
                _ => self.stray(at),
            }
        } else {
            self.stray(at)
        }
    }

    /// Flushing: a dirty buffer is stored and then counts as clean; any
    /// other buffer is left alone.
    pub open spec fn flush(self, evs: Seq<IoEvent>, at: int) -> Run<()> {
        if self.status == BlockStatus::Dirty {
            let stored = self.store(evs, at);
            if stored.matched && stored.result is Ok {
                Run { state: BlockState { status: BlockStatus::Clean, ..self }, ..stored }
            } else {
                stored
            }
        } else {
            Run { state: self, result: Ok(()), next: at, matched: true }
        }
    }

    /// Leaving the current block for the one `steps` blocks further: the
    /// buffer holds nothing any more, and the move fails with `Inval` where
    /// no block has that index.
    pub open spec fn step(self, steps: int, at: int) -> Run<()> {
        let target = self.block_pos + steps;
        let left = BlockState { status: BlockStatus::Uninit, ..self };
        if 0 <= target <= usize::MAX {
            Run {
                state: BlockState { block_pos: target as usize, ..left },
                result: Ok(()),
                next: at,
                matched: true,
            }
        } else {
            Run { state: left, result: Err(RtError::Inval), next: at, matched: true }
        }
    }

    /// Moving on by `steps` blocks. A block that has been used up counts as
    /// left already: the cursor goes to offset 0 and one more step is taken.
    /// Where no step remains nothing else happens; else a dirty buffer is
    /// stored first, and the move is given up if the device fails to store
    /// it.
    pub open spec fn forward(self, steps: int, evs: Seq<IoEvent>, at: int) -> Run<()> {
        let used_up = self.byte_pos == self.block_size;
        let start = if used_up {
            BlockState { byte_pos: 0, ..self }
        } else {
            self
        };
        let steps = if used_up {
            steps + 1
        } else {
            steps
        };
        if steps == 0 {
            Run { state: start, result: Ok(()), next: at, matched: true }
        } else if start.status == BlockStatus::Dirty {
            let stored = start.store(evs, at);
            if stored.matched && stored.result is Ok {
                start.step(steps, stored.next)
            } else {
                stored
            }
        } else {
            start.step(steps, at)
        }
    }

    /// The first part of a write: where the cursor stands inside a block,
    /// the block is written into as far as it has room, and left if that has
    /// used it up. The result is the number of bytes taken.
    pub open spec fn write_head(self, data: Seq<u8>, evs: Seq<IoEvent>, at: int) -> Run<usize> {
        if self.byte_pos == 0 {
            Run { state: self, result: Ok(0), next: at, matched: true }
        } else {
            let first = self.write_block(data, evs, at);
            if first.matched && first.result is Ok {
                let moved = first.state.forward(0, evs, first.next);
                if moved.matched && moved.result is Ok {
                    Run {
                        state: moved.state,
                        result: first.result,
                        next: moved.next,
                        matched: true,
                    }
                } else {
                    moved.failed()
                }
            } else {
                first
            }
        }
    }

    /// A write of `data` at the cursor: the head part, then the whole blocks
    /// straight to the device, then the move over the blocks that have gone, and
    /// at last the bytes that are left, written into the block that the
    /// cursor has come to. The first failure ends the write and is its
    /// result; else the result is the number of bytes taken.
    pub open spec fn write(self, data: Seq<u8>, evs: Seq<IoEvent>, at: int) -> Run<usize> {
        let head = self.write_head(data, evs, at);
        if !(head.matched && head.result is Ok) {
            head
        } else {
            let bulk = head.state.write_bulk(data, head.result->Ok_0 as int, 0, evs, head.next);
            if !(bulk.matched && bulk.result is Ok) {
                Run {
                    state: head.state,
                    result: Err(bulk.result->Err_0),
                    next: bulk.next,
                    matched: bulk.matched,
                }
            } else {
                let moved = head.state.forward(bulk.fwd, evs, bulk.next);
                if !(moved.matched && moved.result is Ok) {
                    moved.failed()
                } else if bulk.off < data.len() {
                    let last = moved.state.write_block(
                        data.subrange(bulk.off, data.len() as int),
                        evs,
                        moved.next,
                    );
                    if last.matched && last.result is Ok {
                        Run {
                            state: last.state,
                            result: Ok((bulk.off + last.result->Ok_0) as usize),
                            next: last.next,
                            matched: true,
                        }
                    } else {
                        last
                    }
                } else {
                    Run {
                        state: moved.state,
                        result: Ok(bulk.off as usize),
                        next: moved.next,
                        matched: true,
                    }
                }
            }
        }
    }

    /// A bulk read that found another event than the call it makes.
    pub open spec fn stray_read(self, out: Seq<u8>, off: int, fwd: int, at: int) -> BulkRead {
        BulkRead { off, fwd, out, result: Err(RtError::Error), next: at, matched: false }
    }

    /// Reading whole blocks straight into `out` from `off` on, with `fwd`
    /// blocks read before. While `out` has room for a block or more, the
    /// room for all whole blocks is handed to one read at the block behind
    /// those that have been read, and then holds whatever the device left in
    /// it. The device's count says how many blocks have come now. The
    /// transfer fails with the device's error, with `IO` if the device counts
    /// no block or more than it was asked for or the room has changed its
    /// length, and with `Inval` where no block has the index to read at or
    /// the blocks read could not be stepped over.
    pub open spec fn read_bulk(self, out: Seq<u8>, off: int, fwd: int, evs: Seq<IoEvent>, at: int)
        -> BulkRead
        decreases out.len() - off,
        via Self::read_bulk_ends
    {
        let left = out.len() - off;
        if off < 0 || left < self.block_size || self.block_size == 0 {
            BulkRead { off, fwd, out, result: Ok(()), next: at, matched: true }
        } else if self.block_pos + fwd > usize::MAX {
            BulkRead { off, fwd, out, result: Err(RtError::Inval), next: at, matched: true }
        } else if 0 <= at < evs.len() {
            let n = left / (self.block_size as int);
            match evs[at] {
                IoEvent::Read { pos, size, len, reply, data } => {
                    if pos == self.block_pos + fwd && size == n && len == n * self.block_size {
                        let filled = out.subrange(0, off) + data + out.subrange(
                            off + n * self.block_size,
                            out.len() as int,
                        );
                        let failure = match reply {
                            Err(err) => Some(err),
                            Ok(done) => if done == 0 || done > n || data.len() != n
                                * self.block_size {
                                Some(RtError::IO)
                            } else if fwd + reply->Ok_0 > isize::MAX {
                                Some(RtError::Inval)
                            } else {
                                None
                            },
                        };
                        match failure {
                            Some(err) => BulkRead {
                                off,
                                fwd,
                                out: filled,
                                result: Err(err),
                                next: at + 1,
                                matched: true,
                            },
                            None => self.read_bulk(
                                filled,
                                off + reply->Ok_0 * self.block_size,
                                fwd + reply->Ok_0,
                                evs,
                                at + 1,
                            ),
                        }
                    } else {
                        self.stray_read(out, off, fwd, at)
                    }
                },
                _ => self.stray_read(out, off, fwd, at),
            }
        } else {
            self.stray_read(out, off, fwd, at)
        }
    }

    #[via_fn]
    proof fn read_bulk_ends(self, out: Seq<u8>, off: int, fwd: int, evs: Seq<IoEvent>, at: int) {
        let left = out.len() - off;
        let size = self.block_size as int;
        assert forall|done: usize| 0 < done <= left / size && size > 0 && left >= 0 implies 0
            < #[trigger] (done * self.block_size) <= left by {
            assert(0 < done * size <= left) by (nonlinear_arith)
                requires
                    0 < done <= left / size,
                    size > 0,
                    left >= 0,
            ;
        }
        assert(size > 0 && left >= 0 ==> (left / size) * size <= left) by (nonlinear_arith);
    }

    /// The first part of a read: where the cursor stands inside a block,
    /// the block is read from as far as it has bytes left, and left if that
    /// has used it up. The result is the number of bytes read.
    pub open spec fn read_head(self, out: Seq<u8>, evs: Seq<IoEvent>, at: int) -> ReadRun {
        if self.byte_pos == 0 {
            ReadRun { run: Run { state: self, result: Ok(0), next: at, matched: true }, out }
        } else {
            let first = self.read_block(out, evs, at);
            if first.run.matched && first.run.result is Ok {
                let moved = first.run.state.forward(0, evs, first.run.next);
                if moved.matched && moved.result is Ok {
                    ReadRun {
                        run: Run {
                            state: moved.state,
                            result: first.run.result,
                            next: moved.next,
                            matched: true,
                        },
                        out: first.out,
                    }
                } else {
                    ReadRun { run: moved.failed(), out: first.out }
                }
            } else {
                first
            }
        }
    }

    /// A read into `out` at the cursor: the head part, then whole blocks
    /// straight from the device, then the move over the blocks that have come,
    /// and at last the room that is left, filled from the block that the
    /// cursor has come to. The first failure ends the read and is its
    /// result; else the result is the number of bytes read.
    pub open spec fn read(self, out: Seq<u8>, evs: Seq<IoEvent>, at: int) -> ReadRun {
        let head = self.read_head(out, evs, at);
        if !(head.run.matched && head.run.result is Ok) {
            head
        } else {
            let from = head.run.state;
            let bulk = from.read_bulk(head.out, head.run.result->Ok_0 as int, 0, evs, head.run.next);
            if !(bulk.matched && bulk.result is Ok) {
                ReadRun {
                    run: Run {
                        state: from,
                        result: Err(bulk.result->Err_0),
                        next: bulk.next,
                        matched: bulk.matched,
                    },
                    out: bulk.out,
                }
            } else {
                let moved = from.forward(bulk.fwd, evs, bulk.next);
                if !(moved.matched && moved.result is Ok) {
                    ReadRun { run: moved.failed(), out: bulk.out }
                } else if bulk.off < bulk.out.len() {
                    let last = moved.state.read_block(
                        bulk.out.subrange(bulk.off, bulk.out.len() as int),
                        evs,
                        moved.next,
                    );
                    ReadRun {
                        run: if last.run.matched && last.run.result is Ok {
                            Run {
                                state: last.run.state,
                                result: Ok((bulk.off + last.run.result->Ok_0) as usize),
                                next: last.run.next,
                                matched: true,
                            }
                        } else {
                            last.run
                        },
                        out: bulk.out.subrange(0, bulk.off) + last.out,
                    }
                } else {
                    ReadRun {
                        run: Run {
                            state: moved.state,
                            result: Ok(bulk.off as usize),
                            next: moved.next,
                            matched: true,
                        },
                        out: bulk.out,
                    }
                }
            }
        }
    }

    /// A seek: where there is no offset to reach the seek fails with
    /// `Inval` and changes nothing. Else the cursor goes to the block and the
    /// byte of the offset; where that is another block, the buffer is
    /// flushed first and then holds nothing, and the seek is given up if the
    /// flush fails. The result is the offset.
    pub open spec fn seek(self, pos: SeekFrom, evs: Seq<IoEvent>, at: int) -> Run<i64> {
        match pos.target(self.offset()) {
            Some(target) if SeekFrom::reachable(target) => {
                let block = target / (self.block_size as int);
                let byte = target % (self.block_size as int);
                if block != self.block_pos {
                    let flushed = self.flush(evs, at);
                    if flushed.matched && flushed.result is Ok {
                        Run {
                            state: BlockState {
                                byte_pos: byte as usize,
                                block_pos: block as usize,
                                status: BlockStatus::Uninit,
                                ..flushed.state
                            },
                            result: Ok(target as i64),
                            next: flushed.next,
                            matched: true,
                        }
                    } else {
                        flushed.failed()
                    }
                } else {
                    Run {
                        state: BlockState { byte_pos: byte as usize, ..self },
                        result: Ok(target as i64),
                        next: at,
                        matched: true,
                    }
                }
            },
            _ => Run { state: self, result: Err(RtError::Inval), next: at, matched: true },
        }
    }

    #[via_fn]
    proof fn write_bulk_ends(self, data: Seq<u8>, off: int, fwd: int, evs: Seq<IoEvent>, at: int) {
        let left = data.len() - off;
        let size = self.block_size as int;
        assert forall|done: usize| 0 < done <= left / size && size > 0 && left >= 0 implies 0
            < #[trigger] (done * self.block_size) <= left by {
            assert(0 < done * size <= left) by (nonlinear_arith)
                requires
                    0 < done <= left / size,
                    size > 0,
                    left >= 0,
            ;
        }
    }

    /// A bulk transfer that found another event than the call it makes.
    pub open spec fn stray_bulk(self, off: int, fwd: int, at: int) -> Bulk {
        Bulk { off, fwd, result: Err(RtError::Error), next: at, matched: false }
    }

    /// Writing the whole blocks of `data` from `off` on straight from the
    /// caller's bytes, with `fwd` blocks gone before. While a block or more
    /// is left, all whole blocks that are left are handed to one write at the
    /// block behind those that have gone. The device's count says how many
    /// of them have gone now. The transfer fails with the device's error,
    /// with `IO` if the device counts no block or more than it was handed,
    /// and with `Inval` where no block has the index to write at or the
    /// blocks gone could not be stepped over.
    pub open spec fn write_bulk(self, data: Seq<u8>, off: int, fwd: int, evs: Seq<IoEvent>, at: int)
        -> Bulk
        decreases data.len() - off,
        via Self::write_bulk_ends
    {
        let left = data.len() - off;
        if off < 0 || left < self.block_size || self.block_size == 0 {
            Bulk { off, fwd, result: Ok(()), next: at, matched: true }
        } else if self.block_pos + fwd > usize::MAX {
            Bulk { off, fwd, result: Err(RtError::Inval), next: at, matched: true }
        } else if 0 <= at < evs.len() {
            let n = left / (self.block_size as int);
            match evs[at] {
                IoEvent::Write { pos, size, data: sent, reply } => {
                    if pos == self.block_pos + fwd && size == n && sent == data.subrange(
                        off,
                        off + n * self.block_size,
                    ) {
                        match reply {
                            Err(err) => Bulk {
                                off,
                                fwd,
                                result: Err(err),
                                next: at + 1,
                                matched: true,
                            },
                            Ok(done) => if done == 0 || done > n {
                                Bulk {
                                    off,
                                    fwd,
                                    result: Err(RtError::IO),
                                    next: at + 1,
                                    matched: true,
                                }
                            } else if fwd + done > isize::MAX {
                                Bulk {
                                    off,
                                    fwd,
                                    result: Err(RtError::Inval),
                                    next: at + 1,
                                    matched: true,
                                }
                            } else {
                                self.write_bulk(
                                    data,
                                    off + done * self.block_size,
                                    fwd + done,
                                    evs,
                                    at + 1,
                                )
                            },
                        }
                    } else {
                        self.stray_bulk(off, fwd, at)
                    }
                },
                _ => self.stray_bulk(off, fwd, at),
            }
        } else {
            self.stray_bulk(off, fwd, at)
        }
    }
}

/// A write of whole blocks at the start of a block, with nothing to store
/// first, is one write of all of them at the cursor's block; where the device
/// takes them all, the cursor then stands at the start of the block behind
/// them and the buffer holds nothing.
pub proof fn lemma_write_whole_blocks(
    s: BlockState,
    data: Seq<u8>,
    blocks: usize,
    evs: Seq<IoEvent>,
    at: int,
)
    requires
        s.wf(),
        s.byte_pos == 0,
        s.status != BlockStatus::Dirty,
        1 <= blocks <= isize::MAX,
        data.len() == blocks * s.block_size,
        s.block_pos + blocks <= usize::MAX,
        0 <= at < evs.len(),
        evs[at] == (IoEvent::Write { pos: s.block_pos, size: blocks, data, reply: Ok(blocks) }),
    ensures
        s.write(data, evs, at) == (Run {
            state: BlockState {
                block_pos: (s.block_pos + blocks) as usize,
                status: BlockStatus::Uninit,
                ..s
            },
            result: Ok(data.len() as usize),
            next: at + 1,
            matched: true,
        }),
{
    let size = s.block_size as int;
    assert((blocks * size) / size == blocks && blocks * size >= size) by (nonlinear_arith)
        requires
            size > 0,
            blocks >= 1,
    ;
    assert(data.subrange(0, blocks * size) =~= data);
    reveal_with_fuel(BlockState::write_bulk, 2);
    let bulk = s.write_bulk(data, 0, 0, evs, at);
    assert(bulk == Bulk {
        off: data.len() as int,
        fwd: blocks as int,
        result: Ok(()),
        next: at + 1,
        matched: true,
    });
}

/// A write that does not use up the cursor's block, into a buffer that
/// holds the block, makes no device call: the bytes are put into the
/// buffer.
pub proof fn lemma_write_inside_block(s: BlockState, data: Seq<u8>, evs: Seq<IoEvent>, at: int)
    requires
        s.wf(),
        s.status != BlockStatus::Uninit,
        0 < data.len() < s.remain(),
    ensures
        s.write(data, evs, at) == s.put(data, data.len() as int, at),
{
    assert(data.subrange(0, data.len() as int) =~= data);
}

/// A read of whole blocks at the start of a block, with nothing to store
/// first, is one read of all of them at the cursor's block, straight into
/// the caller's buffer; where the device delivers them all, the cursor then
/// stands at the start of the block behind them and the block buffer holds
/// nothing.
pub proof fn lemma_read_whole_blocks(
    s: BlockState,
    out: Seq<u8>,
    blocks: usize,
    got: Seq<u8>,
    evs: Seq<IoEvent>,
    at: int,
)
    requires
        s.wf(),
        s.byte_pos == 0,
        s.status != BlockStatus::Dirty,
        1 <= blocks <= isize::MAX,
        out.len() == blocks * s.block_size,
        got.len() == out.len(),
        s.block_pos + blocks <= usize::MAX,
        0 <= at < evs.len(),
        evs[at] == (IoEvent::Read {
            pos: s.block_pos,
            size: blocks,
            len: out.len(),
            reply: Ok(blocks),
            data: got,
        }),
    ensures
        s.read(out, evs, at) == (ReadRun {
            run: Run {
                state: BlockState {
                    block_pos: (s.block_pos + blocks) as usize,
                    status: BlockStatus::Uninit,
                    ..s
                },
                result: Ok(out.len() as usize),
                next: at + 1,
                matched: true,
            },
            out: got,
        }),
{
    let size = s.block_size as int;
    assert((blocks * size) / size == blocks && blocks * size >= size) by (nonlinear_arith)
        requires
            size > 0,
            blocks >= 1,
    ;
    assert(out.subrange(0, 0) + got + out.subrange(blocks * size, out.len() as int) =~= got);
    reveal_with_fuel(BlockState::read_bulk, 2);
    let bulk = s.read_bulk(out, 0, 0, evs, at);
    assert(bulk == BulkRead {
        off: out.len() as int,
        fwd: blocks as int,
        out: got,
        result: Ok(()),
        next: at + 1,
        matched: true,
    });
}

/// A read that does not use up the cursor's block, from a buffer that holds
/// the block, makes no device call: the bytes are taken from the buffer.
pub proof fn lemma_read_inside_block(s: BlockState, out: Seq<u8>, evs: Seq<IoEvent>, at: int)
    requires
        s.wf(),
        s.status != BlockStatus::Uninit,
        0 < out.len() < s.remain(),
    ensures
        s.read(out, evs, at) == s.take(out, out.len() as int, at),
{
    let n = out.len() as int;
    let taken = s.take(out, n, at);
    assert(out.subrange(0, n) =~= out);
    assert(taken.out.len() == n);
    assert(taken.out.subrange(0, n) =~= taken.out);
}

/// Providing special device operation for [block device](crate::device::DeviceType)
pub struct BlockDevice<'a, D: DeviceIo> {
    device: Recorded<'a, D>,
    byte_pos: usize,
    buf: Vec<u8>,
    status: BlockStatus,
    block_pos: usize,
    block_size: usize,
}

/// Copies the first `n` bytes of `data` over the bytes of `buf` from
/// `start` on.
fn copy_into(buf: &mut Vec<u8>, start: usize, data: &[u8], n: usize)
    requires
        n <= data@.len(),
        start + n <= old(buf)@.len(),
    ensures
        final(buf)@ == old(buf)@.subrange(0, start as int) + data@.subrange(0, n as int) + old(
            buf,
        )@.subrange(start + n, old(buf)@.len() as int),
{
    let ghost before = buf@;
    let total: usize = buf.len();
    let mut i: usize = 0;
    while i < n
        invariant
            i <= n,
            n <= data@.len(),
            start + n <= before.len(),
            before.len() == total,
            buf@.len() == before.len(),
            forall|j: int| 0 <= j < start ==> buf@[j] == before[j],
            forall|j: int| start <= j < start + i ==> buf@[j] == data@[j - start],
            forall|j: int| start + i <= j < before.len() ==> buf@[j] == before[j],
        decreases n - i,
    {
        buf[start + i] = data[i];
        i += 1;
    }
    assert(buf@ =~= before.subrange(0, start as int) + data@.subrange(0, n as int)
        + before.subrange(start + n, before.len() as int));
}

/// Copies `n` bytes of `buf` from `start` on over the first bytes of `out`.
fn copy_out(buf: &Vec<u8>, start: usize, out: &mut [u8], n: usize)
    requires
        n <= old(out)@.len(),
        start + n <= buf@.len(),
    ensures
        final(out)@ == buf@.subrange(start as int, start + n) + old(out)@.subrange(
            n as int,
            old(out)@.len() as int,
        ),
{
    let ghost before = out@;
    let total: usize = out.len();
    let held: usize = buf.len();
    let mut i: usize = 0;
    while i < n
        invariant
            i <= n,
            n <= before.len(),
            start + n <= buf@.len(),
            buf@.len() == held,
            before.len() == total,
            out@.len() == before.len(),
            forall|j: int| 0 <= j < i ==> out@[j] == buf@[start + j],
            forall|j: int| i <= j < before.len() ==> out@[j] == before[j],
        decreases n - i,
    {
        out[i] = buf[start + i];
        i += 1;
    }
    assert(out@ =~= buf@.subrange(start as int, start + n) + before.subrange(
        n as int,
        before.len() as int,
    ));
}

impl<'a, D: DeviceIo> View for BlockDevice<'a, D> {
    type V = BlockState;

    closed spec fn view(&self) -> BlockState {
        BlockState {
            byte_pos: self.byte_pos,
            block_pos: self.block_pos,
            block_size: self.block_size,
            status: self.status,
            buf: self.buf@,
        }
    }
}

impl<'a, D: DeviceIo> BlockDevice<'a, D> {
    /// Every device call that this stream has made, oldest first.
    pub closed spec fn log(&self) -> Seq<IoEvent> {
        self.device.log()
    }

    /// Validity of the stream: that of its state.
    pub open spec fn wf(&self) -> bool {
        self@.wf()
    }

    /// Create a BlockDevice for reading and writing.
    ///
    /// If `device` is not [DeviceType](DeviceType)::RT_Device_Class_Block,
    /// the method will return `RtError::NoSys`.
    ///
    /// The device must support `RT_DEVICE_CTRL_BLK_GETGEOME` to get block size.
    pub fn new(device: &'a mut D) -> (res: Result<Self, RtError>)
        ensures
            res matches Ok(stream) ==> {
                &&& stream.wf()
                &&& stream@ == BlockState::initial(stream@.block_size)
                &&& BlockState::opened(stream.log(), stream@.block_size)
            },
    {
        let mut device = Recorded::new(device);
        let kind = device.get_device_type();
        if kind != DeviceType::RT_Device_Class_Block {
            return Err(RtError::NoSys);
        }
        let geometry = GetGeometry::new().exec(&mut device)?;
        proof {
            assert(device.log()[0] == device.log().drop_last()[0]);
            assert(device.log()[1] == device.log().last());
        }
        Self::open(device, kind, geometry)
    }

    /// Opens a stream over a device that has told its class and geometry.
    fn open(device: Recorded<'a, D>, kind: DeviceType, geometry: rt_device_blk_geometry) -> (res:
        Result<Self, RtError>)
        ensures
            kind != DeviceType::RT_Device_Class_Block ==> res == Err::<Self, RtError>(
                RtError::NoSys,
            ),
            kind == DeviceType::RT_Device_Class_Block && geometry.block_size == 0 ==> res == Err::<
                Self,
                RtError,
            >(RtError::Inval),
            kind == DeviceType::RT_Device_Class_Block && geometry.block_size != 0 ==> {
                &&& res matches Ok(stream)
                &&& stream.wf()
                &&& stream@ == BlockState::initial(geometry.block_size as usize)
                &&& stream.log() == device.log()
            },
    {
        if kind != DeviceType::RT_Device_Class_Block {
            return Err(RtError::NoSys);
        }
        if geometry.block_size == 0 {
            return Err(RtError::Inval);
        }
        Ok(
            Self {
                device,
                byte_pos: 0,
                buf: Vec::new(),
                status: BlockStatus::Uninit,
                block_pos: 0,
                block_size: geometry.block_size as usize,
            },
        )
    }

    /// Opens a stream over a device of class `kind` that reports `geometry`:
    /// `NoSys` unless it is a block device, `Inval` if its blocks are empty.
    pub fn with_geometry(
        device: &'a mut D,
        kind: DeviceType,
        geometry: rt_device_blk_geometry,
    ) -> (res: Result<Self, RtError>)
        ensures
            kind != DeviceType::RT_Device_Class_Block ==> res == Err::<Self, RtError>(
                RtError::NoSys,
            ),
            kind == DeviceType::RT_Device_Class_Block && geometry.block_size == 0 ==> res == Err::<
                Self,
                RtError,
            >(RtError::Inval),
            kind == DeviceType::RT_Device_Class_Block && geometry.block_size != 0 ==> {
                &&& res matches Ok(stream)
                &&& stream.wf()
                &&& stream@ == BlockState::initial(geometry.block_size as usize)
                &&& stream.log() == Seq::<IoEvent>::empty()
            },
    {
        Self::open(Recorded::new(device), kind, geometry)
    }

    /// Index of the current block.
    pub fn block_pos(&self) -> (pos: usize)
        ensures
            pos == self@.block_pos,
    {
        self.block_pos
    }

    /// Offset of the cursor within the current block.
    pub fn byte_pos(&self) -> (pos: usize)
        ensures
            pos == self@.byte_pos,
    {
        self.byte_pos
    }

    /// Bytes per block.
    pub fn block_size(&self) -> (size: usize)
        ensures
            size == self@.block_size,
    {
        self.block_size
    }

    /// Bytes left in the current block.
    pub fn remain(&self) -> (left: usize)
        requires
            self.wf(),
        ensures
            left == self@.remain(),
    {
        self.block_size - self.byte_pos
    }

    /// Whether the current block has been used up.
    pub fn is_end(&self) -> (end: bool)
        ensures
            end == (self@.byte_pos == self@.block_size),
    {
        self.block_size == self.byte_pos
    }

    /// Whether the cursor stands at the start of the current block.
    pub fn is_begin(&self) -> (begin: bool)
        ensures
            begin == (self@.byte_pos == 0),
    {
        self.byte_pos == 0
    }

    /// Reads the current block from the device into the block buffer.
    fn load(&mut self) -> (res: Result<(), RtError>)
        requires
            old(self).wf(),
            old(self)@.status == BlockStatus::Uninit,
        ensures
            final(self).wf(),
            extends(final(self).log(), old(self).log()),
            old(self)@.load(final(self).log(), old(self).log().len() as int) == (Run {
                state: final(self)@,
                result: res,
                next: final(self).log().len() as int,
                matched: true,
            }),
    {
        if self.buf.len() != self.block_size {
            self.buf = vec![0u8; self.block_size];
        }
        let ghost before = self.device.log();
        let reply = self.device.read(self.block_pos, self.buf.as_mut_slice(), 1);
        proof {
            lemma_push_extends(before, self.device.log().last());
        }
        match reply {
            Err(err) => Err(err),
            Ok(_) => if self.buf.len() != self.block_size {
                Err(RtError::IO)
            } else {
                Ok(())
            },
        }
    }

    /// Writes the start of `data` into the current block, as far as the
    /// block has room, and gives the number of bytes taken. The block is
    /// read from the device first if the buffer holds nothing of it.
    pub fn write_block(&mut self, data: &[u8]) -> (res: Result<usize, RtError>)
        requires
            old(self).wf(),
        ensures
            final(self).wf(),
            extends(final(self).log(), old(self).log()),
            old(self)@.write_block(data@, final(self).log(), old(self).log().len() as int) == (Run {
                state: final(self)@,
                result: res,
                next: final(self).log().len() as int,
                matched: true,
            }),
    {
        let room: usize = self.remain();
        let n: usize = if data.len() <= room { data.len() } else { room };
        if self.status == BlockStatus::Uninit {
            self.load()?;
        }
        let start: usize = self.byte_pos;
        copy_into(&mut self.buf, start, data, n);
        self.byte_pos = start + n;
        self.status = BlockStatus::Dirty;
        Ok(n)
    }

    /// Reads from the current block into the start of `data`, as far as the
    /// block has bytes left, and gives the number of bytes read. The block
    /// is read from the device first if the buffer holds nothing of it.
    pub fn read_block(&mut self, data: &mut [u8]) -> (res: Result<usize, RtError>)
        requires
            old(self).wf(),
        ensures
            final(self).wf(),
            extends(final(self).log(), old(self).log()),
            old(self)@.read_block(old(data)@, final(self).log(), old(self).log().len() as int)
                == (ReadRun {
                run: Run {
                    state: final(self)@,
                    result: res,
                    next: final(self).log().len() as int,
                    matched: true,
                },
                out: final(data)@,
            }),
    {
        let room: usize = self.remain();
        let n: usize = if data.len() <= room { data.len() } else { room };
        if self.status == BlockStatus::Uninit {
            self.load()?;
        }
        let start: usize = self.byte_pos;
        copy_out(&self.buf, start, data, n);
        self.byte_pos = start + n;
        self.status = BlockStatus::Clean;
        Ok(n)
    }

    /// Writes the block buffer to the device as the current block.
    fn store(&mut self) -> (res: Result<(), RtError>)
        requires
            old(self).wf(),
        ensures
            final(self)@ == old(self)@,
            extends(final(self).log(), old(self).log()),
            old(self)@.store(final(self).log(), old(self).log().len() as int) == (Run {
                state: final(self)@,
                result: res,
                next: final(self).log().len() as int,
                matched: true,
            }),
    {
        let ghost before = self.device.log();
        let reply = self.device.write(self.block_pos, self.buf.as_slice(), 1);
        proof {
            lemma_push_extends(before, self.device.log().last());
        }
        match reply {
            Err(err) => Err(err),
            Ok(_) => Ok(()),
        }
    }

    /// Writes the block buffer to the device if it is dirty.
    pub fn flush(&mut self) -> (res: Result<(), RtError>)
        requires
            old(self).wf(),
        ensures
            final(self).wf(),
            extends(final(self).log(), old(self).log()),
            old(self)@.flush(final(self).log(), old(self).log().len() as int) == (Run {
                state: final(self)@,
                result: res,
                next: final(self).log().len() as int,
                matched: true,
            }),
    {
        if self.status == BlockStatus::Dirty {
            self.store()?;
            self.status = BlockStatus::Clean;
        }
        Ok(())
    }

    /// Moves the cursor on by `steps` whole blocks, back where `steps` is
    /// negative; a block that has been used up is left first. A dirty block
    /// buffer is written to the device before the block is left.
    pub fn forward(&mut self, steps: isize) -> (res: Result<(), RtError>)
        requires
            old(self).wf(),
        ensures
            final(self).wf(),
            extends(final(self).log(), old(self).log()),
            old(self)@.forward(steps as int, final(self).log(), old(self).log().len() as int) == (
            Run {
                state: final(self)@,
                result: res,
                next: final(self).log().len() as int,
                matched: true,
            }),
    {
        let mut extra: usize = 0;
        if self.is_end() {
            extra = 1;
            self.byte_pos = 0;
        }
        if (steps == 0 && extra == 0) || (steps == -1 && extra == 1) {
            return Ok(());
        }
        if self.status == BlockStatus::Dirty {
            self.store()?;
        }
        self.status = BlockStatus::Uninit;
        let target: Option<usize> = if steps >= 0 {
            self.block_pos.checked_add(steps as usize + extra)
        } else {
            let back: usize = if steps == isize::MIN {
                isize::MAX as usize + 1
            } else {
                (-steps) as usize
            };
            self.block_pos.checked_sub(back - extra)
        };
        match target {
            Some(block_pos) => {
                self.block_pos = block_pos;
                Ok(())
            },
            None => Err(RtError::Inval),
        }
    }

    /// Writes the whole blocks of `data` from `off` on to the device, and
    /// gives the offset behind the blocks written and their number.
    fn write_bulk(&mut self, data: &[u8], off: usize) -> (res: Result<(usize, usize), RtError>)
        requires
            old(self).wf(),
            off <= data@.len(),
        ensures
            final(self)@ == old(self)@,
            extends(final(self).log(), old(self).log()),
            forall|later: Seq<IoEvent>| #[trigger]
                extends(later, final(self).log()) ==> {
                    let bulk = old(self)@.write_bulk(
                        data@,
                        off as int,
                        0,
                        later,
                        old(self).log().len() as int,
                    );
                    &&& bulk.matched
                    &&& bulk.next == final(self).log().len()
                    &&& match res {
                        Ok((end, fwd)) => bulk.result is Ok && bulk.off == end && bulk.fwd == fwd,
                        Err(err) => bulk.result == Err::<(), RtError>(err),
                    }
                },
            res matches Ok((end, fwd)) ==> off <= end <= data@.len() && fwd <= isize::MAX,
    {
        let ghost state = self@;
        let ghost start = self.device.log().len() as int;
        let mut at: usize = off;
        let mut forward: usize = 0;
        while data.len() - at >= self.block_size
            invariant
                self@ == state,
                state == old(self)@,
                state.wf(),
                off <= at <= data@.len(),
                forward <= isize::MAX,
                extends(self.log(), old(self).log()),
                start == old(self).log().len(),
                forall|later: Seq<IoEvent>| #[trigger]
                    extends(later, self.log()) ==> state.write_bulk(
                        data@,
                        off as int,
                        0,
                        later,
                        start,
                    ) == state.write_bulk(
                        data@,
                        at as int,
                        forward as int,
                        later,
                        self.log().len() as int,
                    ),
            decreases data@.len() - at,
        {
            let left: usize = data.len() - at;
            let block_num: usize = left / self.block_size;
            assert(1 <= block_num && block_num * self.block_size <= left) by (nonlinear_arith)
                requires
                    block_num == left / self.block_size,
                    left >= self.block_size,
                    self.block_size > 0,
            ;
            proof {
                assert(extends(self.log(), self.log()));
            }
            let pos: usize = match self.block_pos.checked_add(forward) {
                Some(pos) => pos,
                None => {
                    return Err(RtError::Inval);
                },
            };
            let chunk = &data[at..at + block_num * self.block_size];
            let ghost before = self.device.log();
            let reply = self.device.write(pos, chunk, block_num);
            let ghost now = self.device.log();
            proof {
                assert forall|later: Seq<IoEvent>| #[trigger] extends(later, now) implies extends(
                    later,
                    before,
                ) && later[before.len() as int] == IoEvent::Write {
                    pos,
                    size: block_num,
                    data: chunk@,
                    reply,
                } by {
                    assert(later[before.len() as int] == now[before.len() as int]);
                }
            }
            let done: usize = match reply {
                Ok(done) => done,
                Err(err) => {
                    return Err(err);
                },
            };
            if done == 0 || done > block_num {
                return Err(RtError::IO);
            }
            if done > isize::MAX as usize - forward {
                return Err(RtError::Inval);
            }
            assert(self.block_size <= done * self.block_size <= block_num * self.block_size)
                by (nonlinear_arith)
                requires
                    1 <= done <= block_num,
                    self.block_size > 0,
            ;
            at = at + done * self.block_size;
            forward = forward + done;
        }
        Ok((at, forward))
    }

    /// Writes `buf` at the cursor and gives the number of bytes written.
    /// Whole blocks go straight from `buf` to the device; the bytes before
    /// and behind them go through the block buffer.
    pub fn write(&mut self, buf: &[u8]) -> (res: Result<usize, RtError>)
        requires
            old(self).wf(),
        ensures
            final(self).wf(),
            extends(final(self).log(), old(self).log()),
            old(self)@.write(buf@, final(self).log(), old(self).log().len() as int) == (Run {
                state: final(self)@,
                result: res,
                next: final(self).log().len() as int,
                matched: true,
            }),
    {
        let ghost log0 = self.log();
        let mut written: usize = 0;
        if !self.is_begin() {
            written = self.write_block(buf)?;
            let ghost log1 = self.log();
            let moved = self.forward(0);
            proof {
                lemma_extends_twice(self.log(), log1, log0);
            }
            if let Err(err) = moved {
                return Err(err);
            }
        }
        let ghost log2 = self.log();
        let bulk = self.write_bulk(buf, written);
        let ghost log3 = self.log();
        proof {
            lemma_extends_twice(log3, log2, log0);
            assert(extends(log3, log3));
        }
        let (end, forward) = match bulk {
            Ok(bulk) => bulk,
            Err(err) => {
                return Err(err);
            },
        };
        let moved = self.forward(forward as isize);
        let ghost log4 = self.log();
        proof {
            lemma_extends_twice(log4, log3, log0);
            lemma_extends_twice(log4, log3, log2);
        }
        if let Err(err) = moved {
            return Err(err);
        }
        written = end;
        if written < buf.len() {
            let last = self.write_block(&buf[written..buf.len()]);
            proof {
                lemma_extends_twice(self.log(), log4, log0);
                lemma_extends_twice(self.log(), log4, log2);
                lemma_extends_twice(self.log(), log4, log3);
            }
            match last {
                Ok(n) => {
                    written = written + n;
                },
                Err(err) => {
                    return Err(err);
                },
            }
        }
        Ok(written)
    }

    /// Reads whole blocks from the device into `data` from `off` on, and
    /// gives the offset behind the blocks read and their number.
    fn read_bulk(&mut self, data: &mut [u8], off: usize) -> (res: Result<(usize, usize), RtError>)
        requires
            old(self).wf(),
            off <= old(data)@.len(),
        ensures
            final(self)@ == old(self)@,
            extends(final(self).log(), old(self).log()),
            forall|later: Seq<IoEvent>| #[trigger]
                extends(later, final(self).log()) ==> {
                    let bulk = old(self)@.read_bulk(
                        old(data)@,
                        off as int,
                        0,
                        later,
                        old(self).log().len() as int,
                    );
                    &&& bulk.matched
                    &&& bulk.next == final(self).log().len()
                    &&& bulk.out == final(data)@
                    &&& match res {
                        Ok((end, fwd)) => bulk.result is Ok && bulk.off == end && bulk.fwd == fwd,
                        Err(err) => bulk.result == Err::<(), RtError>(err),
                    }
                },
            res matches Ok((end, fwd)) ==> off <= end <= final(data)@.len() && fwd <= isize::MAX,
    {
        let ghost state = self@;
        let ghost start = self.device.log().len() as int;
        let mut at: usize = off;
        let mut forward: usize = 0;
        while data.len() - at >= self.block_size
            invariant
                self@ == state,
                state == old(self)@,
                state.wf(),
                off <= at <= data@.len(),
                forward <= isize::MAX,
                extends(self.log(), old(self).log()),
                start == old(self).log().len(),
                forall|later: Seq<IoEvent>| #[trigger]
                    extends(later, self.log()) ==> state.read_bulk(
                        old(data)@,
                        off as int,
                        0,
                        later,
                        start,
                    ) == state.read_bulk(
                        data@,
                        at as int,
                        forward as int,
                        later,
                        self.log().len() as int,
                    ),
            decreases data@.len() - at,
        {
            let ghost out = data@;
            let left: usize = data.len() - at;
            let block_num: usize = left / self.block_size;
            assert(1 <= block_num && block_num * self.block_size <= left) by (nonlinear_arith)
                requires
                    block_num == left / self.block_size,
                    left >= self.block_size,
                    self.block_size > 0,
            ;
            proof {
                assert(extends(self.log(), self.log()));
            }
            let pos: usize = match self.block_pos.checked_add(forward) {
                Some(pos) => pos,
                None => {
                    return Err(RtError::Inval);
                },
            };
            let want: usize = block_num * self.block_size;
            let (_, rest) = data.split_at_mut(at);
            let (room, _) = rest.split_at_mut(want);
            let ghost before = self.device.log();
            let reply = self.device.read(pos, room, block_num);
            let got: usize = room.len();
            let ghost event = IoEvent::Read {
                pos,
                size: block_num,
                len: want as nat,
                reply,
                data: room@,
            };
            let ghost now = self.device.log();
            proof {
                assert(data@ =~= out.subrange(0, at as int) + room@ + out.subrange(
                    at + want,
                    out.len() as int,
                ));
                assert forall|later: Seq<IoEvent>| #[trigger] extends(later, now) implies extends(
                    later,
                    before,
                ) && later[before.len() as int] == event by {
                    assert(later[before.len() as int] == now[before.len() as int]);
                }
            }
            let done: usize = match reply {
                Ok(done) => done,
                Err(err) => {
                    return Err(err);
                },
            };
            if done == 0 || done > block_num || got != want {
                return Err(RtError::IO);
            }
            if done > isize::MAX as usize - forward {
                return Err(RtError::Inval);
            }
            assert(self.block_size <= done * self.block_size <= block_num * self.block_size)
                by (nonlinear_arith)
                requires
                    1 <= done <= block_num,
                    self.block_size > 0,
            ;
            at = at + done * self.block_size;
            forward = forward + done;
        }
        Ok((at, forward))
    }

    /// Reads into `buf` at the cursor and gives the number of bytes read.
    /// Whole blocks come straight from the device into `buf`; the bytes
    /// before and behind them come through the block buffer.
    pub fn read(&mut self, buf: &mut [u8]) -> (res: Result<usize, RtError>)
        requires
            old(self).wf(),
        ensures
            final(self).wf(),
            extends(final(self).log(), old(self).log()),
            old(self)@.read(old(buf)@, final(self).log(), old(self).log().len() as int) == (
            ReadRun {
                run: Run {
                    state: final(self)@,
                    result: res,
                    next: final(self).log().len() as int,
                    matched: true,
                },
                out: final(buf)@,
            }),
    {
        let ghost log0 = self.log();
        let mut read_len: usize = 0;
        if !self.is_begin() {
            read_len = self.read_block(buf)?;
            let ghost log1 = self.log();
            let moved = self.forward(0);
            proof {
                lemma_extends_twice(self.log(), log1, log0);
            }
            if let Err(err) = moved {
                return Err(err);
            }
        }
        let ghost log2 = self.log();
        let bulk = self.read_bulk(buf, read_len);
        let ghost log3 = self.log();
        proof {
            lemma_extends_twice(log3, log2, log0);
            assert(extends(log3, log3));
        }
        let (end, forward) = match bulk {
            Ok(bulk) => bulk,
            Err(err) => {
                return Err(err);
            },
        };
        let moved = self.forward(forward as isize);
        let ghost log4 = self.log();
        proof {
            lemma_extends_twice(log4, log3, log0);
            lemma_extends_twice(log4, log3, log2);
        }
        if let Err(err) = moved {
            return Err(err);
        }
        read_len = end;
        if read_len < buf.len() {
            let (_, rest) = buf.split_at_mut(read_len);
            let last = self.read_block(rest);
            proof {
                lemma_extends_twice(self.log(), log4, log0);
                lemma_extends_twice(self.log(), log4, log2);
                lemma_extends_twice(self.log(), log4, log3);
            }
            match last {
                Ok(n) => {
                    read_len = read_len + n;
                },
                Err(err) => {
                    return Err(err);
                },
            }
        }
        Ok(read_len)
    }
}

impl<'a, D: DeviceIo> BlockDevice<'a, D> {
    /// Moves the cursor to the offset that `pos` names. The block buffer is
    /// flushed before the cursor leaves its block.
    pub fn seek(&mut self, pos: SeekFrom) -> (res: Result<i64, RtError>)
        requires
            old(self).wf(),
        ensures
            final(self).wf(),
            extends(final(self).log(), old(self).log()),
            old(self)@.seek(pos, final(self).log(), old(self).log().len() as int) == (Run {
                state: final(self)@,
                result: res,
                next: final(self).log().len() as int,
                matched: true,
            }),
    {
        assert(self.block_pos * self.block_size + self.byte_pos <= u128::MAX) by (nonlinear_arith)
            requires
                self.block_pos <= 0xffff_ffff_ffff_ffff,
                self.block_size <= 0xffff_ffff_ffff_ffff,
                self.byte_pos <= 0xffff_ffff_ffff_ffff,
        ;
        assert(0 <= self.block_pos * self.block_size <= u128::MAX) by (nonlinear_arith)
            requires
                self.block_pos <= 0xffff_ffff_ffff_ffff,
                self.block_size <= 0xffff_ffff_ffff_ffff,
        ;
        let here: u128 = self.block_pos as u128 * self.block_size as u128 + self.byte_pos as u128;
        let offset: usize = match pos.resolve(here) {
            Some(offset) => offset,
            None => {
                return Err(RtError::Inval);
            },
        };
        let new_block_pos: usize = offset / self.block_size;
        let new_byte_size: usize = offset % self.block_size;
        if new_block_pos != self.block_pos {
            self.flush()?;
            self.block_pos = new_block_pos;
            self.status = BlockStatus::Uninit;
        }
        self.byte_pos = new_byte_size;
        Ok(offset as i64)
    }
}

/// Providing regular device operation for non-[block device](crate::device::DeviceType)
pub struct CharDevice<'a, D: DeviceIo> {
    device: Recorded<'a, D>,
    pos: usize,
}

impl<'a, D: DeviceIo> CharDevice<'a, D> {
    /// Every device call that this stream has made, oldest first.
    pub closed spec fn log(&self) -> Seq<IoEvent> {
        self.device.log()
    }

    /// Offset of the cursor from the start of the device, in bytes.
    pub closed spec fn offset(&self) -> usize {
        self.pos
    }

    /// Where the cursor stands and what a transfer at `pos` yields once the
    /// device has answered with `reply`: the device's error; else its count,
    /// by which the cursor moves on; `Inval` where no offset lies that far.
    pub open spec fn moved(pos: usize, reply: Result<usize, RtError>) -> (usize, Result<
        usize,
        RtError,
    >) {
        match reply {
            Err(err) => (pos, Err(err)),
            Ok(done) => if pos + done <= usize::MAX {
                ((pos + done) as usize, Ok(done))
            } else {
                (pos, Err(RtError::Inval))
            },
        }
    }

    /// Create a CharDevice for reading and writing non-block device.
    ///
    /// If `device` is [DeviceType](DeviceType)::RT_Device_Class_Block,
    /// the method will return `RtError::NoSys`.
    pub fn new(device: &'a mut D) -> (res: Result<Self, RtError>)
        ensures
            res matches Ok(stream) ==> {
                &&& stream.offset() == 0
                &&& stream.log().len() == 1
                &&& stream.log()[0] matches IoEvent::Kind { kind }
                &&& kind != DeviceType::RT_Device_Class_Block
            },
            res matches Err(err) ==> err == RtError::NoSys,
    {
        let mut device = Recorded::new(device);
        let kind = device.get_device_type();
        Self::open(device, kind)
    }

    /// Opens a stream over a device that has told its class.
    fn open(device: Recorded<'a, D>, kind: DeviceType) -> (res: Result<Self, RtError>)
        ensures
            kind == DeviceType::RT_Device_Class_Block ==> res == Err::<Self, RtError>(
                RtError::NoSys,
            ),
            kind != DeviceType::RT_Device_Class_Block ==> {
                &&& res matches Ok(stream)
                &&& stream.offset() == 0
                &&& stream.log() == device.log()
            },
    {
        if kind == DeviceType::RT_Device_Class_Block {
            return Err(RtError::NoSys);
        }
        Ok(Self { device, pos: 0 })
    }

    /// Opens a stream over a device of class `kind`: `NoSys` if it is a
    /// block device.
    pub fn with_kind(device: &'a mut D, kind: DeviceType) -> (res: Result<Self, RtError>)
        ensures
            kind == DeviceType::RT_Device_Class_Block ==> res == Err::<Self, RtError>(
                RtError::NoSys,
            ),
            kind != DeviceType::RT_Device_Class_Block ==> {
                &&& res matches Ok(stream)
                &&& stream.offset() == 0
                &&& stream.log() == Seq::<IoEvent>::empty()
            },
    {
        Self::open(Recorded::new(device), kind)
    }

    /// Offset of the cursor from the start of the device, in bytes.
    pub fn pos(&self) -> (pos: usize)
        ensures
            pos == self.offset(),
    {
        self.pos
    }

    /// Hands all of `buf` to one write at the cursor, and moves the cursor on
    /// by the number of bytes that the device says it has written.
    pub fn write(&mut self, buf: &[u8]) -> (res: Result<usize, RtError>)
        ensures
            final(self).log().len() == old(self).log().len() + 1,
            final(self).log().drop_last() == old(self).log(),
            final(self).log().last() matches IoEvent::Write { pos, size, data, reply } && {
                &&& pos == old(self).offset()
                &&& size == buf@.len()
                &&& data == buf@
                &&& (final(self).offset(), res) == Self::moved(old(self).offset(), reply)
            },
    {
        let reply = self.device.write(self.pos, buf, buf.len());
        proof {
            assert(self.log().drop_last() =~= old(self).log());
        }
        self.advance(reply)
    }

    /// Nothing is held back, so there is nothing to flush.
    pub fn flush(&mut self) -> (res: Result<(), RtError>)
        ensures
            res is Ok,
            final(self).offset() == old(self).offset(),
            final(self).log() == old(self).log(),
    {
        Ok(())
    }

    /// Hands all of `buf` to one read at the cursor, and moves the cursor on
    /// by the number of bytes that the device says it has read. `buf` then
    /// holds whatever the device left in it.
    pub fn read(&mut self, buf: &mut [u8]) -> (res: Result<usize, RtError>)
        ensures
            final(self).log().len() == old(self).log().len() + 1,
            final(self).log().drop_last() == old(self).log(),
            final(self).log().last() matches IoEvent::Read { pos, size, len, reply, data } && {
                &&& pos == old(self).offset()
                &&& size == old(buf)@.len()
                &&& len == old(buf)@.len()
                &&& data == final(buf)@
                &&& (final(self).offset(), res) == Self::moved(old(self).offset(), reply)
            },
    {
        let size: usize = buf.len();
        let reply = self.device.read(self.pos, buf, size);
        proof {
            assert(self.log().drop_last() =~= old(self).log());
        }
        self.advance(reply)
    }

    /// Moves the cursor on by what the device says it has transferred.
    fn advance(&mut self, reply: Result<usize, RtError>) -> (res: Result<usize, RtError>)
        ensures
            (final(self).offset(), res) == Self::moved(old(self).offset(), reply),
            final(self).log() == old(self).log(),
    {
        let done: usize = reply?;
        match self.pos.checked_add(done) {
            Some(pos) => {
                self.pos = pos;
                Ok(done)
            },
            None => Err(RtError::Inval),
        }
    }
}

impl<'a, D: DeviceIo> CharDevice<'a, D> {
    /// Moves the cursor to the offset that `pos` names; where there is none
    /// to reach, the seek fails with `Inval` and the cursor stays.
    pub fn seek(&mut self, pos: SeekFrom) -> (res: Result<i64, RtError>)
        ensures
            final(self).log() == old(self).log(),
            match pos.target(old(self).offset() as int) {
                Some(target) if SeekFrom::reachable(target) => final(self).offset() == target
                    && res == Ok::<i64, RtError>(target as i64),
                _ => final(self).offset() == old(self).offset() && res == Err::<i64, RtError>(
                    RtError::Inval,
                ),
            },
    {
        match pos.resolve(self.pos as u128) {
            Some(offset) => {
                self.pos = offset;
                Ok(offset as i64)
            },
            None => Err(RtError::Inval),
        }
    }
}

} // verus!
