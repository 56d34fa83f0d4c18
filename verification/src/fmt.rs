//! Console output: text goes to the kernel in chunks that fit a fixed buffer.

use vstd::prelude::*;

verus! {

/// Size of the buffer that is handed to the kernel's output call: a chunk of
/// text and the zero that ends it.
pub const CONSOLE_BUF_SIZE: usize = 32;

/// The kernel's console.
pub struct Console;

impl Console {
    /// Length of the chunk of `text` that starts at `from`: as much as is
    /// left, but no more than the buffer holds before its last byte.
    pub open spec fn chunk_len(text: Seq<u8>, from: int) -> int {
        if from >= text.len() {
            0
        } else if text.len() - from < CONSOLE_BUF_SIZE - 1 {
            text.len() - from
        } else {
            CONSOLE_BUF_SIZE - 1
        }
    }

    /// Copies the chunk of `text` that starts at `from` to the front of
    /// `buf`, leaves the rest of `buf` as it is, and gives the offset at
    /// which the next chunk starts. The last byte of `buf` is never written:
    /// where it is zero, it ends the chunk for the kernel.
    pub fn next_chunk(buf: &mut [u8; 32], text: &[u8], from: usize) -> (next: usize)
        ensures
            next == from + Self::chunk_len(text@, from as int),
            from >= text@.len() ==> final(buf)@ == old(buf)@,
            from < text@.len() ==> final(buf)@ == text@.subrange(from as int, next as int) + old(
                buf,
            )@.subrange(next - from, CONSOLE_BUF_SIZE as int),
    {
        let ghost before = buf@;
        let total: usize = text.len();
        if from >= total {
            return from;
        }
        let left: usize = total - from;
        let len: usize = if left < CONSOLE_BUF_SIZE - 1 { left } else { CONSOLE_BUF_SIZE - 1 };
        let mut i: usize = 0;
        while i < len
            invariant
                i <= len < CONSOLE_BUF_SIZE,
                from + len <= text@.len(),
                text@.len() == total,
                before.len() == CONSOLE_BUF_SIZE,
                forall|j: int| 0 <= j < i ==> buf@[j] == text@[from + j],
                forall|j: int| i <= j < CONSOLE_BUF_SIZE ==> buf@[j] == before[j],
            decreases len - i,
        {
            buf[i] = text[from + i];
            i += 1;
        }
        assert(buf@ =~= text@.subrange(from as int, from + len) + before.subrange(
            len as int,
            CONSOLE_BUF_SIZE as int,
        ));
        from + len
    }
}

} // verus!
