//! The trace buffer: a fixed-size byte array at a fixed device address
//! that the firmware appends text to and the host snapshots from offset
//! zero. The write cursor wraps to the start when a message no longer
//! fits, and a single NUL byte always marks the logical end of the text.

use vstd::prelude::*;

verus! {

/// Size of the trace buffer in bytes.
pub const TRACE_BUFFER_LEN: usize = 16384;

/// The firmware's view of the trace buffer. On the device the byte array
/// is the shared memory the host reads; only one `Trace` may exist for
/// it at a time.
#[derive(Debug)]
pub struct Trace {
    /// Next byte to write.
    out_idx: usize,
    /// The buffer contents.
    buffer: Vec<u8>,
}

/// Index of the first NUL byte at or after `i`, or 0 if none is left:
/// how the write cursor is recovered from a buffer of unknown state.
pub open spec fn spec_first_nul(b: Seq<u8>, i: int) -> int
    decreases b.len() - i,
{
    if i < 0 || i >= b.len() {
        0
    } else if b[i] == 0 {
        i
    } else {
        spec_first_nul(b, i + 1)
    }
}

impl Trace {
    /// The buffer contents.
    pub closed spec fn spec_buffer(self) -> Seq<u8> {
        self.buffer@
    }

    /// The write cursor.
    pub closed spec fn spec_cursor(self) -> int {
        self.out_idx as int
    }

    /// The buffer has its fixed size and the cursor lies within it.
    pub open spec fn wf(self) -> bool {
        &&& self.spec_buffer().len() == TRACE_BUFFER_LEN
        &&& 0 <= self.spec_cursor() < TRACE_BUFFER_LEN
    }

    /// Wrap a fresh buffer, writing from its start.
    pub fn new(buffer: Vec<u8>) -> (r: Trace)
        requires
            buffer@.len() == TRACE_BUFFER_LEN,
        ensures
            r.wf(),
            r.spec_buffer() == buffer@,
            r.spec_cursor() == 0,
    {
        Trace { out_idx: 0, buffer }
    }

    /// Adopt a buffer of unknown state, recovering the cursor by
    /// scanning for the first NUL byte. Meant for the panic path, which
    /// cannot know who held the buffer before.
    pub fn steal(buffer: Vec<u8>) -> (r: Trace)
        requires
            buffer@.len() == TRACE_BUFFER_LEN,
        ensures
            r.wf(),
            r.spec_buffer() == buffer@,
            r.spec_cursor() == spec_first_nul(buffer@, 0),
    {
        let mut used_space: usize = 0;
        let n = buffer.len();
        let mut i: usize = 0;
        let mut found = false;
        while i < n && !found
            invariant
                i <= n,
                n == buffer@.len(),
                !found ==> used_space == 0 && spec_first_nul(buffer@, 0) == spec_first_nul(
                    buffer@,
                    i as int,
                ),
                found ==> used_space == spec_first_nul(buffer@, 0) && used_space < n,
            decreases n - i + (if found { 0int } else { 1int }),
        {
            if !found && buffer[i] == 0 {
                used_space = i;
                found = true;
            } else {
                i = i + 1;
            }
        }
        Trace { out_idx: used_space, buffer }
    }

    /// Current cursor position.
    pub fn cursor(&self) -> (r: usize)
        ensures
            r == self.spec_cursor(),
    {
        self.out_idx
    }

    /// The buffer contents.
    pub fn buffer(&self) -> (r: &Vec<u8>)
        ensures
            r@ == self.spec_buffer(),
    {
        &self.buffer
    }

    /// Append `s` followed by one NUL byte, wrapping to offset zero first
    /// when the remaining space cannot take `s` and the NUL. A string
    /// that cannot fit the buffer at all is rejected and nothing is
    /// written.
    pub fn write_str(&mut self, s: &[u8]) -> (r: Result<(), ()>)
        requires
            old(self).wf(),
        ensures
            final(self).wf(),
            s@.len() + 1 > TRACE_BUFFER_LEN ==> r is Err && *final(self) == *old(self),
            s@.len() + 1 <= TRACE_BUFFER_LEN ==> ({
                let start = if old(self).spec_cursor() + s@.len() + 1 <= TRACE_BUFFER_LEN {
                    old(self).spec_cursor()
                } else {
                    0
                };
                &&& r is Ok
                &&& final(self).spec_cursor() == start + s@.len()
                &&& final(self).spec_buffer() == old(self).spec_buffer().subrange(0, start) + s@
                    + seq![0u8] + old(self).spec_buffer().skip(start + s@.len() + 1)
            }),
    {
        // Can never fit (with the NUL): report an error.
        if s.len() >= self.buffer.len() {
            return Err(());
        }
        let space = self.buffer.len() - self.out_idx;
        // Does not fit in the remaining space: wrap to make room.
        if s.len() + 1 > space {
            self.out_idx = 0;
        }
        let start = self.out_idx;
        crate::vring::write_bytes_at(&mut self.buffer, start, s);
        self.out_idx = start + s.len();
        self.buffer.set(self.out_idx, 0);
        proof {
            assert(self.buffer@ =~= old(self).spec_buffer().subrange(0, start as int) + s@
                + seq![0u8] + old(self).spec_buffer().skip(start + s@.len() + 1));
        }
        Ok(())
    }
}

} // verus!
