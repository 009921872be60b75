//! Fixed-length 32-byte strings, as used by resource tables and by the
//! name-service announcement: NUL-padded, not necessarily NUL-terminated.

use vstd::prelude::*;
use vstd::string::StringSliceAdditionalSpecFns;

verus! {

/// Number of bytes in a [`String32`].
pub const BUFFER_LEN: usize = 32;

/// A string in a fixed-length 32-byte buffer. Shorter contents are padded
/// with NUL bytes; longer contents are truncated.
#[derive(Debug, PartialEq, Eq)]
pub struct String32 {
    buffer: Vec<u8>,
}

impl View for String32 {
    type V = Seq<u8>;

    closed spec fn view(&self) -> Seq<u8> {
        self.buffer@
    }
}

/// `bytes` cut or NUL-padded to exactly 32 bytes.
pub open spec fn spec_pad32(bytes: Seq<u8>) -> Seq<u8> {
    if bytes.len() >= 32 {
        bytes.subrange(0, 32)
    } else {
        bytes + Seq::new((32 - bytes.len()) as nat, |i: int| 0u8)
    }
}

impl String32 {
    /// A value always holds exactly 32 bytes.
    pub open spec fn wf(self) -> bool {
        self@.len() == 32
    }

    /// Builds a `String32` from raw bytes, truncating or NUL-padding.
    pub fn from_bytes(src: &[u8]) -> (r: String32)
        ensures
            r@ == spec_pad32(src@),
            r.wf(),
    {
        let mut buffer: Vec<u8> = Vec::new();
        let n = src.len();
        let mut i: usize = 0;
        while i < 32
            invariant
                i <= 32,
                n == src@.len(),
                buffer@.len() == i,
                forall|j: int| 0 <= j < i as int ==> buffer@[j] == spec_pad32(src@)[j],
            decreases 32 - i,
        {
            if i < n {
                buffer.push(src[i]);
            } else {
                buffer.push(0);
            }
            i = i + 1;
        }
        proof {
            assert(buffer@ =~= spec_pad32(src@));
        }
        String32 { buffer }
    }

    /// Builds a `String32` from a string slice, truncating or NUL-padding
    /// its UTF-8 bytes.
    pub fn from_str(src: &str) -> (r: String32)
        ensures
            r@ == spec_pad32(src.spec_bytes()),
            r.wf(),
    {
        String32::from_bytes(src.as_bytes())
    }

    /// The raw 32 bytes.
    pub fn as_bytes(&self) -> (r: &Vec<u8>)
        ensures
            r@ == self@,
    {
        &self.buffer
    }
}

} // verus!
