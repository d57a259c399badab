//! A byte cursor: fixed-width little-endian reads from an in-memory buffer,
//! with relative seeking.

use vstd::prelude::*;
use vstd::bytes::{spec_u16_from_le_bytes, spec_u32_from_le_bytes, spec_u64_from_le_bytes};
use vstd::bytes::{u16_from_le_bytes, u32_from_le_bytes, u64_from_le_bytes};
use vstd::slice::slice_subrange;
use crate::ReplayError;

verus! {

pub const U16_MEM_LEN: usize = 2;
pub const I16_MEM_LEN: usize = 2;

pub const U32_MEM_LEN: usize = 4;
pub const I32_MEM_LEN: usize = 4;

pub const U64_MEM_LEN: usize = 8;
pub const I64_MEM_LEN: usize = 8;

/// The value of `u` read back as a two's-complement 16-bit integer.
pub open spec fn spec_signed16(u: u16) -> int {
    if u < 0x8000 {
        u as int
    } else {
        u as int - 0x10000
    }
}

/// The value of `u` read back as a two's-complement 32-bit integer.
pub open spec fn spec_signed32(u: u32) -> int {
    if u < 0x80000000 {
        u as int
    } else {
        u as int - 0x100000000
    }
}

/// The value of `u` read back as a two's-complement 64-bit integer.
pub open spec fn spec_signed64(u: u64) -> int {
    if u < 0x8000000000000000 {
        u as int
    } else {
        u as int - 0x10000000000000000
    }
}

/// A cursor over an owned byte buffer with an explicit position.
pub struct Reader {
    pub buf: Vec<u8>,
    pub pos: usize,
}

impl Reader {
    /// The bytes the cursor walks over.
    pub open spec fn bytes(&self) -> Seq<u8> {
        self.buf@
    }

    /// The current position, always within the buffer.
    pub open spec fn position(&self) -> int {
        self.pos as int
    }

    pub open spec fn wf(&self) -> bool {
        self.pos <= self.buf@.len()
    }
}

impl From<Vec<u8>> for Reader {
    fn from(vec: Vec<u8>) -> (r: Self) {
        Reader { buf: vec, pos: 0 }
    }
}

impl vstd::std_specs::convert::FromSpecImpl<Vec<u8>> for Reader {
    open spec fn obeys_from_spec() -> bool {
        true
    }

    open spec fn from_spec(vec: Vec<u8>) -> Self {
        Reader { buf: vec, pos: 0 }
    }
}

impl Reader {
    pub fn read_u16_le(&mut self) -> (r: u16)
        requires
            old(self).wf(),
            old(self).position() + U16_MEM_LEN <= old(self).bytes().len(),
        ensures
            final(self).wf(),
            final(self).bytes() == old(self).bytes(),
            final(self).position() == old(self).position() + U16_MEM_LEN,
            r == spec_u16_from_le_bytes(
                old(self).bytes().subrange(old(self).position(), old(self).position() + 2),
            ),
    {
        let len = self.buf.len();
        let raw_bytes = slice_subrange(self.buf.as_slice(), self.pos, self.pos + 2);
        self.pos = self.pos + 2;
        u16_from_le_bytes(raw_bytes)
    }

    pub fn read_i16_le(&mut self) -> (r: i16)
        requires
            old(self).wf(),
            old(self).position() + I16_MEM_LEN <= old(self).bytes().len(),
        ensures
            final(self).wf(),
            final(self).bytes() == old(self).bytes(),
            final(self).position() == old(self).position() + I16_MEM_LEN,
            r as int == spec_signed16(
                spec_u16_from_le_bytes(
                    old(self).bytes().subrange(old(self).position(), old(self).position() + 2),
                ),
            ),
    {
        let len = self.buf.len();
        let raw_bytes = slice_subrange(self.buf.as_slice(), self.pos, self.pos + 2);
        self.pos = self.pos + 2;
        let u = u16_from_le_bytes(raw_bytes);
        if u < 0x8000 {
            u as i16
        } else {
            (u as i32 - 0x10000) as i16
        }
    }

    pub fn read_u32_le(&mut self) -> (r: u32)
        requires
            old(self).wf(),
            old(self).position() + U32_MEM_LEN <= old(self).bytes().len(),
        ensures
            final(self).wf(),
            final(self).bytes() == old(self).bytes(),
            final(self).position() == old(self).position() + U32_MEM_LEN,
            r == spec_u32_from_le_bytes(
                old(self).bytes().subrange(old(self).position(), old(self).position() + 4),
            ),
    {
        let len = self.buf.len();
        let raw_bytes = slice_subrange(self.buf.as_slice(), self.pos, self.pos + 4);
        self.pos = self.pos + 4;
        u32_from_le_bytes(raw_bytes)
    }

    pub fn read_i32_le(&mut self) -> (r: i32)
        requires
            old(self).wf(),
            old(self).position() + I32_MEM_LEN <= old(self).bytes().len(),
        ensures
            final(self).wf(),
            final(self).bytes() == old(self).bytes(),
            final(self).position() == old(self).position() + I32_MEM_LEN,
            r as int == spec_signed32(
                spec_u32_from_le_bytes(
                    old(self).bytes().subrange(old(self).position(), old(self).position() + 4),
                ),
            ),
    {
        let len = self.buf.len();
        let raw_bytes = slice_subrange(self.buf.as_slice(), self.pos, self.pos + 4);
        self.pos = self.pos + 4;
        let u = u32_from_le_bytes(raw_bytes);
        if u < 0x80000000 {
            u as i32
        } else {
            (u as i64 - 0x100000000i64) as i32
        }
    }

    pub fn read_u64_le(&mut self) -> (r: u64)
        requires
            old(self).wf(),
            old(self).position() + U64_MEM_LEN <= old(self).bytes().len(),
        ensures
            final(self).wf(),
            final(self).bytes() == old(self).bytes(),
            final(self).position() == old(self).position() + U64_MEM_LEN,
            r == spec_u64_from_le_bytes(
                old(self).bytes().subrange(old(self).position(), old(self).position() + 8),
            ),
    {
        let len = self.buf.len();
        let raw_bytes = slice_subrange(self.buf.as_slice(), self.pos, self.pos + 8);
        self.pos = self.pos + 8;
        u64_from_le_bytes(raw_bytes)
    }

    pub fn read_i64_le(&mut self) -> (r: i64)
        requires
            old(self).wf(),
            old(self).position() + I64_MEM_LEN <= old(self).bytes().len(),
        ensures
            final(self).wf(),
            final(self).bytes() == old(self).bytes(),
            final(self).position() == old(self).position() + I64_MEM_LEN,
            r as int == spec_signed64(
                spec_u64_from_le_bytes(
                    old(self).bytes().subrange(old(self).position(), old(self).position() + 8),
                ),
            ),
    {
        let len = self.buf.len();
        let raw_bytes = slice_subrange(self.buf.as_slice(), self.pos, self.pos + 8);
        self.pos = self.pos + 8;
        let u = u64_from_le_bytes(raw_bytes);
        if u < 0x8000000000000000 {
            u as i64
        } else {
            (u as i128 - 0x10000000000000000i128) as i64
        }
    }

    /// Moves the position by `n_bytes`, which may be negative. A move that
    /// would land outside the buffer fails and leaves the cursor where it was.
    pub fn skip(&mut self, n_bytes: i64) -> (r: Result<(), ReplayError>)
        requires
            old(self).wf(),
        ensures
            final(self).wf(),
            final(self).bytes() == old(self).bytes(),
            ({
                let target = old(self).position() + n_bytes;
                if 0 <= target && target <= old(self).bytes().len() {
                    r is Ok && final(self).position() == target
                } else {
                    (r matches Err(e) && e == ReplayError::Io) && final(self).position() == old(
                        self,
                    ).position()
                }
            }),
    {
        let target: i128 = self.pos as i128 + n_bytes as i128;
        if 0 <= target && target <= self.buf.len() as i128 {
            self.pos = target as usize;
            Ok(())
        } else {
            Err(ReplayError::Io)
        }
    }
}

} // verus!
